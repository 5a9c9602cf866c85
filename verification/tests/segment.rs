use typed_shmem::common::ShMemOps;
use typed_shmem::config::ShMemCfg;
use typed_shmem::error::{Condition, Platform, ShMemErr};
use typed_shmem::segment::{Action, Event, Phase, Segment};
use typed_shmem::sh_mem::ShMem;
use typed_shmem::unix::{create_fd, open_fd};

/// A stand-in for the operating system: named objects of one `u32` each.
struct World {
    objects: Vec<(String, u32)>,
    calls: Vec<String>,
}

/// One mapped object of the stand-in.
struct Mapped<'a> {
    cell: &'a mut u32,
}

impl<'a> ShMemOps<u32> for Mapped<'a> {
    fn get_t(&self) -> &u32 {
        self.cell
    }

    fn get_t_mut(&mut self) -> &mut u32 {
        self.cell
    }
}

fn find(world: &World, name: &str) -> Option<usize> {
    world.objects.iter().position(|o| o.0 == name)
}

fn perform(world: &mut World, segment: &Segment<u32>, action: &Action<u32>) -> Event {
    let name = segment.file_name().to_string();
    match action {
        Action::CreateObject { size } => {
            let request = create_fd(*size, &name);
            world.calls.push(format!("create {} {}", request.name, size));
            assert!(request.flags.create && request.flags.exclusive);
            if find(world, &name).is_some() {
                Event::Failed(ShMemErr::from_errno(17, String::from("EEXIST: File exists")))
            } else {
                world.objects.push((name, 0xdead_beef));
                Event::Done(world.objects.len() + 2)
            }
        }
        Action::OpenObject => {
            let request = open_fd(&name);
            world.calls.push(format!("open {}", request.name));
            assert!(!request.flags.create);
            match find(world, &name) {
                Some(i) => Event::Done(i + 3),
                None => Event::Failed(ShMemErr::from_errno(
                    2,
                    String::from("ENOENT: No such file or directory"),
                )),
            }
        }
        Action::MapObject { handle, size } => {
            world.calls.push(format!("map {} {}", handle, size));
            Event::Done(0x1000 * handle)
        }
        Action::Write { address, value } => {
            world.calls.push(format!("write {:#x} {}", address, value));
            let i = find(world, &name).unwrap();
            world.objects[i].1 = *value;
            Event::Done(0)
        }
        Action::WriteDefault { address } => {
            world.calls.push(format!("write {:#x} default", address));
            let i = find(world, &name).unwrap();
            world.objects[i].1 = u32::default();
            Event::Done(0)
        }
        Action::Unmap { address, size } => {
            world.calls.push(format!("unmap {:#x} {}", address, size));
            Event::Done(0)
        }
        Action::Unlink => {
            world.calls.push(format!("unlink {}", name));
            match find(world, &name) {
                Some(i) => {
                    world.objects.remove(i);
                    Event::Done(0)
                }
                None => Event::Failed(ShMemErr::from_errno(
                    2,
                    String::from("ENOENT: No such file or directory"),
                )),
            }
        }
        Action::Close { handle } => {
            world.calls.push(format!("close {}", handle));
            Event::Done(0)
        }
        _ => unreachable!(),
    }
}

fn construct(world: &mut World, cfg: ShMemCfg<u32>) -> Result<Segment<u32>, ShMemErr> {
    let mut segment = cfg.build();
    let mut event = Event::Begin;
    loop {
        let (next, action) = segment.step(event);
        segment = next;
        match action {
            Action::Ready => {
                assert!(segment.is_live());
                return Ok(segment);
            }
            Action::Fail(e) => {
                assert_eq!(segment.phase(), Phase::Failed);
                return Err(e);
            }
            other => event = perform(world, &segment, &other),
        }
    }
}

fn destroy(world: &mut World, segment: Segment<u32>) -> Result<(), ShMemErr> {
    let mut segment = segment;
    let mut event = Event::Drop;
    loop {
        let (next, action) = segment.step(event);
        segment = next;
        match action {
            Action::Finished => {
                assert_eq!(segment.phase(), Phase::Closed);
                return Ok(());
            }
            Action::Abort(e) => {
                assert_eq!(segment.phase(), Phase::Aborted);
                return Err(e);
            }
            other => event = perform(world, &segment, &other),
        }
    }
}

fn map<'a>(world: &'a mut World, segment: &Segment<u32>) -> ShMem<u32, Mapped<'a>> {
    assert!(segment.is_live());
    let i = find(world, segment.file_name()).unwrap();
    ShMem::new(Mapped { cell: &mut world.objects[i].1 })
}

fn empty_world() -> World {
    World { objects: Vec::new(), calls: Vec::new() }
}

fn counter(owner: bool) -> ShMemCfg<u32> {
    let cfg = ShMemCfg::<u32>::with_number(Platform::Unix, 1).on_file("counter");
    if owner {
        cfg.set_owner()
    } else {
        cfg
    }
}

#[test]
fn owner_reads_the_configured_initial_value() {
    let mut world = empty_world();
    let segment = construct(&mut world, counter(true).with_initial_value(31)).unwrap();
    assert_eq!(*map(&mut world, &segment).get_t(), 31);
    assert_eq!(
        world.calls,
        vec!["create /shmem_counter 4", "map 3 4", "write 0x3000 31"]
    );
}

#[test]
fn owner_reads_the_default_where_none_was_configured() {
    let mut world = empty_world();
    let segment = construct(&mut world, counter(true)).unwrap();
    assert_eq!(*map(&mut world, &segment).get_t(), 0);
    assert_eq!(
        world.calls,
        vec!["create /shmem_counter 4", "map 3 4", "write 0x3000 default"]
    );
}

#[test]
fn attached_segment_sees_what_the_owner_wrote_last() {
    let mut world = empty_world();
    let owner = construct(&mut world, counter(true).with_initial_value(1)).unwrap();
    *map(&mut world, &owner).get_t_mut() = 5;
    *map(&mut world, &owner).get_t_mut() = 6;
    let other = construct(&mut world, counter(false)).unwrap();
    assert_eq!(*map(&mut world, &other).get_t(), 6);
    map(&mut world, &other).store(9);
    assert_eq!(*map(&mut world, &owner).get_t(), 9);
}

#[test]
fn attaching_never_writes() {
    let mut world = empty_world();
    let _owner = construct(&mut world, counter(true).with_initial_value(12)).unwrap();
    world.calls.clear();
    let other = construct(&mut world, counter(false).with_initial_value(99)).unwrap();
    assert_eq!(world.calls, vec!["open /shmem_counter", "map 3 4"]);
    assert_eq!(*map(&mut world, &other).get_t(), 12);
}

#[test]
fn attaching_to_a_missing_object_is_not_found() {
    let mut world = empty_world();
    let e = construct(&mut world, counter(false)).err().unwrap();
    assert!(e.is_not_found());
    assert_eq!(
        e,
        ShMemErr::Unix(Condition::NotFound, String::from("ENOENT: No such file or directory"))
    );
    assert_eq!(world.calls, vec!["open /shmem_counter"]);
}

#[test]
fn owning_a_name_twice_is_refused_and_the_object_is_kept() {
    let mut world = empty_world();
    let owner = construct(&mut world, counter(true).with_initial_value(44)).unwrap();
    let e = construct(&mut world, counter(true).with_initial_value(0)).err().unwrap();
    assert!(e.is_already_exists());
    assert!(!e.is_not_found());
    assert_eq!(*map(&mut world, &owner).get_t(), 44);
    assert_eq!(world.objects.len(), 1);
}

#[test]
fn owner_destroys_the_object_and_others_do_not() {
    let mut world = empty_world();
    let owner = construct(&mut world, counter(true)).unwrap();
    let other = construct(&mut world, counter(false)).unwrap();
    world.calls.clear();
    destroy(&mut world, other).unwrap();
    assert_eq!(world.calls, vec!["unmap 0x3000 4"]);
    assert!(construct(&mut world, counter(false)).is_ok());
    world.calls.clear();
    destroy(&mut world, owner).unwrap();
    assert_eq!(world.calls, vec!["unmap 0x3000 4", "unlink /shmem_counter"]);
    assert!(construct(&mut world, counter(false)).err().unwrap().is_not_found());
}

#[test]
fn counter_scenario() {
    let mut world = empty_world();
    let owner = construct(
        &mut world,
        ShMemCfg::<u32>::with_number(Platform::Unix, 0)
            .set_owner()
            .on_file("counter")
            .with_initial_value(0u32),
    )
    .unwrap();
    *map(&mut world, &owner).get_t_mut() = 10;
    let other = construct(
        &mut world,
        ShMemCfg::<u32>::with_number(Platform::Unix, 0).on_file("counter"),
    )
    .unwrap();
    assert_eq!(*map(&mut world, &other).get_t(), 10);
    destroy(&mut world, owner).unwrap();
    let e = construct(
        &mut world,
        ShMemCfg::<u32>::with_number(Platform::Unix, 0).on_file("counter"),
    )
    .err()
    .unwrap();
    assert!(e.is_not_found());
}

#[test]
fn windows_teardown_closes_the_handle_for_everybody() {
    for owner in [true, false] {
        let cfg = ShMemCfg::<u32>::with_number(Platform::Windows, 1).on_file("counter");
        let cfg = if owner { cfg.set_owner() } else { cfg };
        let segment = cfg.build();
        let (segment, _) = segment.step(Event::Begin);
        let (segment, _) = segment.step(Event::Done(0x1f4));
        let (segment, action) = segment.step(Event::Done(0x7000));
        let segment = if owner {
            assert_eq!(action, Action::WriteDefault { address: 0x7000 });
            segment.step(Event::Done(0)).0
        } else {
            assert_eq!(action, Action::Ready);
            segment
        };
        assert!(segment.is_live());
        let (segment, action) = segment.step(Event::Drop);
        assert_eq!(action, Action::Unmap { address: 0x7000, size: 4 });
        assert_eq!(segment.phase(), Phase::Unmapping);
        let (segment, action) = segment.step(Event::Done(0));
        assert_eq!(action, Action::Close { handle: 0x1f4 });
        assert_eq!(segment.phase(), Phase::Releasing);
        let (segment, action) = segment.step(Event::Done(0));
        assert_eq!(action, Action::Finished);
        assert_eq!(segment.phase(), Phase::Closed);
    }
}

#[test]
fn each_step_of_an_owners_construction() {
    let segment = counter(true).with_initial_value(3).build();
    let (segment, action) = segment.step(Event::Begin);
    assert_eq!(action, Action::CreateObject { size: 4 });
    assert_eq!(segment.phase(), Phase::Acquiring);
    let (segment, action) = segment.step(Event::Done(11));
    assert_eq!(action, Action::MapObject { handle: 11, size: 4 });
    assert_eq!(segment.phase(), Phase::Mapping);
    assert_eq!(segment.handle(), 11);
    let (segment, action) = segment.step(Event::Done(0x5000));
    assert_eq!(action, Action::Write { address: 0x5000, value: 3 });
    assert_eq!(segment.phase(), Phase::Initializing);
    assert_eq!(segment.address(), 0x5000);
    assert!(!segment.is_live());
    let (segment, action) = segment.step(Event::Done(123));
    assert_eq!(action, Action::Ready);
    assert!(segment.is_live());
    assert_eq!(segment.handle(), 11);
    assert_eq!(segment.address(), 0x5000);
    assert!(segment.is_owner());
}

#[test]
fn failed_creation_hands_the_error_on() {
    let segment = counter(true).build();
    let (segment, _) = segment.step(Event::Begin);
    let e = ShMemErr::from_errno(13, String::from("EACCES: Permission denied"));
    let (segment, action) = segment.step(Event::Failed(e.clone()));
    assert_eq!(action, Action::Fail(e));
    assert_eq!(segment.phase(), Phase::Failed);
}

#[test]
fn failed_mapping_hands_the_error_on_and_keeps_nothing() {
    let segment = counter(true).build();
    let (segment, _) = segment.step(Event::Begin);
    let (segment, _) = segment.step(Event::Done(4));
    let e = ShMemErr::from_errno(12, String::from("ENOMEM: Out of memory"));
    let (segment, action) = segment.step(Event::Failed(e.clone()));
    assert_eq!(action, Action::Fail(e));
    assert_eq!(segment.phase(), Phase::Failed);
    assert!(!segment.is_live());
    let (segment, action) = segment.step(Event::Done(1));
    assert_eq!(action, Action::Ignore);
    assert_eq!(segment.phase(), Phase::Failed);
    let (segment, action) = segment.step(Event::Drop);
    assert_eq!(action, Action::Finished);
    assert_eq!(segment.phase(), Phase::Closed);
}

#[test]
fn failed_unmap_is_fatal() {
    let mut world = empty_world();
    let segment = construct(&mut world, counter(true)).unwrap();
    let (segment, _) = segment.step(Event::Drop);
    let e = ShMemErr::from_errno(22, String::from("EINVAL: Invalid argument"));
    let (segment, action) = segment.step(Event::Failed(e.clone()));
    assert_eq!(action, Action::Abort(e));
    assert_eq!(segment.phase(), Phase::Aborted);
    let (segment, action) = segment.step(Event::Done(0));
    assert_eq!(action, Action::Ignore);
    assert_eq!(segment.phase(), Phase::Aborted);
}

#[test]
fn failed_destroy_is_fatal() {
    let mut world = empty_world();
    let segment = construct(&mut world, counter(true)).unwrap();
    world.objects.clear();
    let e = destroy(&mut world, segment).err().unwrap();
    assert!(e.is_not_found());
}

#[test]
fn events_out_of_turn_change_nothing() {
    let segment = counter(true).build();
    let (segment, action) = segment.step(Event::Done(5));
    assert_eq!(action, Action::Ignore);
    assert_eq!(segment.phase(), Phase::Idle);
    assert_eq!(segment.handle(), 0);
    let e = ShMemErr::from_errno(1, String::from("EPERM"));
    let (segment, action) = segment.step(Event::Failed(e));
    assert_eq!(action, Action::Ignore);
    assert_eq!(segment.phase(), Phase::Idle);
    let (segment, _) = segment.step(Event::Begin);
    let (segment, action) = segment.step(Event::Begin);
    assert_eq!(action, Action::Ignore);
    assert_eq!(segment.phase(), Phase::Acquiring);
    let (segment, action) = segment.step(Event::Drop);
    assert_eq!(action, Action::Ignore);
    assert_eq!(segment.phase(), Phase::Acquiring);
}

#[test]
fn live_segment_ignores_everything_but_its_drop() {
    let mut world = empty_world();
    let segment = construct(&mut world, counter(true)).unwrap();
    let (segment, action) = segment.step(Event::Begin);
    assert_eq!(action, Action::Ignore);
    let (segment, action) = segment.step(Event::Done(1));
    assert_eq!(action, Action::Ignore);
    let (segment, action) =
        segment.step(Event::Failed(ShMemErr::from_errno(5, String::from("EIO"))));
    assert_eq!(action, Action::Ignore);
    assert!(segment.is_live());
    assert_eq!(segment.address(), 0x3000);
}

#[test]
fn teardown_runs_once() {
    let mut world = empty_world();
    let segment = construct(&mut world, counter(true)).unwrap();
    let (segment, _) = segment.step(Event::Drop);
    let (segment, _) = segment.step(Event::Done(0));
    let (segment, action) = segment.step(Event::Done(0));
    assert_eq!(action, Action::Finished);
    let mut segment = segment;
    for event in [Event::Drop, Event::Begin, Event::Done(0), Event::Drop] {
        let (after, action) = segment.step(event);
        assert_eq!(action, Action::Ignore);
        assert_eq!(after.phase(), Phase::Closed);
        segment = after;
    }
}

#[test]
fn dropping_an_idle_segment_asks_for_nothing() {
    let (segment, action) = counter(true).build().step(Event::Drop);
    assert_eq!(action, Action::Finished);
    assert_eq!(segment.phase(), Phase::Closed);
}

#[test]
fn a_clone_is_idle_and_never_the_owner() {
    let mut world = empty_world();
    let owner = construct(&mut world, counter(true).with_initial_value(2)).unwrap();
    let copy = owner.clone();
    assert!(owner.is_owner());
    assert!(owner.is_live());
    assert!(!copy.is_owner());
    assert_eq!(copy.phase(), Phase::Idle);
    assert_eq!(copy.file_name(), "/shmem_counter");
    assert_eq!(copy.size(), 4);
    assert_eq!(copy.handle(), 0);
    assert_eq!(copy.address(), 0);
    assert_eq!(copy.platform(), Platform::Unix);
    let (copy, action) = copy.step(Event::Begin);
    assert_eq!(action, Action::OpenObject);
    let (copy, _) = copy.step(Event::Done(3));
    let (copy, action) = copy.step(Event::Done(0x3000));
    assert_eq!(action, Action::Ready);
    world.calls.clear();
    destroy(&mut world, copy).unwrap();
    assert_eq!(world.calls, vec!["unmap 0x3000 4"]);
}

#[test]
fn replies_become_events() {
    assert_eq!(Event::from_reply(Ok(7)), Event::Done(7));
    let e = ShMemErr::Windows(Condition::Other, String::from("Mapping HANDLE error: 8"));
    assert_eq!(Event::from_reply(Err(e.clone())), Event::Failed(e));
}

fn stage(action: &Action<u32>) -> Option<u32> {
    match action {
        Action::CreateObject { .. } | Action::OpenObject => Some(0),
        Action::MapObject { .. } => Some(1),
        Action::Write { .. } | Action::WriteDefault { .. } => Some(2),
        Action::Ready => Some(3),
        Action::Unmap { .. } => Some(4),
        Action::Unlink | Action::Close { .. } => Some(5),
        Action::Fail(_) => Some(6),
        Action::Finished => Some(7),
        Action::Abort(_) => Some(8),
        Action::Ignore => None,
    }
}

#[test]
fn whatever_the_events_actions_come_in_order_and_once() {
    let mut seed: u32 = 12345;
    for round in 0..400 {
        let platform = match round % 3 {
            0 => Platform::Unix,
            1 => Platform::Windows,
            _ => Platform::WindowsGlobal,
        };
        let cfg = ShMemCfg::<u32>::with_number(platform, round).with_initial_value(round);
        let cfg = if round % 2 == 0 { cfg.set_owner() } else { cfg };
        let owner = cfg.is_owner();
        let mut segment = cfg.build();
        let mut last: Option<u32> = None;
        for _ in 0..24 {
            seed = seed.wrapping_mul(1664525).wrapping_add(1013904223);
            let event = match (seed >> 24) % 8 {
                0 => Event::Begin,
                1 => Event::Drop,
                2 => Event::Failed(ShMemErr::from_errno(5, String::from("EIO"))),
                _ => Event::Done((seed >> 8) as usize),
            };
            let before = segment.phase();
            let (next, action) = segment.step(event);
            segment = next;
            match stage(&action) {
                None => assert_eq!(segment.phase(), before),
                Some(now) => {
                    if let Some(earlier) = last {
                        assert!(earlier < now);
                    }
                    last = Some(now);
                }
            }
            if !owner {
                assert!(!matches!(
                    action,
                    Action::CreateObject { .. }
                        | Action::Write { .. }
                        | Action::WriteDefault { .. }
                        | Action::Unlink
                ));
            }
            assert_eq!(segment.is_owner(), owner);
            assert_eq!(segment.size(), 4);
            assert_eq!(segment.platform(), platform);
        }
    }
}
