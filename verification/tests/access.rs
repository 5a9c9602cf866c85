use typed_shmem::common::ShMemOps;
use typed_shmem::sh_mem::ShMem;

struct Local {
    cell: u32,
}

impl ShMemOps<u32> for Local {
    fn get_t(&self) -> &u32 {
        &self.cell
    }

    fn get_t_mut(&mut self) -> &mut u32 {
        &mut self.cell
    }
}

#[test]
fn write_then_read_round_trip() {
    let mut mem = ShMem::new(Local { cell: 0 });
    assert_eq!(*mem.get_t(), 0);
    *mem.get_t_mut() = 10;
    assert_eq!(*mem.get_t(), 10);
    mem.store(77);
    assert_eq!(*mem.get_t(), 77);
    assert_eq!(mem.into_inner().cell, 77);
}

#[test]
fn value_semantics_reach_the_same_value() {
    let mut mem = ShMem::new(Local { cell: 3 });
    assert_eq!(*mem, 3);
    *mem = 10;
    assert_eq!(*mem, 10);
    assert_eq!(*mem.get_t(), 10);
    *mem.get_t_mut() += 1;
    assert_eq!(*mem, 11);
}

#[test]
fn wrapping_and_unwrapping_keep_the_value() {
    let mem = ShMem::new(Local { cell: 0xfeed });
    assert_eq!(*mem.get_t(), 0xfeed);
    assert_eq!(mem.into_inner().cell, 0xfeed);
}

#[test]
fn the_last_write_stands() {
    let mut mem = ShMem::new(Local { cell: 0 });
    for v in [1u32, 2, 3, u32::MAX, 0] {
        mem.store(v);
        assert_eq!(*mem.get_t(), v);
    }
}
