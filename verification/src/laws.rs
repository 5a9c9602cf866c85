//! What holds of every segment, whatever the operating system answers.

use vstd::prelude::*;
use crate::error::{
    code_condition, errno_condition, Condition, Platform, ShMemErr, ShMemErrView, EEXIST, ENOENT,
    ERROR_ALREADY_EXISTS, ERROR_FILE_NOT_FOUND,
};
use crate::naming::{decimal, digit_char, namespace_prefix, qualified};
use crate::segment::{first_write, step_spec, Action, Event, Phase, SegmentView};
use crate::unix::create_flags;
use crate::windows::{already_exists, create_handle_spec, non_null_spec};

verus! {

/// Names that differ stay different once the platform's marker stands in
/// front of them: two segments collide only where the callers chose one name.
pub proof fn distinct_names_stay_distinct(platform: Platform, a: Seq<char>, b: Seq<char>)
    requires
        qualified(platform, a) == qualified(platform, b),
    ensures
        a == b,
{
    let p = namespace_prefix(platform);
    assert((p + a).subrange(p.len() as int, (p + a).len() as int) =~= a);
    assert((p + b).subrange(p.len() as int, (p + b).len() as int) =~= b);
}

/// A decimal numeral has at least one digit, and one digit only for a number
/// below ten.
pub proof fn decimal_length(n: nat)
    ensures
        decimal(n).len() >= 1,
        decimal(n).len() == 1 <==> n < 10,
    decreases n,
{
    if n >= 10 {
        decimal_length(n / 10);
    }
}

/// Numbers that differ have numerals that differ.
pub proof fn decimal_is_injective(n: nat, m: nat)
    requires
        decimal(n) == decimal(m),
    ensures
        n == m,
    decreases n,
{
    decimal_length(n);
    decimal_length(m);
    if n < 10 {
        assert(decimal(n)[0] == digit_char(n));
        assert(decimal(m)[0] == digit_char(m));
    } else {
        let a = decimal(n / 10);
        let b = decimal(m / 10);
        assert(a.push(digit_char(n % 10)).drop_last() =~= a);
        assert(b.push(digit_char(m % 10)).drop_last() =~= b);
        assert(a.push(digit_char(n % 10)).last() == digit_char(n % 10));
        assert(b.push(digit_char(m % 10)).last() == digit_char(m % 10));
        decimal_is_injective(n / 10, m / 10);
    }
}

/// Default names that were made from different numbers differ.
pub proof fn distinct_numbers_give_distinct_names(platform: Platform, n: u32, m: u32)
    requires
        qualified(platform, decimal(n as nat)) == qualified(platform, decimal(m as nat)),
    ensures
        n == m,
{
    distinct_names_stay_distinct(platform, decimal(n as nat), decimal(m as nat));
    decimal_is_injective(n as nat, m as nat);
}

/// Whether an action puts a value into the mapped bytes.
pub open spec fn writes<T>(action: Action<T>) -> bool {
    action is Write || action is WriteDefault
}

/// Where every call succeeds, an owner creates the backing object with the
/// segment's size, maps the handle it got, writes the configured value, or
/// the default where none was configured, at the base of the mapping, and is
/// live after that write and not before.
pub proof fn owner_writes_first_value<T>(
    s: SegmentView<T>,
    handle: usize,
    address: usize,
    any: usize,
)
    requires
        s.phase == Phase::Idle,
        s.owner,
    ensures
        ({
            let (s1, a1) = step_spec(s, Event::Begin);
            let (s2, a2) = step_spec(s1, Event::Done(handle));
            let (s3, a3) = step_spec(s2, Event::Done(address));
            let (s4, a4) = step_spec(s3, Event::Done(any));
            &&& a1 == Action::<T>::CreateObject { size: s.size }
            &&& a2 == Action::<T>::MapObject { handle, size: s.size }
            &&& a3 == first_write(address, s.init_value)
            &&& a4 == Action::<T>::Ready
            &&& s1.phase != Phase::Live && s2.phase != Phase::Live && s3.phase != Phase::Live
            &&& s4 == SegmentView { phase: Phase::Live, handle, address, init_value: None, ..s }
        }),
{
}

/// Where every call succeeds, a segment that is not the owner opens the
/// backing object, maps the handle it got and is live: it creates nothing and
/// writes nothing, so it sees what is in the object.
pub proof fn attaching_writes_nothing<T>(s: SegmentView<T>, handle: usize, address: usize)
    requires
        s.phase == Phase::Idle,
        !s.owner,
    ensures
        ({
            let (s1, a1) = step_spec(s, Event::Begin);
            let (s2, a2) = step_spec(s1, Event::Done(handle));
            let (s3, a3) = step_spec(s2, Event::Done(address));
            &&& a1 == Action::<T>::OpenObject
            &&& a2 == Action::<T>::MapObject { handle, size: s.size }
            &&& a3 == Action::<T>::Ready
            &&& s3 == SegmentView { phase: Phase::Live, handle, address, ..s }
        }),
{
}

/// In no phase and on no event does a segment that is not the owner create,
/// write or destroy.
pub proof fn only_the_owner_creates_writes_destroys<T>(s: SegmentView<T>, event: Event)
    requires
        !s.owner,
    ensures
        !(step_spec(s, event).1 is CreateObject),
        !writes(step_spec(s, event).1),
        !(step_spec(s, event).1 is Unlink),
{
}

/// A step never changes the name, the platform, the ownership flag or the
/// size of a segment.
pub proof fn identity_is_kept<T>(s: SegmentView<T>, event: Event)
    ensures
        step_spec(s, event).0.file_name == s.file_name,
        step_spec(s, event).0.platform == s.platform,
        step_spec(s, event).0.owner == s.owner,
        step_spec(s, event).0.size == s.size,
{
}

/// Steps keep a segment well formed.
pub proof fn well_formed_is_kept<T>(s: SegmentView<T>, event: Event)
    requires
        s.well_formed(),
    ensures
        step_spec(s, event).0.well_formed(),
{
}

/// A segment becomes live in one way only: by the success of the last step
/// of its construction, which is the map for one that attaches and the first
/// write for an owner.
pub proof fn live_only_when_fully_constructed<T>(s: SegmentView<T>, event: Event)
    requires
        s.well_formed(),
        s.phase != Phase::Live,
        step_spec(s, event).0.phase == Phase::Live,
    ensures
        event is Done,
        step_spec(s, event).1 == Action::<T>::Ready,
        s.owner ==> s.phase == Phase::Initializing,
        !s.owner ==> s.phase == Phase::Mapping,
{
}

/// A failure of the creation, the opening or the mapping ends construction:
/// the error goes to the caller as it came, and from then on the segment
/// asks for nothing but to be given up, without an unmap and without a
/// destroy.
pub proof fn failed_construction_keeps_nothing<T>(s: SegmentView<T>, e: ShMemErr, later: Event)
    requires
        s.phase == Phase::Acquiring || s.phase == Phase::Mapping,
    ensures
        ({
            let (failed, action) = step_spec(s, Event::Failed(e));
            let (after, next) = step_spec(failed, later);
            &&& action == Action::<T>::Fail(e)
            &&& failed.phase == Phase::Failed
            &&& later is Drop ==> next == Action::<T>::Finished && after.phase == Phase::Closed
            &&& !(later is Drop) ==> next == Action::<T>::Ignore && after == failed
        }),
{
}

/// Teardown of a live segment removes the mapping first, with the address
/// and size it was made with. After that, on Unix, an owner destroys the
/// backing object and is done when that succeeded, and any other segment is
/// done at once and leaves the object alone; on Windows the handle is closed.
pub proof fn teardown_unmaps_then_releases<T>(s: SegmentView<T>, any: usize, other: usize)
    requires
        s.phase == Phase::Live,
    ensures
        ({
            let (s1, a1) = step_spec(s, Event::Drop);
            let (s2, a2) = step_spec(s1, Event::Done(any));
            let (s3, a3) = step_spec(s2, Event::Done(other));
            &&& a1 == Action::<T>::Unmap { address: s.address, size: s.size }
            &&& s.platform.is_unix_spec() && s.owner ==> a2 == Action::<T>::Unlink && a3
                == Action::<T>::Finished && s3.phase == Phase::Closed
            &&& s.platform.is_unix_spec() && !s.owner ==> a2 == Action::<T>::Finished && s2.phase
                == Phase::Closed
            &&& !s.platform.is_unix_spec() ==> a2 == Action::<T>::Close { handle: s.handle } && a3
                == Action::<T>::Finished && s3.phase == Phase::Closed
        }),
{
}

/// A failure during teardown is never swallowed: the error goes to the
/// caller as fatal, and nothing more is asked for.
pub proof fn failed_teardown_aborts<T>(s: SegmentView<T>, e: ShMemErr, later: Event)
    requires
        s.phase == Phase::Unmapping || s.phase == Phase::Releasing,
    ensures
        ({
            let (aborted, action) = step_spec(s, Event::Failed(e));
            &&& action == Action::<T>::Abort(e)
            &&& aborted.phase == Phase::Aborted
            &&& step_spec(aborted, later) == (aborted, Action::<T>::Ignore)
        }),
{
}

/// Teardown runs once: a segment that is closed stays as it is and asks for
/// nothing, whatever it is told.
pub proof fn closed_is_final<T>(s: SegmentView<T>, event: Event)
    requires
        s.phase == Phase::Closed,
    ensures
        step_spec(s, event) == (s, Action::<T>::Ignore),
{
}

/// An unmap is asked for only on the drop of a live segment, and a destroy
/// or a close only after that unmap succeeded: what was never mapped is
/// never unmapped, and nothing is released before the mapping is gone.
pub proof fn release_follows_unmap<T>(s: SegmentView<T>, event: Event)
    ensures
        step_spec(s, event).1 is Unmap ==> s.phase == Phase::Live && event is Drop,
        step_spec(s, event).1 is Unlink || step_spec(s, event).1 is Close ==> s.phase
            == Phase::Unmapping && event is Done,
{
}

/// A missing backing object is told apart from every other failure: on Unix
/// by its `errno` value, on Windows by the code that comes with the null
/// handle of a failed opening.
pub proof fn missing_object_is_not_found()
    ensures
        errno_condition(ENOENT) == Condition::NotFound,
        forall|errno: i32| errno != ENOENT ==> errno_condition(errno) != Condition::NotFound,
        non_null_spec("Opening HANDLE error: "@, 0, ERROR_FILE_NOT_FOUND) is Err,
        non_null_spec("Opening HANDLE error: "@, 0, ERROR_FILE_NOT_FOUND)->Err_0.condition
            == Condition::NotFound,
        forall|code: u32|
            code != ERROR_FILE_NOT_FOUND ==> code_condition(code) != Condition::NotFound,
{
}

/// A name that is owned already makes creation fail, and the failure is told
/// apart from every other: on Unix the request is exclusive and the `errno`
/// value says so; on Windows the handle that came with that code is refused.
pub proof fn owned_name_is_refused(handle: usize)
    ensures
        create_flags().create && create_flags().exclusive,
        errno_condition(EEXIST) == Condition::AlreadyExists,
        forall|errno: i32| errno != EEXIST ==> errno_condition(errno) != Condition::AlreadyExists,
        handle != 0 ==> create_handle_spec(handle, ERROR_ALREADY_EXISTS) == Err::<
            usize,
            ShMemErrView,
        >(already_exists()),
        forall|code: u32|
            handle != 0 && code != ERROR_ALREADY_EXISTS ==> #[trigger] create_handle_spec(
                handle,
                code,
            ) == Ok::<usize, ShMemErrView>(handle),
{
}

/// The state of a segment after the first `i` of a sequence of events.
pub open spec fn state_at<T>(s: SegmentView<T>, events: Seq<Event>, i: nat) -> SegmentView<T>
    decreases i,
{
    if i == 0 {
        s
    } else {
        step_spec(state_at(s, events, (i - 1) as nat), events[i - 1]).0
    }
}

/// What a segment asks for on the event of index `i` in a sequence of events.
pub open spec fn action_at<T>(s: SegmentView<T>, events: Seq<Event>, i: nat) -> Action<T> {
    step_spec(state_at(s, events, i), events[i as int]).1
}

/// The place of an action in the life of a segment: acquiring the backing
/// object, mapping it, the first write, being ready, unmapping, releasing,
/// failing, finishing, aborting.
pub open spec fn stage<T>(action: Action<T>) -> nat {
    match action {
        Action::CreateObject { .. } => 0,
        Action::OpenObject => 0,
        Action::MapObject { .. } => 1,
        Action::Write { .. } => 2,
        Action::WriteDefault { .. } => 2,
        Action::Ready => 3,
        Action::Unmap { .. } => 4,
        Action::Unlink => 5,
        Action::Close { .. } => 5,
        Action::Fail(_) => 6,
        Action::Finished => 7,
        Action::Abort(_) => 8,
        Action::Ignore => 9,
    }
}

/// The earliest stage of anything that a segment in a phase may still ask
/// for.
pub open spec fn earliest(phase: Phase) -> nat {
    match phase {
        Phase::Idle => 0,
        Phase::Acquiring => 1,
        Phase::Mapping => 2,
        Phase::Initializing => 3,
        Phase::Live => 4,
        Phase::Unmapping => 5,
        Phase::Releasing => 6,
        Phase::Failed => 7,
        Phase::Closed => 9,
        Phase::Aborted => 9,
    }
}

/// One step either ignores the event and changes nothing, or asks for
/// something that is due in the phase and leaves that stage behind.
pub proof fn a_step_leaves_its_stage_behind<T>(s: SegmentView<T>, event: Event)
    ensures
        step_spec(s, event).1 is Ignore ==> step_spec(s, event).0 == s,
        !(step_spec(s, event).1 is Ignore) ==> earliest(s.phase) <= stage(step_spec(s, event).1)
            < earliest(step_spec(s, event).0.phase),
{
}

/// A segment never goes back in its life.
pub proof fn phases_never_go_back<T>(s: SegmentView<T>, events: Seq<Event>, i: nat, j: nat)
    requires
        i <= j <= events.len(),
    ensures
        earliest(state_at(s, events, i).phase) <= earliest(state_at(s, events, j).phase),
    decreases j,
{
    if i < j {
        phases_never_go_back(s, events, i, (j - 1) as nat);
        a_step_leaves_its_stage_behind(state_at(s, events, (j - 1) as nat), events[j - 1]);
    }
}

/// Whatever a segment is told and in whatever order, what it asks for comes
/// in the order of its life, and nothing comes twice: the backing object is
/// acquired once, mapped once, written once and before the segment is ready,
/// unmapped once and only after that released once.
pub proof fn actions_come_in_order_and_once<T>(
    s: SegmentView<T>,
    events: Seq<Event>,
    i: nat,
    j: nat,
)
    requires
        i < j < events.len(),
        !(action_at(s, events, i) is Ignore),
        !(action_at(s, events, j) is Ignore),
    ensures
        stage(action_at(s, events, i)) < stage(action_at(s, events, j)),
{
    a_step_leaves_its_stage_behind(state_at(s, events, i), events[i as int]);
    a_step_leaves_its_stage_behind(state_at(s, events, j), events[j as int]);
    assert(state_at(s, events, i + 1) == step_spec(state_at(s, events, i), events[i as int]).0);
    phases_never_go_back(s, events, i + 1, j);
}

} // verus!
