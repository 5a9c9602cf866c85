//! The life of a segment, as a machine of states and events.
//!
//! The machine decides; the caller acts. Each call of [`Segment::step`] takes
//! what the operating system answered to the last action and gives the next
//! action. Construction goes: create or open the backing object, map it, and
//! for an owner write the first value. Teardown goes: unmap, then release what
//! the platform wants released. A segment is live only when every step of its
//! construction succeeded.

use vstd::prelude::*;
use crate::error::{Platform, ShMemErr};

verus! {

/// Where a segment stands in its life.
#[derive(Debug, Clone, Copy, PartialEq, Eq, Structural)]
pub enum Phase {
    /// Configured; nothing was asked of the operating system yet.
    Idle,
    /// The backing object is being created or opened.
    Acquiring,
    /// The backing object is being mapped.
    Mapping,
    /// The owner's first value is being written.
    Initializing,
    /// Fully constructed: mapped and, for an owner, initialised.
    Live,
    /// The mapping is being removed.
    Unmapping,
    /// The backing object or the handle to it is being released.
    Releasing,
    /// Torn down, or never constructed and given up.
    Closed,
    /// Construction failed; no mapping is held.
    Failed,
    /// Teardown failed; the process must not go on as if it had not.
    Aborted,
}

/// What the caller reports to the machine.
#[derive(Debug, Clone, PartialEq, Eq)]
pub enum Event {
    /// Construction shall begin.
    Begin,
    /// The last action succeeded. After a create or an open the number is the
    /// descriptor or handle, after a map it is the base address; after any
    /// other action it means nothing.
    Done(usize),
    /// The last action failed.
    Failed(ShMemErr),
    /// The segment goes out of use.
    Drop,
}

impl Event {
    /// The event that a judged reply of the operating system makes.
    pub open spec fn from_reply_spec(reply: Result<usize, ShMemErr>) -> Event {
        match reply {
            Ok(number) => Event::Done(number),
            Err(e) => Event::Failed(e),
        }
    }

    /// The event that a judged reply of the operating system makes: the
    /// number on success, the error on failure.
    pub fn from_reply(reply: Result<usize, ShMemErr>) -> (event: Event)
        ensures
            event == Event::from_reply_spec(reply),
    {
        match reply {
            Ok(number) => Event::Done(number),
            Err(e) => Event::Failed(e),
        }
    }
}

/// What the machine asks of the caller.
#[derive(Debug, Clone, PartialEq, Eq)]
pub enum Action<T> {
    /// Create a new backing object of `size` bytes under the segment's name;
    /// the creation must fail where an object of that name exists.
    CreateObject { size: usize },
    /// Open the backing object that exists under the segment's name.
    OpenObject,
    /// Map `size` bytes of the object behind `handle`, shared, for reading
    /// and writing.
    MapObject { handle: usize, size: usize },
    /// Write the value at the base address of the mapping.
    Write { address: usize, value: T },
    /// Write the type's default value at the base address of the mapping.
    WriteDefault { address: usize },
    /// Nothing more to do: the segment is live.
    Ready,
    /// Remove the mapping of `size` bytes at `address`.
    Unmap { address: usize, size: usize },
    /// Destroy the backing object of the segment's name.
    Unlink,
    /// Close the handle to the backing object.
    Close { handle: usize },
    /// Nothing more to do: the segment is gone.
    Finished,
    /// Construction failed with this error; there is no segment.
    Fail(ShMemErr),
    /// Teardown failed with this error: fatal, never to be swallowed.
    Abort(ShMemErr),
    /// The event does not belong to the segment's phase; nothing changed.
    Ignore,
}

/// What a segment holds.
pub struct SegmentView<T> {
    pub platform: Platform,
    pub file_name: Seq<char>,
    pub owner: bool,
    pub init_value: Option<T>,
    pub size: usize,
    pub phase: Phase,
    pub handle: usize,
    pub address: usize,
}

impl<T> SegmentView<T> {
    /// What holds of every segment that was made by a configuration and
    /// moved by steps alone: only an owner is ever at its first write, and on
    /// Unix only an owner ever has something to release.
    pub open spec fn well_formed(self) -> bool {
        &&& self.phase == Phase::Initializing ==> self.owner && self.init_value is None
        &&& self.phase == Phase::Releasing && self.platform.is_unix_spec() ==> self.owner
    }
}

/// The bookkeeping of one segment: its name, the ownership flag, the
/// descriptor or handle, the base address of the mapping and the phase.
pub struct Segment<T> {
    platform: Platform,
    file_name: String,
    owner: bool,
    init_value: Option<T>,
    size: usize,
    phase: Phase,
    handle: usize,
    address: usize,
}

impl<T> View for Segment<T> {
    type V = SegmentView<T>;

    closed spec fn view(&self) -> SegmentView<T> {
        SegmentView {
            platform: self.platform,
            file_name: self.file_name@,
            owner: self.owner,
            init_value: self.init_value,
            size: self.size,
            phase: self.phase,
            handle: self.handle,
            address: self.address,
        }
    }
}

/// The action that writes an owner's first value: the configured one, or the
/// type's default where none was configured.
pub open spec fn first_write<T>(address: usize, init_value: Option<T>) -> Action<T> {
    match init_value {
        Some(value) => Action::Write { address, value },
        None => Action::WriteDefault { address },
    }
}

/// What succeeds the removal of the mapping: on Unix an owner destroys the
/// backing object and anybody else is done; on Windows the handle is closed,
/// and the object goes with its last handle.
pub open spec fn after_unmap<T>(s: SegmentView<T>) -> (SegmentView<T>, Action<T>) {
    if s.platform.is_unix_spec() {
        if s.owner {
            (SegmentView { phase: Phase::Releasing, ..s }, Action::Unlink)
        } else {
            (SegmentView { phase: Phase::Closed, ..s }, Action::Finished)
        }
    } else {
        (SegmentView { phase: Phase::Releasing, ..s }, Action::Close { handle: s.handle })
    }
}

/// The machine: the state and the action that follow a state and an event.
pub open spec fn step_spec<T>(s: SegmentView<T>, event: Event) -> (SegmentView<T>, Action<T>) {
    match (s.phase, event) {
        (Phase::Idle, Event::Begin) => (
            SegmentView { phase: Phase::Acquiring, ..s },
            if s.owner {
                Action::CreateObject { size: s.size }
            } else {
                Action::OpenObject
            },
        ),
        (Phase::Acquiring, Event::Done(handle)) => (
            SegmentView { phase: Phase::Mapping, handle, ..s },
            Action::MapObject { handle, size: s.size },
        ),
        (Phase::Mapping, Event::Done(address)) => if s.owner {
            (
                SegmentView { phase: Phase::Initializing, address, init_value: None, ..s },
                first_write(address, s.init_value),
            )
        } else {
            (SegmentView { phase: Phase::Live, address, ..s }, Action::Ready)
        },
        (Phase::Acquiring, Event::Failed(e)) => (
            SegmentView { phase: Phase::Failed, ..s },
            Action::Fail(e),
        ),
        (Phase::Mapping, Event::Failed(e)) => (
            SegmentView { phase: Phase::Failed, ..s },
            Action::Fail(e),
        ),
        (Phase::Initializing, Event::Done(_)) => (
            SegmentView { phase: Phase::Live, ..s },
            Action::Ready,
        ),
        (Phase::Live, Event::Drop) => (
            SegmentView { phase: Phase::Unmapping, ..s },
            Action::Unmap { address: s.address, size: s.size },
        ),
        (Phase::Unmapping, Event::Done(_)) => after_unmap(s),
        (Phase::Releasing, Event::Done(_)) => (
            SegmentView { phase: Phase::Closed, ..s },
            Action::Finished,
        ),
        (Phase::Unmapping, Event::Failed(e)) => (
            SegmentView { phase: Phase::Aborted, ..s },
            Action::Abort(e),
        ),
        (Phase::Releasing, Event::Failed(e)) => (
            SegmentView { phase: Phase::Aborted, ..s },
            Action::Abort(e),
        ),
        (Phase::Idle, Event::Drop) => (SegmentView { phase: Phase::Closed, ..s }, Action::Finished),
        (Phase::Failed, Event::Drop) => (
            SegmentView { phase: Phase::Closed, ..s },
            Action::Finished,
        ),
        _ => (s, Action::Ignore),
    }
}

impl<T> Segment<T> {
    #[verifier::type_invariant]
    spec fn kept(self) -> bool {
        self@.well_formed()
    }

    /// A segment on which nothing was done yet.
    pub(crate) fn idle(
        platform: Platform,
        file_name: String,
        owner: bool,
        init_value: Option<T>,
        size: usize,
    ) -> (segment: Self)
        ensures
            segment@ == (SegmentView {
                platform,
                file_name: file_name@,
                owner,
                init_value,
                size,
                phase: Phase::Idle,
                handle: 0,
                address: 0,
            }),
    {
        Segment {
            platform,
            file_name,
            owner,
            init_value,
            size,
            phase: Phase::Idle,
            handle: 0,
            address: 0,
        }
    }

    fn at(self, phase: Phase) -> (segment: Self)
        requires
            (SegmentView { phase, ..self@ }).well_formed(),
        ensures
            segment@ == (SegmentView { phase, ..self@ }),
    {
        Segment {
            platform: self.platform,
            file_name: self.file_name,
            owner: self.owner,
            init_value: self.init_value,
            size: self.size,
            phase,
            handle: self.handle,
            address: self.address,
        }
    }

    fn acquired(self, handle: usize) -> (segment: Self)
        ensures
            segment@ == (SegmentView { phase: Phase::Mapping, handle, ..self@ }),
    {
        Segment {
            platform: self.platform,
            file_name: self.file_name,
            owner: self.owner,
            init_value: self.init_value,
            size: self.size,
            phase: Phase::Mapping,
            handle,
            address: self.address,
        }
    }

    fn mapped(self, address: usize) -> (r: (Self, Action<T>))
        ensures
            r.0@ == if self@.owner {
                SegmentView { phase: Phase::Initializing, address, init_value: None, ..self@ }
            } else {
                SegmentView { phase: Phase::Live, address, ..self@ }
            },
            r.1 == if self@.owner {
                first_write(address, self@.init_value)
            } else {
                Action::Ready
            },
    {
        if self.owner {
            let action = match self.init_value {
                Some(value) => Action::Write { address, value },
                None => Action::WriteDefault { address },
            };
            (
                Segment {
                    platform: self.platform,
                    file_name: self.file_name,
                    owner: self.owner,
                    init_value: None,
                    size: self.size,
                    phase: Phase::Initializing,
                    handle: self.handle,
                    address,
                },
                action,
            )
        } else {
            (
                Segment {
                    platform: self.platform,
                    file_name: self.file_name,
                    owner: self.owner,
                    init_value: self.init_value,
                    size: self.size,
                    phase: Phase::Live,
                    handle: self.handle,
                    address,
                },
                Action::Ready,
            )
        }
    }

    /// Takes one event and gives the state and the action that follow.
    /// Every segment is well formed, before the step and after it.
    pub fn step(self, event: Event) -> (r: (Self, Action<T>))
        ensures
            (r.0@, r.1) == step_spec(self@, event),
            self@.well_formed(),
            r.0@.well_formed(),
    {
        proof {
            use_type_invariant(&self);
        }
        match event {
            Event::Begin => match self.phase {
                Phase::Idle => {
                    let action = if self.owner {
                        Action::CreateObject { size: self.size }
                    } else {
                        Action::OpenObject
                    };
                    (self.at(Phase::Acquiring), action)
                },
                _ => (self, Action::Ignore),
            },
            Event::Done(number) => match self.phase {
                Phase::Acquiring => {
                    let size = self.size;
                    (self.acquired(number), Action::MapObject { handle: number, size })
                },
                Phase::Mapping => self.mapped(number),
                Phase::Initializing => (self.at(Phase::Live), Action::Ready),
                Phase::Unmapping => {
                    if self.platform.is_unix() {
                        if self.owner {
                            (self.at(Phase::Releasing), Action::Unlink)
                        } else {
                            (self.at(Phase::Closed), Action::Finished)
                        }
                    } else {
                        let handle = self.handle;
                        (self.at(Phase::Releasing), Action::Close { handle })
                    }
                },
                Phase::Releasing => (self.at(Phase::Closed), Action::Finished),
                _ => (self, Action::Ignore),
            },
            Event::Failed(e) => match self.phase {
                Phase::Acquiring => (self.at(Phase::Failed), Action::Fail(e)),
                Phase::Mapping => (self.at(Phase::Failed), Action::Fail(e)),
                Phase::Unmapping => (self.at(Phase::Aborted), Action::Abort(e)),
                Phase::Releasing => (self.at(Phase::Aborted), Action::Abort(e)),
                _ => (self, Action::Ignore),
            },
            Event::Drop => match self.phase {
                Phase::Live => {
                    let action = Action::Unmap { address: self.address, size: self.size };
                    (self.at(Phase::Unmapping), action)
                },
                Phase::Idle => (self.at(Phase::Closed), Action::Finished),
                Phase::Failed => (self.at(Phase::Closed), Action::Finished),
                _ => (self, Action::Ignore),
            },
        }
    }

    /// The platform that the segment is for.
    pub fn platform(&self) -> (p: Platform)
        ensures
            p == self@.platform,
    {
        self.platform
    }

    /// The platform-qualified name of the backing object.
    pub fn file_name(&self) -> (n: &str)
        ensures
            n@ == self@.file_name,
    {
        self.file_name.as_str()
    }

    /// Whether the segment owns the backing object.
    pub fn is_owner(&self) -> (o: bool)
        ensures
            o == self@.owner,
    {
        self.owner
    }

    /// Where the segment stands in its life. Whoever looks also learns that
    /// the segment is well formed, as every segment is.
    pub fn phase(&self) -> (p: Phase)
        ensures
            p == self@.phase,
            self@.well_formed(),
    {
        proof {
            use_type_invariant(self);
        }
        self.phase
    }

    /// Whether the segment is fully constructed and not yet torn down.
    pub fn is_live(&self) -> (l: bool)
        ensures
            l == (self@.phase == Phase::Live),
    {
        self.phase == Phase::Live
    }

    /// The number of bytes that the segment maps.
    pub fn size(&self) -> (n: usize)
        ensures
            n == self@.size,
    {
        self.size
    }

    /// The descriptor or handle of the backing object, once it was acquired.
    pub fn handle(&self) -> (h: usize)
        ensures
            h == self@.handle,
    {
        self.handle
    }

    /// The base address of the mapping, once the object was mapped.
    pub fn address(&self) -> (a: usize)
        ensures
            a == self@.address,
    {
        self.address
    }
}

impl<T> Clone for Segment<T> {
    /// A second segment of the same name, for the same platform. It is not
    /// the owner, whatever this one is, and it shares nothing with this one:
    /// it is idle and has to open and map the backing object for itself.
    fn clone(&self) -> (segment: Self)
        ensures
            segment@ == (SegmentView {
                owner: false,
                init_value: None,
                phase: Phase::Idle,
                handle: 0,
                address: 0,
                ..self@
            }),
            segment@.well_formed(),
    {
        Segment {
            platform: self.platform,
            file_name: self.file_name.clone(),
            owner: false,
            init_value: None,
            size: self.size,
            phase: Phase::Idle,
            handle: 0,
            address: 0,
        }
    }
}

} // verus!
