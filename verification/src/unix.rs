//! What is asked of the POSIX shared memory primitives.

use vstd::prelude::*;
use vstd::string::*;

verus! {

/// The permission bits of a backing object: read, write and execute for
/// user, group and others.
pub const MODE_ALL: u32 = 0o777;

/// How a backing object is opened.
#[derive(Debug, Clone, Copy, PartialEq, Eq, Structural)]
pub struct OpenFlags {
    /// Create the object.
    pub create: bool,
    /// Fail where the object exists already.
    pub exclusive: bool,
    /// Cut the object to no bytes on opening.
    pub truncate: bool,
    /// Open for reading and writing.
    pub read_write: bool,
    /// Writes complete as synchronised data.
    pub dsync: bool,
    /// Reads complete as writes do.
    pub rsync: bool,
}

/// How a backing object is mapped.
#[derive(Debug, Clone, Copy, PartialEq, Eq, Structural)]
pub struct MapFlags {
    /// Pages may be read.
    pub read: bool,
    /// Pages may be written.
    pub write: bool,
    /// Writes are seen by every process that maps the object.
    pub shared: bool,
}

/// One request to open a shared memory object.
#[derive(Debug, Clone, PartialEq, Eq)]
pub struct ObjectRequest {
    /// The platform-qualified name.
    pub name: String,
    pub flags: OpenFlags,
    pub mode: u32,
    /// The number of bytes that a new object is sized to.
    pub size: Option<usize>,
}

/// What a request holds.
pub struct ObjectRequestView {
    pub name: Seq<char>,
    pub flags: OpenFlags,
    pub mode: u32,
    pub size: Option<usize>,
}

impl View for ObjectRequest {
    type V = ObjectRequestView;

    open spec fn view(&self) -> ObjectRequestView {
        ObjectRequestView { name: self.name@, flags: self.flags, mode: self.mode, size: self.size }
    }
}

/// The flags that create an object that must not exist yet.
pub open spec fn create_flags() -> OpenFlags {
    OpenFlags {
        create: true,
        exclusive: true,
        truncate: true,
        read_write: true,
        dsync: true,
        rsync: true,
    }
}

/// The flags that open an object that exists.
pub open spec fn open_flags() -> OpenFlags {
    OpenFlags {
        create: false,
        exclusive: false,
        truncate: false,
        read_write: true,
        dsync: true,
        rsync: true,
    }
}

/// The request of an owner: a new object under `name`, sized to exactly
/// `size` bytes. Where an object of that name is alive the request fails and
/// leaves that object untouched.
pub fn create_fd(size: usize, name: &str) -> (request: ObjectRequest)
    ensures
        request@ == (ObjectRequestView {
            name: name@,
            flags: create_flags(),
            mode: MODE_ALL,
            size: Some(size),
        }),
{
    ObjectRequest {
        name: String::from_str(name),
        flags: OpenFlags {
            create: true,
            exclusive: true,
            truncate: true,
            read_write: true,
            dsync: true,
            rsync: true,
        },
        mode: MODE_ALL,
        size: Some(size),
    }
}

/// The request of anybody else: the object that exists under `name`, as it
/// is.
pub fn open_fd(name: &str) -> (request: ObjectRequest)
    ensures
        request@ == (ObjectRequestView {
            name: name@,
            flags: open_flags(),
            mode: MODE_ALL,
            size: None,
        }),
{
    ObjectRequest {
        name: String::from_str(name),
        flags: OpenFlags {
            create: false,
            exclusive: false,
            truncate: false,
            read_write: true,
            dsync: true,
            rsync: true,
        },
        mode: MODE_ALL,
        size: None,
    }
}

/// How every segment is mapped: shared, for reading and writing.
pub fn map_flags() -> (flags: MapFlags)
    ensures
        flags == (MapFlags { read: true, write: true, shared: true }),
{
    MapFlags { read: true, write: true, shared: true }
}

} // verus!
