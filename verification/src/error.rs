//! Platforms, failure conditions and the error type.

use vstd::prelude::*;

verus! {

/// The family of operating system whose primitives back a segment, together
/// with the namespace its names live in.
#[derive(Debug, Clone, Copy, PartialEq, Eq, Structural)]
pub enum Platform {
    /// POSIX shared memory objects.
    Unix,
    /// Windows file mappings, named in the session's own namespace.
    Windows,
    /// Windows file mappings, named in the global namespace so that other
    /// sessions can see them.
    WindowsGlobal,
}

/// What a failure means to the caller.
#[derive(Debug, Clone, Copy, PartialEq, Eq, Structural)]
pub enum Condition {
    /// No backing object of that name exists.
    NotFound,
    /// A backing object of that name is already alive: somebody else owns it.
    AlreadyExists,
    /// Any other failure of the operating system.
    Other,
}

/// A failure of the operating system, with the condition it amounts to and a
/// message for people.
#[derive(Debug, Clone, PartialEq, Eq)]
pub enum ShMemErr {
    Unix(Condition, String),
    Windows(Condition, String),
}

/// What an error holds.
pub struct ShMemErrView {
    /// Whether the error is of the Unix family.
    pub unix: bool,
    pub condition: Condition,
    pub message: Seq<char>,
}

impl View for ShMemErr {
    type V = ShMemErrView;

    open spec fn view(&self) -> ShMemErrView {
        match self {
            ShMemErr::Unix(c, m) => ShMemErrView { unix: true, condition: *c, message: m@ },
            ShMemErr::Windows(c, m) => ShMemErrView { unix: false, condition: *c, message: m@ },
        }
    }
}

/// The `errno` value for a missing object.
pub const ENOENT: i32 = 2;

/// The `errno` value for an object that exists already.
pub const EEXIST: i32 = 17;

/// The Windows error code for a missing object.
pub const ERROR_FILE_NOT_FOUND: u32 = 2;

/// The Windows error code for an object that exists already.
pub const ERROR_ALREADY_EXISTS: u32 = 183;

/// The condition that an `errno` value amounts to.
pub open spec fn errno_condition(errno: i32) -> Condition {
    if errno == ENOENT {
        Condition::NotFound
    } else if errno == EEXIST {
        Condition::AlreadyExists
    } else {
        Condition::Other
    }
}

/// The condition that a Windows error code amounts to.
pub open spec fn code_condition(code: u32) -> Condition {
    if code == ERROR_FILE_NOT_FOUND {
        Condition::NotFound
    } else if code == ERROR_ALREADY_EXISTS {
        Condition::AlreadyExists
    } else {
        Condition::Other
    }
}

impl Platform {
    /// Whether the platform is of the Unix family.
    pub open spec fn is_unix_spec(self) -> bool {
        self == Platform::Unix
    }

    /// Whether the platform is of the Unix family.
    #[verifier::when_used_as_spec(is_unix_spec)]
    pub fn is_unix(self) -> (r: bool)
        ensures
            r == self.is_unix_spec(),
    {
        match self {
            Platform::Unix => true,
            _ => false,
        }
    }
}

/// The error variant of a platform's family.
pub open spec fn platform_error_spec(
    platform: Platform,
    condition: Condition,
    text: String,
) -> ShMemErr {
    if platform.is_unix_spec() {
        ShMemErr::Unix(condition, text)
    } else {
        ShMemErr::Windows(condition, text)
    }
}

/// The error variant of a platform's family, with the given condition and
/// message.
pub fn platform_error(platform: Platform, condition: Condition, text: String) -> (e: ShMemErr)
    ensures
        e == platform_error_spec(platform, condition, text),
{
    if platform.is_unix() {
        ShMemErr::Unix(condition, text)
    } else {
        ShMemErr::Windows(condition, text)
    }
}

impl ShMemErr {
    /// The error for a failed call on Unix: the condition is read off the
    /// `errno` value, the message is the system's own text.
    pub fn from_errno(errno: i32, text: String) -> (e: ShMemErr)
        ensures
            e == ShMemErr::Unix(errno_condition(errno), text),
    {
        if errno == ENOENT {
            ShMemErr::Unix(Condition::NotFound, text)
        } else if errno == EEXIST {
            ShMemErr::Unix(Condition::AlreadyExists, text)
        } else {
            ShMemErr::Unix(Condition::Other, text)
        }
    }

    /// The error for a failed call on Windows: the condition is read off the
    /// error code.
    pub fn from_code(code: u32, text: String) -> (e: ShMemErr)
        ensures
            e == ShMemErr::Windows(code_condition(code), text),
    {
        if code == ERROR_FILE_NOT_FOUND {
            ShMemErr::Windows(Condition::NotFound, text)
        } else if code == ERROR_ALREADY_EXISTS {
            ShMemErr::Windows(Condition::AlreadyExists, text)
        } else {
            ShMemErr::Windows(Condition::Other, text)
        }
    }

    /// The condition carried by the error.
    pub fn condition(&self) -> (c: Condition)
        ensures
            c == self@.condition,
    {
        match self {
            ShMemErr::Unix(c, _) => *c,
            ShMemErr::Windows(c, _) => *c,
        }
    }

    /// Whether the error says that no backing object of that name exists.
    pub fn is_not_found(&self) -> (r: bool)
        ensures
            r == (self@.condition == Condition::NotFound),
    {
        self.condition() == Condition::NotFound
    }

    /// Whether the error says that the name is owned already.
    pub fn is_already_exists(&self) -> (r: bool)
        ensures
            r == (self@.condition == Condition::AlreadyExists),
    {
        self.condition() == Condition::AlreadyExists
    }

    /// A copy of the message carried by the error.
    pub fn message(&self) -> (m: String)
        ensures
            m@ == self@.message,
    {
        match self {
            ShMemErr::Unix(_, m) => m.clone(),
            ShMemErr::Windows(_, m) => m.clone(),
        }
    }
}

} // verus!
