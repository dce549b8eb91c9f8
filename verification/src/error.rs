//! The failures this library reports, and the operating-system error codes
//! its decisions depend on.

use vstd::prelude::*;

verus! {

/// The code of a call that a signal interrupted before it did any work.
pub const EINTR: i32 = 4;

/// The code of a descriptor that does not name an open file.
pub const EBADF: i32 = 9;

/// The code of a call that the running kernel does not implement.
pub const ENOSYS: i32 = 38;

/// Why an operation of this library failed.
#[derive(Clone, Copy, Debug, PartialEq, Eq, Structural)]
pub enum PipeError {
    /// An operating-system call failed; the payload is the code it reported.
    Os(i32),
    /// The requested standard stream is not attached to this process.
    StreamNotPresent,
}

impl PipeError {
    /// The operating-system code carried by this error, if it carries one.
    pub open spec fn code(self) -> Option<i32> {
        match self {
            PipeError::Os(code) => Some(code),
            PipeError::StreamNotPresent => None,
        }
    }

    /// Whether this error says that a signal interrupted the call.
    pub open spec fn interrupted(self) -> bool {
        self == PipeError::Os(EINTR)
    }

    /// Whether this error says that the kernel lacks the call.
    pub open spec fn unsupported(self) -> bool {
        self == PipeError::Os(ENOSYS)
    }

    /// The operating-system code carried by this error, if it carries one.
    pub fn raw_os_error(&self) -> (r: Option<i32>)
        ensures
            r == self.code(),
    {
        match self {
            PipeError::Os(code) => Some(*code),
            PipeError::StreamNotPresent => None,
        }
    }

    /// Whether a signal interrupted the call, so that it may be tried again.
    pub fn is_interrupted(&self) -> (r: bool)
        ensures
            r == self.interrupted(),
    {
        match self {
            PipeError::Os(code) => *code == EINTR,
            PipeError::StreamNotPresent => false,
        }
    }

    /// Whether the kernel lacks the call, so that an older one must be used.
    pub fn is_unsupported(&self) -> (r: bool)
        ensures
            r == self.unsupported(),
    {
        match self {
            PipeError::Os(code) => *code == ENOSYS,
            PipeError::StreamNotPresent => false,
        }
    }

    /// A description of the failure for messages and logs.
    pub fn describe(&self) -> (r: &'static str)
        ensures
            r@ == describe_spec(*self),
    {
        match self {
            PipeError::Os(_) => "operating system call failed",
            PipeError::StreamNotPresent => "standard stream not present",
        }
    }
}

/// The text that `PipeError::describe` returns.
pub open spec fn describe_spec(e: PipeError) -> Seq<char> {
    match e {
        PipeError::Os(_) => "operating system call failed"@,
        PipeError::StreamNotPresent => "standard stream not present"@,
    }
}

} // verus!
