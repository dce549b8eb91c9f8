//! The handles this library gives out: the two ends of a pipe, and the value
//! that goes into a child process's standard-stream slot. Every conversion
//! between them moves the one descriptor; none makes a second.

use vstd::prelude::*;
use vstd::std_specs::convert::FromSpecImpl;
use crate::error::PipeError;
use crate::sys::fd_number;
use crate::unix::fd::{CloseOnExec, End, FdView, FileDesc};
use rustix::fd::OwnedFd;

verus! {

/// One of the three streams that every process is given at its start.
#[derive(Clone, Copy, Debug, PartialEq, Eq, Structural)]
pub enum ParentHandle {
    /// Standard input.
    Stdin,
    /// Standard output.
    Stdout,
    /// Standard error.
    Stderr,
}

impl ParentHandle {
    /// The descriptor number under which a process finds the stream.
    pub open spec fn fileno(self) -> i32 {
        match self {
            ParentHandle::Stdin => 0,
            ParentHandle::Stdout => 1,
            ParentHandle::Stderr => 2,
        }
    }

    /// The descriptor number under which a process finds the stream.
    pub fn number(&self) -> (r: i32)
        ensures
            r == self.fileno(),
    {
        match self {
            ParentHandle::Stdin => 0,
            ParentHandle::Stdout => 1,
            ParentHandle::Stderr => 2,
        }
    }

    /// Duplicates the stream for a child. The duplicate is close-on-exec;
    /// the stream itself stays as it is.
    pub fn to_stdio(self) -> (r: Result<ChildStdio, PipeError>)
        ensures
            r matches Ok(stdio) ==> crate::unix::is_parent_copy(stdio, self),
            r matches Err(e) ==> e != PipeError::Os(crate::error::EBADF),
    {
        crate::unix::dup_fd(self)
    }
}

/// The read end of a pipe.
pub struct PipeReader(pub FileDesc);

/// The write end of a pipe.
pub struct PipeWriter(pub FileDesc);

/// A descriptor on its way into a child process's standard input, output or
/// error. It owns the descriptor until the child has been started with it.
pub struct ChildStdio(pub FileDesc);

impl PipeReader {
    /// Extracts the descriptor's number without closing the descriptor.
    pub fn into_raw_fd(self) -> (r: i32)
        ensures
            r == self.0.number(),
    {
        self.0.into_raw()
    }

    /// The descriptor's number. The descriptor stays owned by `self`.
    pub fn as_raw_fd(&self) -> (r: i32)
        ensures
            r == self.0.number(),
    {
        self.0.raw()
    }

    /// A view of the descriptor for a call that must not close it. The
    /// view is of this end's descriptor: it carries that descriptor's number.
    pub fn as_fd(&self) -> (view: FdView<'_>)
        ensures
            view.number() == self.0.number(),
    {
        self.0.borrow()
    }
}

impl From<OwnedFd> for PipeReader {
    /// Takes a descriptor as the read end of a pipe. Whether it is
    /// close-on-exec is not known, nor whether it is that end: it is the
    /// caller who says so.
    fn from(fd: OwnedFd) -> (r: PipeReader)
        ensures
            r.0.owned() == fd,
            r.0.number() == fd_number(fd),
            r.0.mark() == CloseOnExec::Unknown,
            r.0.end() == End::Unknown,
    {
        PipeReader(FileDesc::new(fd))
    }
}

impl FromSpecImpl<OwnedFd> for PipeReader {
    open spec fn obeys_from_spec() -> bool {
        true
    }

    open spec fn from_spec(fd: OwnedFd) -> PipeReader {
        PipeReader(FileDesc::fresh(fd))
    }
}

impl From<PipeReader> for OwnedFd {
    /// Gives the descriptor back, still open.
    fn from(reader: PipeReader) -> (fd: OwnedFd) {
        reader.0.into_owned()
    }
}

impl FromSpecImpl<PipeReader> for OwnedFd {
    open spec fn obeys_from_spec() -> bool {
        true
    }

    open spec fn from_spec(reader: PipeReader) -> OwnedFd {
        reader.0.owned()
    }
}

impl PipeWriter {
    /// Extracts the descriptor's number without closing the descriptor.
    pub fn into_raw_fd(self) -> (r: i32)
        ensures
            r == self.0.number(),
    {
        self.0.into_raw()
    }

    /// The descriptor's number. The descriptor stays owned by `self`.
    pub fn as_raw_fd(&self) -> (r: i32)
        ensures
            r == self.0.number(),
    {
        self.0.raw()
    }

    /// A view of the descriptor for a call that must not close it. The
    /// view is of this end's descriptor: it carries that descriptor's number.
    pub fn as_fd(&self) -> (view: FdView<'_>)
        ensures
            view.number() == self.0.number(),
    {
        self.0.borrow()
    }
}

impl From<OwnedFd> for PipeWriter {
    /// Takes a descriptor as the write end of a pipe. Whether it is
    /// close-on-exec is not known, nor whether it is that end: it is the
    /// caller who says so.
    fn from(fd: OwnedFd) -> (r: PipeWriter)
        ensures
            r.0.owned() == fd,
            r.0.number() == fd_number(fd),
            r.0.mark() == CloseOnExec::Unknown,
            r.0.end() == End::Unknown,
    {
        PipeWriter(FileDesc::new(fd))
    }
}

impl FromSpecImpl<OwnedFd> for PipeWriter {
    open spec fn obeys_from_spec() -> bool {
        true
    }

    open spec fn from_spec(fd: OwnedFd) -> PipeWriter {
        PipeWriter(FileDesc::fresh(fd))
    }
}

impl From<PipeWriter> for OwnedFd {
    /// Gives the descriptor back, still open.
    fn from(writer: PipeWriter) -> (fd: OwnedFd) {
        writer.0.into_owned()
    }
}

impl FromSpecImpl<PipeWriter> for OwnedFd {
    open spec fn obeys_from_spec() -> bool {
        true
    }

    open spec fn from_spec(writer: PipeWriter) -> OwnedFd {
        writer.0.owned()
    }
}

impl ChildStdio {
    /// Takes the descriptor back out, still open, for a caller that does not
    /// start a child with it after all.
    pub fn into_file(self) -> (file: FileDesc)
        ensures
            file == self.0,
    {
        self.0
    }
}

} // verus!
