//! Anonymous pipes and duplicates of the standard streams, for handing to
//! child processes without leaking a descriptor into any other child.
//!
//! A pipe's two ends, and every duplicate made here, are close-on-exec: a
//! program that this process starts gets a descriptor only where the caller
//! puts it into one of that program's standard-stream slots.

pub mod error;
pub mod handle;
pub mod sys;
pub mod unix;
pub mod windows;

use vstd::prelude::*;
use crate::error::{PipeError, EBADF};
use crate::handle::{ChildStdio, ParentHandle, PipeReader, PipeWriter};
use crate::unix::fd::FileDesc;
use crate::unix::is_parent_copy;
use crate::unix::pipe::is_pipe;

verus! {

/// The read and write ends of a pipe created by `pipe`.
pub struct Pipe {
    /// The end to read from.
    pub reader: PipeReader,
    /// The end to write to.
    pub writer: PipeWriter,
}

/// Opens a new pipe. Both ends are close-on-exec, so a child process gets
/// one only where it is passed as the child's standard input, output or
/// error. Creating both ends close-on-exec in one step is tried first; where
/// the kernel does not know that call, the ends are created and then marked.
pub fn pipe() -> (r: Result<Pipe, PipeError>)
    ensures
        r matches Ok(p) ==> is_pipe(p.reader.0, p.writer.0),
        r matches Err(e) ==> e is Os,
{
    match crate::unix::pipe::create(true) {
        Ok((read_end, write_end)) => Ok(
            Pipe { reader: PipeReader(read_end.into_fd()), writer: PipeWriter(write_end.into_fd()) },
        ),
        Err(e) => Err(e),
    }
}

/// A duplicate of this process's standard input, in the form that goes into
/// a child's standard-stream slot.
pub fn parent_stdin() -> (r: Result<ChildStdio, PipeError>)
    ensures
        r matches Ok(stdio) ==> is_parent_copy(stdio, ParentHandle::Stdin),
        r matches Err(e) ==> e != PipeError::Os(EBADF),
{
    crate::unix::dup_stdin()
}

/// A duplicate of this process's standard output, in the form that goes
/// into a child's standard-stream slot.
pub fn parent_stdout() -> (r: Result<ChildStdio, PipeError>)
    ensures
        r matches Ok(stdio) ==> is_parent_copy(stdio, ParentHandle::Stdout),
        r matches Err(e) ==> e != PipeError::Os(EBADF),
{
    crate::unix::dup_stdout()
}

/// A duplicate of this process's standard error, in the form that goes into
/// a child's standard-stream slot.
pub fn parent_stderr() -> (r: Result<ChildStdio, PipeError>)
    ensures
        r matches Ok(stdio) ==> is_parent_copy(stdio, ParentHandle::Stderr),
        r matches Err(e) ==> e != PipeError::Os(EBADF),
{
    crate::unix::dup_stderr()
}

/// Puts a descriptor into the form that goes into a child process's
/// standard-stream slot. The descriptor moves; no second one is made.
pub fn stdio_from_file(file: FileDesc) -> (stdio: ChildStdio)
    ensures
        stdio.0 == file,
{
    crate::unix::stdio_from_file(file)
}

} // verus!
