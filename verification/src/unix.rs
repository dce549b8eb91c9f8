//! Pipes and duplicates on Unix.

pub mod cvt;
pub mod fd;
pub mod pipe;
pub mod weak;

use vstd::prelude::*;
use crate::error::{PipeError, EBADF};
use crate::handle::{ChildStdio, ParentHandle, PipeReader, PipeWriter};
use crate::sys;
use crate::sys::view_number;
use crate::unix::cvt::retry_os;
use crate::unix::fd::{flags_are_known, CloseOnExec, End, FdView, FileDesc, O_CLOEXEC};
use crate::unix::pipe::{anon_pipe, is_pipe};
use crate::unix::weak::{can_fetch, consulted, Weak};
use rustix::fd::BorrowedFd;

verus! {

/// The two ends of a pipe that were created together.
pub struct Pair {
    /// The end to read from.
    pub read: FileDesc,
    /// The end to write to.
    pub write: FileDesc,
}

/// Puts a descriptor into the form that goes into a child process's
/// standard-stream slot. The descriptor moves; no second one is made.
pub fn stdio_from_file(file: FileDesc) -> (stdio: ChildStdio)
    ensures
        stdio.0 == file,
{
    ChildStdio(file)
}

/// What is known of the ends that `pipe2_cloexec` returns.
pub open spec fn pipe2_mark(atomic: bool) -> CloseOnExec {
    if atomic {
        CloseOnExec::FromCreation
    } else {
        CloseOnExec::Marked
    }
}

/// Creates a pipe whose two ends are close-on-exec: in one step where
/// `atomic` says that the platform can, else by creating the ends and then
/// marking each. Every call is tried again while a signal interrupts it. A
/// failure of any step closes what was created. The first of the pair is
/// the end to read from.
pub fn pipe2_cloexec(atomic: bool) -> (r: Result<(FileDesc, FileDesc), PipeError>)
    ensures
        r matches Ok(ends) ==> is_pipe(ends.0, ends.1) && ends.0.mark() == pipe2_mark(atomic),
        r matches Err(e) ==> e is Os,
{
    proof {
        flags_are_known();
    }
    if atomic {
        match retry_os(|| sys::pipe_with(O_CLOEXEC)) {
            Ok(ends) => Ok(FileDesc::ends_of(ends, O_CLOEXEC)),
            Err(e) => Err(e),
        }
    } else {
        match retry_os(|| sys::pipe_plain()) {
            Ok(ends) => {
                let (mut left, mut right) = FileDesc::ends_of(ends, 0);
                match left.set_cloexec_only() {
                    Ok(()) => match right.set_cloexec_only() {
                        Ok(()) => Ok((left, right)),
                        Err(e) => Err(e),
                    },
                    Err(e) => Err(e),
                }
            },
            Err(e) => Err(e),
        }
    }
}

/// Creates a pipe in one step and returns its read end and its write end,
/// both close-on-exec from their creation.
pub fn pipe() -> (r: Result<(PipeReader, PipeWriter), PipeError>)
    ensures
        r matches Ok(ends) ==> is_pipe(ends.0.0, ends.1.0) && ends.0.0.mark()
            == CloseOnExec::FromCreation,
        r matches Err(e) ==> e is Os,
{
    match pipe2_cloexec(true) {
        Ok((read_fd, write_fd)) => Ok((PipeReader(read_fd), PipeWriter(write_fd))),
        Err(e) => Err(e),
    }
}

/// Creates a pipe as `anon_pipe` does and returns its two ends as plain
/// descriptors, both close-on-exec.
pub fn pair<F: FnOnce(&Vec<u8>) -> usize>(linux: bool, pipe2: &mut Weak, fetch: F) -> (r: Result<
    Pair,
    PipeError,
>)
    requires
        linux && !old(pipe2).symbol().resolved() ==> can_fetch(old(pipe2).name(), fetch),
    ensures
        !linux ==> *final(pipe2) == *old(pipe2),
        linux ==> consulted(*old(pipe2), *final(pipe2), fetch),
        r matches Ok(p) ==> is_pipe(p.read, p.write),
        !(linux && final(pipe2).symbol().entry() is Some) ==> (r matches Ok(p) ==> p.read.mark()
            == CloseOnExec::Marked),
        r matches Err(e) ==> e is Os,
{
    match anon_pipe(linux, pipe2, fetch) {
        Ok((anon_read, anon_write)) => Ok(
            Pair { read: anon_read.into_fd(), write: anon_write.into_fd() },
        ),
        Err(e) => Err(e),
    }
}

/// The lowest number a duplicate is given: the three below it are the
/// standard streams' own.
pub const FIRST_FREE_FD: i32 = 3;

/// The kernel calls by which a duplicate is made.
#[derive(Clone, Copy, Debug, PartialEq, Eq, Structural)]
pub enum DupPlan {
    /// One call that makes a duplicate which executed programs inherit.
    Plain,
    /// One call that makes a close-on-exec duplicate.
    Cloexec,
    /// A call that makes an inheritable duplicate, and then a second call
    /// that marks it close-on-exec.
    PlainThenMark,
}

impl DupPlan {
    /// What is known of the finished duplicate.
    pub open spec fn mark(self) -> CloseOnExec {
        match self {
            DupPlan::Plain => CloseOnExec::Unknown,
            DupPlan::Cloexec => CloseOnExec::FromCreation,
            DupPlan::PlainThenMark => CloseOnExec::Marked,
        }
    }
}

/// The plan for a duplicate that is to be inheritable or not, on a platform
/// that can or cannot make a close-on-exec duplicate in one call.
pub open spec fn dup_plan_spec(inheritable: bool, atomic: bool) -> DupPlan {
    if inheritable {
        DupPlan::Plain
    } else if atomic {
        DupPlan::Cloexec
    } else {
        DupPlan::PlainThenMark
    }
}

/// Chooses the kernel calls by which a duplicate is made.
pub fn dup_plan(inheritable: bool, atomic: bool) -> (plan: DupPlan)
    ensures
        plan == dup_plan_spec(inheritable, atomic),
{
    if inheritable {
        DupPlan::Plain
    } else if atomic {
        DupPlan::Cloexec
    } else {
        DupPlan::PlainThenMark
    }
}

/// The duplicate is left inheritable exactly if that was asked for, and
/// where the platform can make a close-on-exec duplicate in one call there
/// is no moment at which the duplicate is inheritable against the caller's
/// wish.
pub proof fn dup_plan_meets_request(inheritable: bool, atomic: bool)
    ensures
        (dup_plan_spec(inheritable, atomic).mark() == CloseOnExec::Unknown) == inheritable,
        atomic ==> dup_plan_spec(inheritable, atomic).mark() != CloseOnExec::Marked,
{
}

/// Whether `copy` is a duplicate of the descriptor that `source` views, made
/// by the calls of `plan`: it records the number of its source and what the
/// plan makes known of its mark, and is no end of a pipe that this library
/// created.
pub open spec fn is_copy(copy: FileDesc, source: BorrowedFd<'_>, plan: DupPlan) -> bool {
    &&& copy.origin() == Some(view_number(source))
    &&& copy.mark() == plan.mark()
    &&& copy.end() == End::Unknown
}

/// Makes a second descriptor of the open file behind `source`, inheritable
/// or not as asked, by the calls that `dup_plan` chooses, each tried again
/// while a signal interrupts it. The source is only borrowed and stays open
/// whatever happens; a duplicate that could not be marked is closed again.
pub fn dup_with(source: BorrowedFd<'_>, inheritable: bool, atomic: bool) -> (r: Result<
    FileDesc,
    PipeError,
>)
    ensures
        r matches Ok(copy) ==> is_copy(copy, source, dup_plan_spec(inheritable, atomic)),
        r matches Err(e) ==> e is Os,
{
    proof {
        flags_are_known();
    }
    match dup_plan(inheritable, atomic) {
        DupPlan::Plain => match retry_os(|| sys::dup_plain(source)) {
            Ok(fd) => Ok(FileDesc::copy_of(fd, 0, source)),
            Err(e) => Err(e),
        },
        DupPlan::Cloexec => match retry_os(|| sys::fcntl_dupfd_cloexec(source, FIRST_FREE_FD)) {
            Ok(fd) => Ok(FileDesc::copy_of(fd, O_CLOEXEC, source)),
            Err(e) => Err(e),
        },
        DupPlan::PlainThenMark => match retry_os(|| sys::dup_plain(source)) {
            Ok(fd) => {
                let mut copy = FileDesc::copy_of(fd, 0, source);
                match copy.set_cloexec() {
                    Ok(()) => Ok(copy),
                    Err(e) => Err(e),
                }
            },
            Err(e) => Err(e),
        },
    }
}

/// Makes a second descriptor of the open file behind `source`, inheritable
/// or not as asked, in one call. The source is only borrowed.
pub fn dup(source: BorrowedFd<'_>, inheritable: bool) -> (r: Result<FileDesc, PipeError>)
    ensures
        r matches Ok(copy) ==> is_copy(copy, source, dup_plan_spec(inheritable, true)),
        r matches Err(e) ==> e is Os,
{
    dup_with(source, inheritable, true)
}

/// What a failed duplication of a standard stream is reported as: a stream
/// that was never attached is told apart from every other failure.
pub open spec fn parent_error_spec(e: PipeError) -> PipeError {
    if e == PipeError::Os(EBADF) {
        PipeError::StreamNotPresent
    } else {
        e
    }
}

/// Reports a failed duplication of a standard stream.
pub fn parent_error(e: PipeError) -> (r: PipeError)
    ensures
        r == parent_error_spec(e),
{
    match e {
        PipeError::Os(code) => if code == EBADF {
            PipeError::StreamNotPresent
        } else {
            e
        },
        PipeError::StreamNotPresent => e,
    }
}

/// A view of one of this process's own standard streams: of the descriptor
/// whose number is the stream's. The stream is not owned by the view and is
/// never closed through it.
pub fn parent_fd(stream: ParentHandle) -> (view: FdView<'static>)
    ensures
        view.number() == stream.fileno(),
{
    let fd = match stream {
        ParentHandle::Stdin => sys::stdin_fd(),
        ParentHandle::Stdout => sys::stdout_fd(),
        ParentHandle::Stderr => sys::stderr_fd(),
    };
    FdView::of(fd)
}

/// Whether `stdio` is a duplicate of the standard stream `stream` as this
/// library makes it for a child: a duplicate of the descriptor whose number
/// is the stream's, close-on-exec from its creation.
pub open spec fn is_parent_copy(stdio: ChildStdio, stream: ParentHandle) -> bool {
    &&& stdio.0.origin() == Some(stream.fileno())
    &&& stdio.0.mark() == CloseOnExec::FromCreation
}

/// Duplicates one of this process's own standard streams for a child. The
/// duplicate is close-on-exec; the stream itself stays as it is, also when
/// the duplication fails.
pub fn dup_fd(stream: ParentHandle) -> (r: Result<ChildStdio, PipeError>)
    ensures
        r matches Ok(stdio) ==> is_parent_copy(stdio, stream),
        r matches Err(e) ==> e != PipeError::Os(EBADF),
{
    match dup(parent_fd(stream).fd(), false) {
        Ok(copy) => Ok(stdio_from_file(copy)),
        Err(e) => Err(parent_error(e)),
    }
}

/// Duplicates this process's standard input for a child.
pub fn dup_stdin() -> (r: Result<ChildStdio, PipeError>)
    ensures
        r matches Ok(stdio) ==> is_parent_copy(stdio, ParentHandle::Stdin),
        r matches Err(e) ==> e != PipeError::Os(EBADF),
{
    dup_fd(ParentHandle::Stdin)
}

/// Duplicates this process's standard output for a child.
pub fn dup_stdout() -> (r: Result<ChildStdio, PipeError>)
    ensures
        r matches Ok(stdio) ==> is_parent_copy(stdio, ParentHandle::Stdout),
        r matches Err(e) ==> e != PipeError::Os(EBADF),
{
    dup_fd(ParentHandle::Stdout)
}

/// Duplicates this process's standard error for a child.
pub fn dup_stderr() -> (r: Result<ChildStdio, PipeError>)
    ensures
        r matches Ok(stdio) ==> is_parent_copy(stdio, ParentHandle::Stderr),
        r matches Err(e) ==> e != PipeError::Os(EBADF),
{
    dup_fd(ParentHandle::Stderr)
}

} // verus!
