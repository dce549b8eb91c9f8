//! Anonymous pipes whose two ends are close-on-exec from the start, or as
//! near to the start as the kernel allows.

use vstd::prelude::*;
use crate::error::PipeError;
use crate::sys;
use crate::unix::cvt::retry_os;
use crate::unix::fd::{flags_are_known, CloseOnExec, End, FileDesc, O_CLOEXEC};
use crate::unix::weak::{can_fetch, consulted, Weak};

verus! {

/// Whether two descriptors are the ends of one pipe as this library hands
/// them out: the first is the end to read from, the second the end to write
/// to, and both are close-on-exec, by the same route.
pub open spec fn is_pipe(reader: FileDesc, writer: FileDesc) -> bool {
    &&& reader.end() == End::Read
    &&& writer.end() == End::Write
    &&& reader.cloexec()
    &&& reader.mark() == writer.mark()
}

/// One end of an anonymous pipe. It is close-on-exec for as long as it is
/// an `AnonPipe`.
pub struct AnonPipe(FileDesc);

impl AnonPipe {
    #[verifier::type_invariant]
    spec fn sealed(self) -> bool {
        self.0.cloexec()
    }

    /// The descriptor of this end.
    pub closed spec fn desc(self) -> FileDesc {
        self.0
    }

    /// Makes a descriptor close-on-exec and takes it as one end of a pipe.
    /// If the kernel refuses, the descriptor is closed and the refusal
    /// returned.
    pub fn from_fd(fd: FileDesc) -> (r: Result<AnonPipe, PipeError>)
        ensures
            r matches Ok(p) ==> fd.kept_in(p.desc()) && p.desc().mark() == fd.mark().marked(),
            r matches Err(e) ==> e is Os,
    {
        let mut fd = fd;
        match fd.set_cloexec() {
            Ok(()) => Ok(AnonPipe(fd)),
            Err(e) => Err(e),
        }
    }

    /// The descriptor of this end, which is close-on-exec.
    pub fn into_fd(self) -> (fd: FileDesc)
        ensures
            fd == self.desc(),
            fd.cloexec(),
    {
        proof {
            use_type_invariant(&self);
        }
        self.0
    }
}

/// How an attempt to create both ends in one step ended.
pub enum Attempt<T> {
    /// The kernel created the pipe.
    Created(T),
    /// The kernel does not know the call: the pipe is to be created in two
    /// steps instead.
    Unsupported,
    /// The kernel refused, and creation has failed.
    Failed(PipeError),
}

/// What the outcome of the one-step call means for the creation.
pub open spec fn attempt_of<T>(outcome: Result<T, PipeError>) -> Attempt<T> {
    match outcome {
        Ok(ends) => Attempt::Created(ends),
        Err(e) => if e.unsupported() {
            Attempt::Unsupported
        } else {
            Attempt::Failed(e)
        },
    }
}

/// Judges the outcome of the call that asks for both ends in one step: that
/// the kernel lacks the call is no failure of the creation, every other
/// refusal is.
pub fn after_atomic<T>(outcome: Result<T, PipeError>) -> (v: Attempt<T>)
    ensures
        v == attempt_of(outcome),
{
    match outcome {
        Ok(ends) => Attempt::Created(ends),
        Err(e) => {
            if e.is_unsupported() {
                Attempt::Unsupported
            } else {
                Attempt::Failed(e)
            }
        },
    }
}

/// Creates a pipe in two steps: both ends first, then the close-on-exec
/// mark on each, every call tried again while a signal interrupts it.
/// Between the steps another thread that starts a program hands the ends
/// on to it. If either mark is refused both ends are closed.
pub fn create_in_two_steps() -> (r: Result<(AnonPipe, AnonPipe), PipeError>)
    ensures
        r matches Ok(ends) ==> is_pipe(ends.0.desc(), ends.1.desc()) && ends.0.desc().mark()
            == CloseOnExec::Marked,
        r matches Err(e) ==> e is Os,
{
    match retry_os(|| sys::pipe_plain()) {
        Ok(ends) => {
            proof {
                flags_are_known();
            }
            let (fd0, fd1) = FileDesc::ends_of(ends, 0);
            match AnonPipe::from_fd(fd0) {
                Ok(reader) => match AnonPipe::from_fd(fd1) {
                    Ok(writer) => Ok((reader, writer)),
                    Err(e) => Err(e),
                },
                Err(e) => Err(e),
            }
        },
        Err(e) => Err(e),
    }
}

/// Creates a pipe. Where `atomic` says that the kernel may know how to
/// create close-on-exec ends in one step, that is tried first, and again
/// while a signal interrupts it; where it turns out not to know, or `atomic`
/// is false, the pipe is created in two steps.
pub fn create(atomic: bool) -> (r: Result<(AnonPipe, AnonPipe), PipeError>)
    ensures
        r matches Ok(ends) ==> is_pipe(ends.0.desc(), ends.1.desc()),
        !atomic ==> (r matches Ok(ends) ==> ends.0.desc().mark() == CloseOnExec::Marked),
        r matches Err(e) ==> e is Os,
{
    if atomic {
        match after_atomic(retry_os(|| sys::pipe_with(O_CLOEXEC))) {
            Attempt::Created(ends) => {
                proof {
                    flags_are_known();
                }
                let (read_end, write_end) = FileDesc::ends_of(ends, O_CLOEXEC);
                return Ok((AnonPipe(read_end), AnonPipe(write_end)));
            },
            Attempt::Failed(e) => {
                return Err(e);
            },
            Attempt::Unsupported => {},
        }
    }
    create_in_two_steps()
}

/// Creates a pipe whose ends are close-on-exec. On Linux the entry point
/// that creates such ends in one step is looked up first, through `pipe2`
/// and `fetch`; elsewhere nothing is looked up and the pipe is created in
/// two steps.
pub fn anon_pipe<F: FnOnce(&Vec<u8>) -> usize>(linux: bool, pipe2: &mut Weak, fetch: F) -> (r:
    Result<(AnonPipe, AnonPipe), PipeError>)
    requires
        linux && !old(pipe2).symbol().resolved() ==> can_fetch(old(pipe2).name(), fetch),
    ensures
        !linux ==> *final(pipe2) == *old(pipe2),
        linux ==> consulted(*old(pipe2), *final(pipe2), fetch),
        r matches Ok(ends) ==> is_pipe(ends.0.desc(), ends.1.desc()),
        !(linux && final(pipe2).symbol().entry() is Some) ==> (r matches Ok(ends)
            ==> ends.0.desc().mark() == CloseOnExec::Marked),
        r matches Err(e) ==> e is Os,
{
    let atomic: bool = linux && pipe2.get(fetch).is_some();
    create(atomic)
}

} // verus!
