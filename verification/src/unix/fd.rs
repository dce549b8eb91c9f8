//! An owned file descriptor and its close-on-exec flag.

use vstd::prelude::*;
use crate::error::PipeError;
use crate::sys;
use crate::sys::{fd_number, view_number};
use crate::unix::cvt::retry_os;
use rustix::fd::{BorrowedFd, OwnedFd};

verus! {

/// The bit of a descriptor's flag word that keeps the descriptor out of the
/// programs this process executes.
pub const FD_CLOEXEC: u32 = 1;

/// The flag that asks for a close-on-exec descriptor when it is created.
pub const O_CLOEXEC: u32 = 0x80000;

/// The flag word `previous` with the close-on-exec bit set and every other
/// bit as it was.
pub open spec fn with_cloexec(previous: u32) -> u32 {
    previous | FD_CLOEXEC
}

/// Whether a flag word keeps its descriptor out of executed programs.
pub open spec fn has_cloexec(word: u32) -> bool {
    word & FD_CLOEXEC == FD_CLOEXEC
}

/// Setting the bit sets it, changes no other bit, and does nothing to a word
/// that has it.
pub proof fn with_cloexec_sets_only_that_bit(previous: u32)
    ensures
        has_cloexec(with_cloexec(previous)),
        with_cloexec(previous) & !FD_CLOEXEC == previous & !FD_CLOEXEC,
        has_cloexec(previous) ==> with_cloexec(previous) == previous,
        with_cloexec(with_cloexec(previous)) == with_cloexec(previous),
{
    assert((previous | 1u32) & 1u32 == 1u32) by (bit_vector);
    assert((previous | 1u32) & !1u32 == previous & !1u32) by (bit_vector);
    assert(previous & 1u32 == 1u32 ==> previous | 1u32 == previous) by (bit_vector);
    assert((previous | 1u32) | 1u32 == previous | 1u32) by (bit_vector);
}

/// Computes the flag word to write back so that the descriptor becomes
/// close-on-exec and keeps its other flags.
pub fn add_cloexec(previous: u32) -> (word: u32)
    ensures
        word == with_cloexec(previous),
        has_cloexec(word),
{
    proof {
        with_cloexec_sets_only_that_bit(previous);
    }
    previous | FD_CLOEXEC
}

/// What this library knows about whether a descriptor is kept out of the
/// programs that this process executes.
#[derive(Clone, Copy, Debug, PartialEq, Eq, Structural)]
pub enum CloseOnExec {
    /// Nothing: the descriptor may be inherited.
    Unknown,
    /// The kernel accepted the mark after the descriptor was created. A
    /// program started by another thread in between has inherited it.
    Marked,
    /// The kernel created the descriptor with the mark, so there was no
    /// moment at which it could be inherited.
    FromCreation,
}

impl CloseOnExec {
    /// What is known once the kernel has accepted the mark: a descriptor
    /// that was created with it stays so, every other is marked now.
    pub open spec fn marked(self) -> CloseOnExec {
        if self == CloseOnExec::FromCreation {
            CloseOnExec::FromCreation
        } else {
            CloseOnExec::Marked
        }
    }

    /// What is known of a descriptor that the kernel created in answer to a
    /// call that carried `flags`.
    pub open spec fn of_flags(flags: u32) -> CloseOnExec {
        if flags & O_CLOEXEC == O_CLOEXEC {
            CloseOnExec::FromCreation
        } else {
            CloseOnExec::Unknown
        }
    }
}

/// Once the kernel has accepted the mark the descriptor is known to be
/// close-on-exec for good: accepting it again changes nothing, and a
/// descriptor that was created with the mark is never taken for one that
/// was marked later.
pub proof fn mark_is_kept(known: CloseOnExec)
    ensures
        known.marked() != CloseOnExec::Unknown,
        known.marked().marked() == known.marked(),
        known == CloseOnExec::FromCreation <==> known.marked() == CloseOnExec::FromCreation,
        known != CloseOnExec::Unknown ==> known.marked() == known,
{
}

/// The flag word that asks for close-on-exec is known to do so, and the
/// empty flag word is known to ask for nothing.
pub proof fn flags_are_known()
    ensures
        CloseOnExec::of_flags(O_CLOEXEC) == CloseOnExec::FromCreation,
        CloseOnExec::of_flags(0) == CloseOnExec::Unknown,
{
    assert(O_CLOEXEC & O_CLOEXEC == O_CLOEXEC) by (bit_vector);
    assert(0u32 & O_CLOEXEC != O_CLOEXEC) by (bit_vector);
}

/// Which end of a pipe a descriptor is, where this library has seen the pipe
/// created.
#[derive(Clone, Copy, Debug, PartialEq, Eq, Structural)]
pub enum End {
    /// Not known to be either: the descriptor did not come from a pipe that
    /// this library created.
    Unknown,
    /// The end to read from.
    Read,
    /// The end to write to.
    Write,
}

/// A view of a descriptor that somebody else owns. It is for calls that must
/// leave the descriptor open: nothing is closed when the view goes away.
pub struct FdView<'fd> {
    fd: BorrowedFd<'fd>,
}

impl<'fd> FdView<'fd> {
    /// The borrowed descriptor.
    pub closed spec fn inner(self) -> BorrowedFd<'fd> {
        self.fd
    }

    /// The number of the descriptor that is viewed.
    pub open spec fn number(self) -> i32 {
        view_number(self.inner())
    }

    /// Takes a borrowed descriptor as a view.
    pub fn of(fd: BorrowedFd<'fd>) -> (view: FdView<'fd>)
        ensures
            view.inner() == fd,
    {
        FdView { fd }
    }

    /// The borrowed descriptor, to hand to a call.
    pub fn fd(&self) -> (fd: BorrowedFd<'fd>)
        ensures
            fd == self.inner(),
    {
        self.fd
    }

    /// The number of the descriptor that is viewed.
    pub fn raw(&self) -> (r: i32)
        ensures
            r == self.number(),
    {
        sys::view_raw_fd(self.fd)
    }
}

/// A file descriptor that this value alone owns, with what this library
/// knows about it. The descriptor is closed when the value goes away, unless
/// `into_raw` or `into_owned` took it out.
pub struct FileDesc {
    fd: OwnedFd,
    mark: CloseOnExec,
    end: End,
    origin: Option<i32>,
}

impl FileDesc {
    /// The descriptor inside.
    pub closed spec fn owned(self) -> OwnedFd {
        self.fd
    }

    /// The descriptor's number.
    pub open spec fn number(self) -> i32 {
        fd_number(self.owned())
    }

    /// What is known about the descriptor's close-on-exec mark.
    pub closed spec fn mark(self) -> CloseOnExec {
        self.mark
    }

    /// Which end of a pipe the descriptor is.
    pub closed spec fn end(self) -> End {
        self.end
    }

    /// The number of the descriptor that this one was duplicated from, if
    /// this library made it by duplication.
    pub closed spec fn origin(self) -> Option<i32> {
        self.origin
    }

    /// Whether the kernel has accepted a request of this library to keep the
    /// descriptor out of the programs this process executes.
    pub open spec fn cloexec(self) -> bool {
        self.mark() != CloseOnExec::Unknown
    }

    /// Whether `after` is `self` but for what is known of the mark: the same
    /// descriptor, the same end, the same origin.
    pub open spec fn kept_in(self, after: FileDesc) -> bool {
        &&& after.owned() == self.owned()
        &&& after.end() == self.end()
        &&& after.origin() == self.origin()
    }

    /// The descriptor `fd` with nothing known about it.
    pub closed spec fn fresh(fd: OwnedFd) -> FileDesc {
        FileDesc { fd, mark: CloseOnExec::Unknown, end: End::Unknown, origin: None }
    }

    /// Takes over a descriptor of which nothing is known.
    pub fn new(fd: OwnedFd) -> (r: FileDesc)
        ensures
            r == FileDesc::fresh(fd),
            r.owned() == fd,
            r.number() == fd_number(fd),
            r.mark() == CloseOnExec::Unknown,
            r.end() == End::Unknown,
            r.origin() is None,
    {
        FileDesc { fd, mark: CloseOnExec::Unknown, end: End::Unknown, origin: None }
    }

    /// Takes over the two ends of a pipe that the kernel has just created in
    /// answer to a call that carried `flags`: the first of the pair is the
    /// end to read from, the second the end to write to.
    pub(crate) fn ends_of(ends: (OwnedFd, OwnedFd), flags: u32) -> (r: (FileDesc, FileDesc))
        ensures
            r.0.owned() == ends.0,
            r.0.end() == End::Read,
            r.1.owned() == ends.1,
            r.1.end() == End::Write,
            r.0.mark() == CloseOnExec::of_flags(flags),
            r.1.mark() == CloseOnExec::of_flags(flags),
            r.0.origin() is None,
            r.1.origin() is None,
    {
        let mark = if flags & O_CLOEXEC == O_CLOEXEC {
            CloseOnExec::FromCreation
        } else {
            CloseOnExec::Unknown
        };
        (
            FileDesc { fd: ends.0, mark, end: End::Read, origin: None },
            FileDesc { fd: ends.1, mark, end: End::Write, origin: None },
        )
    }

    /// Takes over a descriptor that the kernel has just made as a duplicate
    /// of the one that `source` views, in answer to a call that carried
    /// `flags`.
    pub(crate) fn copy_of(fd: OwnedFd, flags: u32, source: BorrowedFd<'_>) -> (r: FileDesc)
        ensures
            r.owned() == fd,
            r.mark() == CloseOnExec::of_flags(flags),
            r.end() == End::Unknown,
            r.origin() == Some(view_number(source)),
    {
        let mark = if flags & O_CLOEXEC == O_CLOEXEC {
            CloseOnExec::FromCreation
        } else {
            CloseOnExec::Unknown
        };
        FileDesc { fd, mark, end: End::Unknown, origin: Some(sys::view_raw_fd(source)) }
    }

    /// The descriptor's number. The descriptor stays owned by `self`.
    pub fn raw(&self) -> (r: i32)
        ensures
            r == self.number(),
    {
        sys::as_raw_fd(&self.fd)
    }

    /// What is known about the descriptor's close-on-exec mark.
    pub fn close_on_exec(&self) -> (r: CloseOnExec)
        ensures
            r == self.mark(),
    {
        self.mark
    }

    /// Whether the descriptor is known to stay out of executed programs.
    pub fn is_cloexec(&self) -> (r: bool)
        ensures
            r == self.cloexec(),
    {
        self.mark != CloseOnExec::Unknown
    }

    /// Which end of a pipe the descriptor is.
    pub fn which_end(&self) -> (r: End)
        ensures
            r == self.end(),
    {
        self.end
    }

    /// The number of the descriptor that this one was duplicated from, if
    /// this library made it by duplication.
    pub fn duplicated_from(&self) -> (r: Option<i32>)
        ensures
            r == self.origin(),
    {
        self.origin
    }

    /// A view of the descriptor for a call that must not close it. The
    /// view is of this descriptor: it carries this descriptor's number.
    pub fn borrow(&self) -> (view: FdView<'_>)
        ensures
            view.number() == self.number(),
    {
        FdView::of(sys::as_fd(&self.fd))
    }

    /// Extracts the descriptor's number without closing the descriptor.
    /// Whoever holds the number is from now on the one to close it.
    pub fn into_raw(self) -> (r: i32)
        ensures
            r == fd_number(self.owned()),
            r == self.number(),
    {
        sys::into_raw_fd(self.fd)
    }

    /// Gives the descriptor back, still open.
    pub fn into_owned(self) -> (fd: OwnedFd)
        ensures
            fd == self.owned(),
    {
        self.fd
    }

    /// Records that the kernel has answered a request to mark the
    /// descriptor: the mark is known from now on if it accepted.
    fn note(&mut self, outcome: Result<(), PipeError>) -> (r: Result<(), PipeError>)
        ensures
            r == outcome,
            old(self).kept_in(*final(self)),
            final(self).mark() == (if outcome is Ok {
                old(self).mark().marked()
            } else {
                old(self).mark()
            }),
    {
        if outcome.is_ok() {
            self.mark = match self.mark {
                CloseOnExec::FromCreation => CloseOnExec::FromCreation,
                _ => CloseOnExec::Marked,
            };
        }
        outcome
    }

    /// Marks the descriptor close-on-exec in one step, trying again while a
    /// signal interrupts the call. On failure nothing is changed.
    pub fn set_cloexec(&mut self) -> (r: Result<(), PipeError>)
        ensures
            old(self).kept_in(*final(self)),
            r is Ok ==> final(self).mark() == old(self).mark().marked(),
            r is Err ==> final(self).mark() == old(self).mark() && r->Err_0 is Os,
    {
        let view = sys::as_fd(&self.fd);
        let outcome = retry_os(|| sys::ioctl_fioclex(view));
        self.note(outcome)
    }

    /// Marks the descriptor close-on-exec by writing a flag word that holds
    /// that bit and no other, trying again while a signal interrupts the
    /// call. On failure nothing is changed.
    pub fn set_cloexec_only(&mut self) -> (r: Result<(), PipeError>)
        ensures
            old(self).kept_in(*final(self)),
            r is Ok ==> final(self).mark() == old(self).mark().marked(),
            r is Err ==> final(self).mark() == old(self).mark() && r->Err_0 is Os,
    {
        let view = sys::as_fd(&self.fd);
        let outcome = retry_os(|| sys::fcntl_setfd(view, FD_CLOEXEC));
        self.note(outcome)
    }

    /// Marks the descriptor close-on-exec where that takes two steps: reads
    /// the flag word and writes it back with the bit added, trying each call
    /// again while a signal interrupts it. The word is written only if it
    /// could be read. On failure nothing is changed.
    pub fn set_cloexec_by_flags(&mut self) -> (r: Result<(), PipeError>)
        ensures
            old(self).kept_in(*final(self)),
            r is Ok ==> final(self).mark() == old(self).mark().marked(),
            r is Err ==> final(self).mark() == old(self).mark() && r->Err_0 is Os,
    {
        let view = sys::as_fd(&self.fd);
        match retry_os(|| sys::fcntl_getfd(view)) {
            Ok(word) => {
                let bits: u32 = add_cloexec(word);
                let outcome = retry_os(|| sys::fcntl_setfd(view, bits));
                self.note(outcome)
            },
            Err(e) => Err(e),
        }
    }
}

} // verus!
