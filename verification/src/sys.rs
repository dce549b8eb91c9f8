//! The calls into the operating system.
//!
//! Everything in this file is taken on trust: Verus reads the contracts here
//! and not the bodies. Each body makes one call and converts its arguments
//! and its result. What the kernel answers is never assumed, so no contract
//! promises anything about it. What is promised is what a descriptor's
//! number is: a value of the descriptor alone, which reading it, borrowing
//! it and giving it up all agree on.

use vstd::prelude::*;

verus! {

/// `rustix::fd::OwnedFd`: a descriptor that is closed when the value is
/// dropped. Nothing is assumed about what is inside.
#[verifier::external_type_specification]
#[verifier::external_body]
pub struct ExOwnedFd(rustix::fd::OwnedFd);

/// `rustix::fd::BorrowedFd`: a view of a descriptor that somebody else owns.
/// Dropping the view closes nothing. Nothing is assumed about what is inside.
#[verifier::external_type_specification]
#[verifier::external_body]
pub struct ExBorrowedFd<'fd>(rustix::fd::BorrowedFd<'fd>);

/// `std::io::Error`. Nothing is assumed about what is inside.
#[verifier::external_type_specification]
#[verifier::external_body]
pub struct ExIoError(std::io::Error);

/// The number of an owned descriptor: what `AsRawFd::as_raw_fd` returns for
/// it. The number is part of the value and stays the same for as long as the
/// value lives.
pub uninterp spec fn fd_number(fd: rustix::fd::OwnedFd) -> i32;

/// The number of the descriptor that a view is of: what
/// `AsRawFd::as_raw_fd` returns for the view.
pub uninterp spec fn view_number(view: rustix::fd::BorrowedFd<'_>) -> i32;

/// `std::io::Error::last_os_error`: the error that the calling thread's most
/// recent failed system call left behind. Nothing is claimed of it.
#[verifier::external_body]
pub(crate) fn last_os_error() -> (e: std::io::Error) {
    std::io::Error::last_os_error()
}

/// `std::io::Error::raw_os_error`: the operating-system code inside an error,
/// if it has one. Nothing is claimed of it.
#[verifier::external_body]
pub(crate) fn raw_os_error(e: &std::io::Error) -> (code: Option<i32>) {
    e.raw_os_error()
}

/// `rustix::pipe::pipe_with`: asks the kernel for a new pipe whose two ends
/// carry the flags in `bits`, and returns the read end and the write end, in
/// that order, or the code of the failure. Nothing is claimed of the answer.
#[verifier::external_body]
pub(crate) fn pipe_with(bits: u32) -> (r: Result<(rustix::fd::OwnedFd, rustix::fd::OwnedFd), i32>) {
    rustix::pipe::pipe_with(rustix::pipe::PipeFlags::from_bits_retain(bits))
        .map_err(|e| e.raw_os_error())
}

/// `rustix::pipe::pipe`: asks the kernel for a new pipe without any flag, and
/// returns the read end and the write end, in that order, or the code of the
/// failure. Nothing is claimed of the answer.
#[verifier::external_body]
pub(crate) fn pipe_plain() -> (r: Result<(rustix::fd::OwnedFd, rustix::fd::OwnedFd), i32>) {
    rustix::pipe::pipe().map_err(|e| e.raw_os_error())
}

/// `rustix::io::ioctl_fioclex`: asks the kernel to mark the descriptor
/// close-on-exec, and returns the code of the failure if it refuses.
#[verifier::external_body]
pub(crate) fn ioctl_fioclex(fd: rustix::fd::BorrowedFd<'_>) -> (r: Result<(), i32>) {
    rustix::io::ioctl_fioclex(fd).map_err(|e| e.raw_os_error())
}

/// `rustix::io::fcntl_getfd`: reads the descriptor's flag word, or returns
/// the code of the failure. Nothing is claimed of the answer.
#[verifier::external_body]
pub(crate) fn fcntl_getfd(fd: rustix::fd::BorrowedFd<'_>) -> (r: Result<u32, i32>) {
    rustix::io::fcntl_getfd(fd).map(|flags| flags.bits()).map_err(|e| e.raw_os_error())
}

/// `rustix::io::fcntl_setfd`: replaces the descriptor's flag word by `bits`,
/// and returns the code of the failure if the kernel refuses.
#[verifier::external_body]
pub(crate) fn fcntl_setfd(fd: rustix::fd::BorrowedFd<'_>, bits: u32) -> (r: Result<(), i32>) {
    rustix::io::fcntl_setfd(fd, rustix::io::FdFlags::from_bits_retain(bits))
        .map_err(|e| e.raw_os_error())
}

/// `rustix::io::fcntl_dupfd_cloexec`: asks the kernel for a second descriptor
/// of the same open file, numbered `min` or above and marked close-on-exec in
/// the same step, or returns the code of the failure. The source is only
/// borrowed. A negative `min` is not a descriptor number, so it is left out.
#[verifier::external_body]
pub(crate) fn fcntl_dupfd_cloexec(fd: rustix::fd::BorrowedFd<'_>, min: i32) -> (r: Result<
    rustix::fd::OwnedFd,
    i32,
>)
    requires
        min >= 0,
{
    rustix::io::fcntl_dupfd_cloexec(fd, min).map_err(|e| e.raw_os_error())
}

/// `rustix::io::dup`: asks the kernel for a second descriptor of the same
/// open file, or returns the code of the failure. The source is only borrowed.
#[verifier::external_body]
pub(crate) fn dup_plain(fd: rustix::fd::BorrowedFd<'_>) -> (r: Result<rustix::fd::OwnedFd, i32>) {
    rustix::io::dup(fd).map_err(|e| e.raw_os_error())
}

/// `rustix::stdio::stdin`: a view of this process's standard input, which
/// is descriptor 0.
#[verifier::external_body]
pub(crate) fn stdin_fd() -> (view: rustix::fd::BorrowedFd<'static>)
    ensures
        view_number(view) == 0,
{
    rustix::stdio::stdin()
}

/// `rustix::stdio::stdout`: a view of this process's standard output, which
/// is descriptor 1.
#[verifier::external_body]
pub(crate) fn stdout_fd() -> (view: rustix::fd::BorrowedFd<'static>)
    ensures
        view_number(view) == 1,
{
    rustix::stdio::stdout()
}

/// `rustix::stdio::stderr`: a view of this process's standard error, which
/// is descriptor 2.
#[verifier::external_body]
pub(crate) fn stderr_fd() -> (view: rustix::fd::BorrowedFd<'static>)
    ensures
        view_number(view) == 2,
{
    rustix::stdio::stderr()
}

/// `AsFd::as_fd` on an owned descriptor: a view of that same descriptor,
/// which closes nothing.
#[verifier::external_body]
pub(crate) fn as_fd<'fd>(fd: &'fd rustix::fd::OwnedFd) -> (view: rustix::fd::BorrowedFd<'fd>)
    ensures
        view_number(view) == fd_number(*fd),
{
    rustix::fd::AsFd::as_fd(fd)
}

/// `AsRawFd::as_raw_fd` on an owned descriptor: its number.
#[verifier::external_body]
pub(crate) fn as_raw_fd(fd: &rustix::fd::OwnedFd) -> (raw: i32)
    ensures
        raw == fd_number(*fd),
{
    rustix::fd::AsRawFd::as_raw_fd(fd)
}

/// `AsRawFd::as_raw_fd` on a view: the number of the descriptor viewed.
#[verifier::external_body]
pub(crate) fn view_raw_fd(view: rustix::fd::BorrowedFd<'_>) -> (raw: i32)
    ensures
        raw == view_number(view),
{
    rustix::fd::AsRawFd::as_raw_fd(&view)
}

/// `IntoRawFd::into_raw_fd` on an owned descriptor: gives up the ownership
/// without closing, and returns the descriptor's number.
#[verifier::external_body]
pub(crate) fn into_raw_fd(fd: rustix::fd::OwnedFd) -> (raw: i32)
    ensures
        raw == fd_number(fd),
{
    rustix::fd::IntoRawFd::into_raw_fd(fd)
}

} // verus!
