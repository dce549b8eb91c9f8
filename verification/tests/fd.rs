use os_pipe::error::PipeError;
use os_pipe::unix::cvt::os_result;
use os_pipe::unix::fd::{add_cloexec, CloseOnExec, End, FileDesc, FD_CLOEXEC, O_CLOEXEC};
use rustix::fd::AsRawFd;
use rustix::io::{fcntl_getfd, FdFlags};

/// A pipe as the kernel makes it when nothing is asked for: both ends are
/// inherited by executed programs.
fn plain_pipe() -> (rustix::fd::OwnedFd, rustix::fd::OwnedFd) {
    let (reader, writer) = rustix::pipe::pipe().unwrap();
    assert!(!fcntl_getfd(&reader).unwrap().contains(FdFlags::CLOEXEC));
    assert!(!fcntl_getfd(&writer).unwrap().contains(FdFlags::CLOEXEC));
    (reader, writer)
}

#[test]
fn flag_constants_are_the_platforms() {
    assert_eq!(FD_CLOEXEC, FdFlags::CLOEXEC.bits());
    assert_eq!(FD_CLOEXEC, libc::FD_CLOEXEC as u32);
    assert_eq!(O_CLOEXEC, rustix::pipe::PipeFlags::CLOEXEC.bits());
    assert_eq!(O_CLOEXEC, libc::O_CLOEXEC as u32);
}

#[test]
fn add_cloexec_sets_the_bit_and_keeps_the_rest() {
    assert_eq!(add_cloexec(0), 1);
    assert_eq!(add_cloexec(1), 1);
    assert_eq!(add_cloexec(6), 7);
    assert_eq!(add_cloexec(0x8000_0000), 0x8000_0001);
    assert_eq!(add_cloexec(u32::MAX), u32::MAX);
    assert_eq!(add_cloexec(u32::MAX - 1), u32::MAX);
}

#[test]
fn an_os_failure_keeps_its_code() {
    assert_eq!(os_result::<u8>(Err(24)), Err(PipeError::Os(24)));
    assert_eq!(os_result::<u8>(Err(0)), Err(PipeError::Os(0)));
    assert_eq!(os_result(Ok(7u8)), Ok(7));
    assert_eq!(os_result(Ok(())), Ok(()));
}

#[test]
fn a_descriptor_taken_over_is_of_unknown_mark() {
    let (reader, _writer) = plain_pipe();
    let number = reader.as_raw_fd();
    let fd = FileDesc::new(reader);
    assert_eq!(fd.close_on_exec(), CloseOnExec::Unknown);
    assert!(!fd.is_cloexec());
    assert_eq!(fd.which_end(), End::Unknown);
    assert_eq!(fd.duplicated_from(), None);
    assert_eq!(fd.raw(), number);
}

#[test]
fn new_then_into_raw_is_the_number_handed_in() {
    let (reader, writer) = plain_pipe();
    let reader_number = reader.as_raw_fd();
    let writer_number = writer.as_raw_fd();
    assert!(reader_number != writer_number);
    assert_eq!(FileDesc::new(reader).into_raw(), reader_number);
    assert_eq!(FileDesc::new(writer).into_raw(), writer_number);
}

#[test]
fn marking_keeps_the_end_and_the_number() {
    let (mut reader, mut writer) = os_pipe::unix::pipe2_cloexec(false).unwrap();
    let reader_number = reader.raw();
    let writer_number = writer.raw();
    assert_eq!(reader.set_cloexec(), Ok(()));
    assert_eq!(writer.set_cloexec_by_flags(), Ok(()));
    assert_eq!(reader.which_end(), End::Read);
    assert_eq!(writer.which_end(), End::Write);
    assert_eq!(reader.raw(), reader_number);
    assert_eq!(writer.raw(), writer_number);
    assert_eq!(reader.duplicated_from(), None);
}

#[test]
fn raw_is_the_descriptors_number_and_leaves_it_open() {
    let (reader, writer) = plain_pipe();
    let number = writer.as_raw_fd();
    let fd = FileDesc::new(writer);
    assert_eq!(fd.raw(), number);
    assert_eq!(fd.raw(), number);
    assert_eq!(rustix::io::write(fd.borrow().fd(), b"x").unwrap(), 1);
    let mut buf = [0u8; 4];
    assert_eq!(rustix::io::read(&reader, &mut buf[..]).unwrap(), 1);
    assert_eq!(buf[0], b'x');
}

#[test]
fn into_raw_gives_the_number_without_closing() {
    let (reader, writer) = plain_pipe();
    let number = writer.as_raw_fd();
    let fd = FileDesc::new(writer);
    assert_eq!(fd.into_raw(), number);
    // The write end is still open: a read would block instead of seeing the
    // end of the stream, so the number must still be in use. A new
    // descriptor therefore gets another number.
    let (other_reader, other_writer) = plain_pipe();
    assert!(other_reader.as_raw_fd() != number);
    assert!(other_writer.as_raw_fd() != number);
    drop(reader);
}

#[test]
fn into_owned_gives_the_same_descriptor_back() {
    let (reader, _writer) = plain_pipe();
    let number = reader.as_raw_fd();
    let back = FileDesc::new(reader).into_owned();
    assert_eq!(back.as_raw_fd(), number);
    assert!(fcntl_getfd(&back).is_ok());
}

#[test]
fn set_cloexec_marks_the_descriptor() {
    let (reader, _writer) = plain_pipe();
    let mut fd = FileDesc::new(reader);
    assert_eq!(fd.set_cloexec(), Ok(()));
    assert_eq!(fd.close_on_exec(), CloseOnExec::Marked);
    assert!(fd.is_cloexec());
    assert!(fcntl_getfd(fd.borrow().fd()).unwrap().contains(FdFlags::CLOEXEC));
}

#[test]
fn set_cloexec_only_marks_the_descriptor() {
    let (_reader, writer) = plain_pipe();
    let mut fd = FileDesc::new(writer);
    assert_eq!(fd.set_cloexec_only(), Ok(()));
    assert_eq!(fd.close_on_exec(), CloseOnExec::Marked);
    assert_eq!(fcntl_getfd(fd.borrow().fd()).unwrap(), FdFlags::CLOEXEC);
}

#[test]
fn set_cloexec_by_flags_marks_the_descriptor() {
    let (reader, _writer) = plain_pipe();
    let mut fd = FileDesc::new(reader);
    assert_eq!(fd.set_cloexec_by_flags(), Ok(()));
    assert_eq!(fd.close_on_exec(), CloseOnExec::Marked);
    assert!(fcntl_getfd(fd.borrow().fd()).unwrap().contains(FdFlags::CLOEXEC));
}

#[test]
fn marking_twice_changes_nothing() {
    let (reader, _writer) = plain_pipe();
    let mut fd = FileDesc::new(reader);
    assert_eq!(fd.set_cloexec(), Ok(()));
    assert_eq!(fd.set_cloexec_by_flags(), Ok(()));
    assert_eq!(fd.set_cloexec_only(), Ok(()));
    assert_eq!(fd.close_on_exec(), CloseOnExec::Marked);
    assert!(fcntl_getfd(fd.borrow().fd()).unwrap().contains(FdFlags::CLOEXEC));
}

#[test]
fn a_descriptor_created_with_the_mark_keeps_that_knowledge() {
    let (mut reader, _writer) = os_pipe::unix::pipe2_cloexec(true).unwrap();
    assert_eq!(reader.close_on_exec(), CloseOnExec::FromCreation);
    assert_eq!(reader.set_cloexec(), Ok(()));
    assert_eq!(reader.close_on_exec(), CloseOnExec::FromCreation);
    assert!(fcntl_getfd(reader.borrow().fd()).unwrap().contains(FdFlags::CLOEXEC));
}

#[test]
fn dropping_the_descriptor_closes_it() {
    let (reader, writer) = plain_pipe();
    let fd = FileDesc::new(writer);
    drop(fd);
    let mut buf = [0u8; 4];
    assert_eq!(rustix::io::read(&reader, &mut buf[..]).unwrap(), 0);
}

#[test]
fn a_view_is_of_the_descriptor_it_was_borrowed_from() {
    let (reader, writer) = plain_pipe();
    let reader_number = reader.as_raw_fd();
    let writer_number = writer.as_raw_fd();
    let reader = FileDesc::new(reader);
    let writer = FileDesc::new(writer);
    assert_eq!(reader.borrow().raw(), reader_number);
    assert_eq!(reader.borrow().raw(), reader.raw());
    assert_eq!(reader.borrow().fd().as_raw_fd(), reader_number);
    assert_eq!(writer.borrow().raw(), writer_number);
    assert_eq!(writer.borrow().fd().as_raw_fd(), writer_number);
    assert!(reader.borrow().raw() != writer.borrow().raw());
}

#[test]
fn dropping_a_view_closes_nothing() {
    let (reader, writer) = plain_pipe();
    let writer = FileDesc::new(writer);
    drop(writer.borrow());
    drop(writer.borrow());
    assert_eq!(rustix::io::write(writer.borrow().fd(), b"x").unwrap(), 1);
    let mut buf = [0u8; 4];
    assert_eq!(rustix::io::read(&reader, &mut buf[..]).unwrap(), 1);
}
