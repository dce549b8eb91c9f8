use os_pipe::error::PipeError;
use os_pipe::windows::{
    dup, dup_request, pipe, std_handle, DuplicateRequest, DUPLICATE_SAME_ACCESS,
    INVALID_HANDLE_VALUE,
};

#[test]
fn constants_are_the_platforms() {
    assert_eq!(DUPLICATE_SAME_ACCESS, windows_sys::Win32::Foundation::DUPLICATE_SAME_ACCESS);
    assert_eq!(INVALID_HANDLE_VALUE, windows_sys::Win32::Foundation::INVALID_HANDLE_VALUE as isize);
}

#[test]
fn a_duplicate_is_asked_for_with_the_sources_rights() {
    assert_eq!(
        dup_request(0x1c4, false),
        DuplicateRequest {
            source: 0x1c4,
            desired_access: 0,
            inherit_handle: false,
            options: 2,
        }
    );
    assert_eq!(
        dup_request(-11, true),
        DuplicateRequest {
            source: -11,
            desired_access: 0,
            inherit_handle: true,
            options: 2,
        }
    );
}

#[test]
fn a_created_pipe_is_its_two_handles() {
    assert_eq!(pipe(1, 0x1c4, 0x1c8, 0), Ok((0x1c4, 0x1c8)));
    assert_eq!(pipe(-1, 0x1c4, 0x1c8, 5), Ok((0x1c4, 0x1c8)));
}

#[test]
fn a_refused_pipe_is_the_failure() {
    assert_eq!(pipe(0, -1, -1, 8), Err(PipeError::Os(8)));
    assert_eq!(pipe(0, 0x1c4, 0x1c8, 4), Err(PipeError::Os(4)));
}

#[test]
fn a_duplicated_handle_is_handed_on() {
    assert_eq!(dup(1, 0x2a0, 0), Ok(0x2a0));
    assert_eq!(dup(7, 0x2a0, 6), Ok(0x2a0));
}

#[test]
fn a_refused_duplication_is_the_failure() {
    assert_eq!(dup(0, 0, 6), Err(PipeError::Os(6)));
    assert_eq!(dup(0, 0x2a0, 5), Err(PipeError::Os(5)));
}

#[test]
fn a_stream_without_a_handle_is_not_present() {
    assert_eq!(std_handle(0, 0), Err(PipeError::StreamNotPresent));
    assert_eq!(std_handle(0, 6), Err(PipeError::StreamNotPresent));
}

#[test]
fn a_failed_lookup_of_a_stream_is_the_failure() {
    assert_eq!(std_handle(INVALID_HANDLE_VALUE, 6), Err(PipeError::Os(6)));
    assert_eq!(std_handle(-1, 87), Err(PipeError::Os(87)));
}

#[test]
fn a_stream_with_a_handle_is_that_handle() {
    assert_eq!(std_handle(0x1c4, 0), Ok(0x1c4));
    assert_eq!(std_handle(-2, 6), Ok(-2));
    assert_eq!(std_handle(1, 6), Ok(1));
}
