//! The decisions around the Windows calls that create a pipe and duplicate
//! a handle. The calls themselves are made by the caller, who hands their
//! answers in as plain values.

use vstd::prelude::*;
use crate::error::PipeError;

verus! {

/// The option that gives a duplicate the access rights of its source.
pub const DUPLICATE_SAME_ACCESS: u32 = 2;

/// The value that stands for "no handle" where a handle is expected.
pub const INVALID_HANDLE_VALUE: isize = -1;

/// What is handed to the call that duplicates a handle.
#[derive(Clone, Copy, Debug, PartialEq, Eq, Structural)]
pub struct DuplicateRequest {
    /// The handle to duplicate. It is only looked at, never closed.
    pub source: isize,
    /// The access rights asked for. Ignored by the call where `options`
    /// asks for the source's own.
    pub desired_access: u32,
    /// Whether processes created later inherit the duplicate.
    pub inherit_handle: bool,
    /// The options of the call.
    pub options: u32,
}

/// The request by which `source` is duplicated: the duplicate has the
/// source's access rights, and is inherited exactly if that is asked for.
pub open spec fn dup_request_spec(source: isize, inheritable: bool) -> DuplicateRequest {
    DuplicateRequest {
        source,
        desired_access: 0,
        inherit_handle: inheritable,
        options: DUPLICATE_SAME_ACCESS,
    }
}

/// Builds the request by which `source` is duplicated.
pub fn dup_request(source: isize, inheritable: bool) -> (request: DuplicateRequest)
    ensures
        request == dup_request_spec(source, inheritable),
{
    DuplicateRequest {
        source,
        desired_access: 0,
        inherit_handle: inheritable,
        options: DUPLICATE_SAME_ACCESS,
    }
}

/// What a call that answers with a truth value has achieved: zero means
/// failure, with `code` as the error it left behind.
pub open spec fn checked_spec<T>(ret: i32, value: T, code: i32) -> Result<T, PipeError> {
    if ret == 0 {
        Err(PipeError::Os(code))
    } else {
        Ok(value)
    }
}

/// Judges the answer of the call that creates a pipe: the read handle and
/// the write handle, in that order, unless the call answered zero.
pub fn pipe(ret: i32, read_pipe: isize, write_pipe: isize, code: i32) -> (r: Result<
    (isize, isize),
    PipeError,
>)
    ensures
        r == checked_spec(ret, (read_pipe, write_pipe), code),
{
    if ret == 0 {
        Err(PipeError::Os(code))
    } else {
        Ok((read_pipe, write_pipe))
    }
}

/// Judges the answer of the call that duplicates a handle: the duplicate,
/// unless the call answered zero.
pub fn dup(ret: i32, duplicated_handle: isize, code: i32) -> (r: Result<isize, PipeError>)
    ensures
        r == checked_spec(ret, duplicated_handle, code),
{
    if ret == 0 {
        Err(PipeError::Os(code))
    } else {
        Ok(duplicated_handle)
    }
}

/// What the lookup of a standard stream's handle has found: no handle at
/// all where the process was started without the stream, the failure where
/// the lookup failed, else the handle.
pub open spec fn std_handle_spec(handle: isize, code: i32) -> Result<isize, PipeError> {
    if handle == 0 {
        Err(PipeError::StreamNotPresent)
    } else if handle == INVALID_HANDLE_VALUE {
        Err(PipeError::Os(code))
    } else {
        Ok(handle)
    }
}

/// Judges the answer of the lookup of a standard stream's handle.
pub fn std_handle(handle: isize, code: i32) -> (r: Result<isize, PipeError>)
    ensures
        r == std_handle_spec(handle, code),
{
    if handle == 0 {
        Err(PipeError::StreamNotPresent)
    } else if handle == INVALID_HANDLE_VALUE {
        Err(PipeError::Os(code))
    } else {
        Ok(handle)
    }
}

} // verus!
