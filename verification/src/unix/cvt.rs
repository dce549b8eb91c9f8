//! Turning the return values of C-style calls into `Result`s, and retrying
//! the calls that a signal interrupted.

use vstd::prelude::*;
use crate::error::PipeError;
use crate::sys;

verus! {

/// Integer types in which a C-style call reports failure as `-1`.
pub trait IsMinusOne: Sized {
    /// Whether the value is `-1`.
    spec fn minus_one(&self) -> bool;

    /// Whether the value is `-1`.
    fn is_minus_one(&self) -> (r: bool)
        ensures
            r == self.minus_one(),
    ;
}

impl IsMinusOne for i8 {
    open spec fn minus_one(&self) -> bool {
        *self == -1
    }

    fn is_minus_one(&self) -> (r: bool) {
        *self == -1
    }
}

impl IsMinusOne for i16 {
    open spec fn minus_one(&self) -> bool {
        *self == -1
    }

    fn is_minus_one(&self) -> (r: bool) {
        *self == -1
    }
}

impl IsMinusOne for i32 {
    open spec fn minus_one(&self) -> bool {
        *self == -1
    }

    fn is_minus_one(&self) -> (r: bool) {
        *self == -1
    }
}

impl IsMinusOne for i64 {
    open spec fn minus_one(&self) -> bool {
        *self == -1
    }

    fn is_minus_one(&self) -> (r: bool) {
        *self == -1
    }
}

impl IsMinusOne for isize {
    open spec fn minus_one(&self) -> bool {
        *self == -1
    }

    fn is_minus_one(&self) -> (r: bool) {
        *self == -1
    }
}

/// What `cvt_code` returns: the value itself unless it is `-1`, else the
/// failure with the given code.
pub open spec fn cvt_spec<T: IsMinusOne>(t: T, code: i32) -> Result<T, PipeError> {
    if t.minus_one() {
        Err(PipeError::Os(code))
    } else {
        Ok(t)
    }
}

/// Converts the return value of a C-style call, given the error code that
/// the call left behind.
pub fn cvt_code<T: IsMinusOne>(t: T, code: i32) -> (r: Result<T, PipeError>)
    ensures
        r == cvt_spec(t, code),
{
    if t.is_minus_one() {
        Err(PipeError::Os(code))
    } else {
        Ok(t)
    }
}

/// The code of a failed system call, given what the platform reports for
/// it: a failure for which it knows no code has code 0.
pub open spec fn code_of_raw_spec(raw: Option<i32>) -> i32 {
    match raw {
        Some(code) => code,
        None => 0,
    }
}

/// The error that stands for a failed system call, given the code that the
/// platform reports for it.
pub open spec fn error_of_raw_spec(raw: Option<i32>) -> PipeError {
    PipeError::Os(code_of_raw_spec(raw))
}

/// The code of a failed system call, given what the platform reports for it.
pub fn code_of_raw(raw: Option<i32>) -> (code: i32)
    ensures
        code == code_of_raw_spec(raw),
{
    match raw {
        Some(code) => code,
        None => 0,
    }
}

/// Reports a failed system call, given the code that the platform reports
/// for it.
pub fn error_of_raw(raw: Option<i32>) -> (e: PipeError)
    ensures
        e == error_of_raw_spec(raw),
{
    PipeError::Os(code_of_raw(raw))
}

/// The code that the calling thread's most recent failed system call left
/// behind. Which code that is, is for the platform to say.
fn last_code() -> (code: i32) {
    let raw = sys::last_os_error();
    code_of_raw(sys::raw_os_error(&raw))
}

/// The error that the calling thread's most recent failed system call left
/// behind. Which code it carries is for the platform to say; that it is an
/// operating-system failure holds whatever it says.
pub fn last_error() -> (e: PipeError)
    ensures
        e is Os,
{
    PipeError::Os(last_code())
}

/// Converts the return value of a C-style call: `-1` becomes the error that
/// the call left behind, every other value is handed through. The error is
/// read only where the call has failed.
pub fn cvt<T: IsMinusOne>(t: T) -> (r: Result<T, PipeError>)
    ensures
        !t.minus_one() ==> r == Ok::<T, PipeError>(t),
        t.minus_one() ==> r is Err && r->Err_0 is Os,
{
    let code: i32 = if t.is_minus_one() {
        last_code()
    } else {
        0
    };
    cvt_code(t, code)
}

/// Reports the outcome of an operating-system call as this library does:
/// a failure keeps its code.
pub open spec fn os_outcome<T>(outcome: Result<T, i32>) -> Result<T, PipeError> {
    match outcome {
        Ok(v) => Ok(v),
        Err(code) => Err(PipeError::Os(code)),
    }
}

/// Reports the outcome of an operating-system call as this library does.
pub fn os_result<T>(outcome: Result<T, i32>) -> (r: Result<T, PipeError>)
    ensures
        r == os_outcome(outcome),
{
    match outcome {
        Ok(v) => Ok(v),
        Err(code) => Err(PipeError::Os(code)),
    }
}

/// How many times in a row an interrupted call is tried again.
pub const RETRY_LIMIT: u64 = u64::MAX;

/// Whether the outcome of an attempt asks for another attempt: it does when
/// a signal interrupted the call and retries are left.
pub open spec fn retry_wanted<T>(outcome: Result<T, PipeError>, retries_left: u64) -> bool {
    outcome is Err && outcome->Err_0.interrupted() && retries_left > 0
}

/// Decides whether the call that gave `outcome` is made again.
pub fn should_retry<T>(outcome: &Result<T, PipeError>, retries_left: u64) -> (r: bool)
    ensures
        r == retry_wanted(*outcome, retries_left),
{
    match outcome {
        Ok(_) => false,
        Err(e) => e.is_interrupted() && retries_left > 0,
    }
}

/// Makes the call `f` until its outcome is not an interruption, at most
/// `limit` times more often than once. Returns the last outcome and the
/// number of retries made.
pub fn retry_within<T, F: Fn() -> Result<T, PipeError>>(f: F, limit: u64) -> (r: (
    Result<T, PipeError>,
    u64,
))
    requires
        call_requires(f, ()),
    ensures
        call_ensures(f, (), r.0),
        r.1 <= limit,
        r.0 is Err && r.0->Err_0.interrupted() ==> r.1 == limit,
{
    let mut retries: u64 = 0;
    loop
        invariant
            call_requires(f, ()),
            retries <= limit,
        decreases limit - retries,
    {
        let outcome = f();
        if !should_retry(&outcome, limit - retries) {
            return (outcome, retries);
        }
        retries = retries + 1;
    }
}

/// Makes the call `f` until its outcome is not an interruption, and reports
/// its last outcome as this library does. An interruption is handed back
/// only after `RETRY_LIMIT` retries in a row.
pub fn retry_os<T, F: Fn() -> Result<T, i32>>(f: F) -> (r: Result<T, PipeError>)
    requires
        call_requires(f, ()),
    ensures
        exists|raw: Result<T, i32>| call_ensures(f, (), raw) && r == os_outcome(raw),
        r matches Err(e) ==> e is Os,
{
    let g = &f;
    let call = || -> (o: Result<T, PipeError>)
        requires
            call_requires(g, ()),
        ensures
            exists|raw: Result<T, i32>| call_ensures(g, (), raw) && o == os_outcome(raw),
        { os_result(g()) };
    retry_within(call, RETRY_LIMIT).0
}

/// Makes the C-style call `f` until it fails with something other than an
/// interruption or succeeds, at most `limit` times more often than once.
/// Returns the last outcome and the number of retries made.
pub fn cvt_r_within<T: IsMinusOne, F: Fn() -> T>(f: F, limit: u64) -> (r: (
    Result<T, PipeError>,
    u64,
))
    requires
        call_requires(f, ()),
    ensures
        r.0 matches Ok(v) ==> call_ensures(f, (), v) && !v.minus_one(),
        r.0 matches Err(e) ==> e is Os && exists|v: T| call_ensures(f, (), v) && v.minus_one(),
        r.1 <= limit,
        r.0 is Err && r.0->Err_0.interrupted() ==> r.1 == limit,
{
    let g = &f;
    let call = || -> (o: Result<T, PipeError>)
        requires
            call_requires(g, ()),
        ensures
            o matches Ok(v) ==> call_ensures(g, (), v) && !v.minus_one(),
            o matches Err(e) ==> e is Os && exists|v: T| call_ensures(g, (), v) && v.minus_one(),
        { cvt(g()) };
    retry_within(call, limit)
}

/// Makes the C-style call `f` and converts its return value, trying again
/// while a signal interrupts it. An interruption is handed back only after
/// `RETRY_LIMIT` retries in a row.
pub fn cvt_r<T: IsMinusOne, F: Fn() -> T>(f: F) -> (r: Result<T, PipeError>)
    requires
        call_requires(f, ()),
    ensures
        r matches Ok(v) ==> call_ensures(f, (), v) && !v.minus_one(),
        r matches Err(e) ==> e is Os && exists|v: T| call_ensures(f, (), v) && v.minus_one(),
{
    cvt_r_within(f, RETRY_LIMIT).0
}

} // verus!
