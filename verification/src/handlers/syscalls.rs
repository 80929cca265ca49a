use vstd::prelude::*;

use crate::error::{AppError, AppErrorView};
use crate::text::{parse_u32, spec_parse_u32};

verus! {

/// What a malformed syscall number in a path is answered with.
pub open spec fn bad_number_message() -> Seq<char> {
    "number must be a non-negative 32-bit integer"@
}

/// Reads the `{number}` segment of `/v1/{os}/{arch}/syscalls/number/{number}`:
/// a 32-bit unsigned number as `str::parse::<u32>` reads it, or a
/// `BadRequest` that says what was expected.
pub fn parse_syscall_number(number: &str) -> (r: Result<u32, AppError>)
    ensures
        match spec_parse_u32(number@) {
            Some(n) => r == Ok::<u32, AppError>(n),
            None => r matches Err(e) && e@ == AppErrorView::BadRequest(bad_number_message()),
        },
{
    match parse_u32(number) {
        Some(n) => Ok(n),
        None => Err(AppError::BadRequest("number must be a non-negative 32-bit integer".to_owned())),
    }
}

} // verus!
