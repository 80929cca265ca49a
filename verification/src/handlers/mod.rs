//! What the HTTP handlers decide around their reads of the table.

pub mod syscalls;

use vstd::prelude::*;

use crate::error::AppError;

verus! {

/// The answer to a lookup of one item: what the store returned, a read
/// failure passed on, or `NotFound` when the store has no such item.
pub open spec fn lookup_answer<T>(read: Result<Option<T>, AppError>) -> Result<T, AppError> {
    match read {
        Ok(Some(v)) => Ok(v),
        Ok(None) => Err(AppError::NotFound),
        Err(e) => Err(e),
    }
}

/// Turns the store's reply to a single-item lookup into the handler's
/// answer.
pub fn answer_lookup<T>(read: Result<Option<T>, AppError>) -> (r: Result<T, AppError>)
    ensures
        r == lookup_answer(read),
{
    match read {
        Ok(Some(v)) => Ok(v),
        Ok(None) => Err(AppError::NotFound),
        Err(e) => Err(e),
    }
}

/// A found item is answered as stored, a missing one with `NotFound`
/// (404), and a failed read with its own error.
pub proof fn lemma_lookup_answers<T>(v: T, e: AppError)
    ensures
        lookup_answer(Ok::<Option<T>, AppError>(Some(v))) == Ok::<T, AppError>(v),
        lookup_answer(Ok::<Option<T>, AppError>(None::<T>)) == Err::<T, AppError>(AppError::NotFound),
        lookup_answer(Err::<Option<T>, AppError>(e)) == Err::<T, AppError>(e),
        AppError::NotFound@.status() == 404,
{
}

} // verus!
