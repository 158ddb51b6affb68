//! Checks on loans.

use crate::custom_errors::app_error::AppError;
use crate::library::Library;
use crate::workflow::{Outcome, Task};
use vstd::prelude::*;

verus! {

/// Whether the loan with the id `id` is closed; `NotFound` if there is no
/// such loan.
pub fn check_if_already_returned(store: &mut Library, id: &String) -> (closed: Result<
    bool,
    AppError,
>)
    ensures
        final(store)@ == old(store)@,
        closed == old(store)@.already_returned(id@),
{
    let result = store.perform(Task::AlreadyReturned(id.clone()));
    proof {
        old(store)@.lemma_single_reads();
    }
    match result {
        Ok(Outcome::Flag(closed)) => Ok(closed),
        Ok(_) => Err(AppError::InternalError),
        Err(error) => Err(error),
    }
}

} // verus!
