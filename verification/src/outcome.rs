//! What a pattern hands back: the lists it observed, or why it could not run.
use vstd::prelude::*;

verus! {

/// Why a pattern did not run to its end.
#[derive(Clone, Copy, Debug, PartialEq, Eq, Structural)]
pub enum CaseError {
    /// A worker ended abnormally, so joining it gave no result.
    WorkerJoinFailure,
    /// A guarded cell or a lock did not give access to the list expected:
    /// it was held elsewhere, or poisoned by a worker that failed while
    /// holding it, or it showed another list than the one left in it.
    LockUnavailable,
}

/// A list as it was before a pattern ran and as it is after.
#[derive(Debug)]
pub struct Observation {
    pub before: Vec<i32>,
    pub after: Vec<i32>,
}

/// Turns what joining a worker gave into the pattern's result: the worker's
/// value where there is one, `WorkerJoinFailure` where there is none.
pub fn joined<T>(result: Option<T>) -> (outcome: Result<T, CaseError>)
    ensures
        outcome == (match result {
            Some(value) => Ok::<T, CaseError>(value),
            None => Err::<T, CaseError>(CaseError::WorkerJoinFailure),
        }),
{
    match result {
        Some(value) => Ok(value),
        None => Err(CaseError::WorkerJoinFailure),
    }
}

/// The exit status of a run in which `failures` patterns reported an error:
/// zero when none did, one otherwise.
pub fn exit_status(failures: usize) -> (status: i32)
    ensures
        status == (if failures == 0 { 0i32 } else { 1i32 }),
{
    if failures == 0 {
        0
    } else {
        1
    }
}

} // verus!
