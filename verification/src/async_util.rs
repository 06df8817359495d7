//! Folding the outcome of a time-bounded call into a single result.

use vstd::prelude::*;

verus! {

/// Why a time-bounded call produced no value.
#[derive(Debug, PartialEq, Eq)]
pub enum TimeoutError<E> {
    /// The time bound passed before the call finished.
    TimedOut,
    /// The call finished in time, with its own error.
    Failed(E),
}

/// What `timeout` returns for an outcome: `None` stands for a call that did
/// not finish within its bound.
pub open spec fn spec_timeout<T, E>(outcome: Option<Result<T, E>>) -> Result<T, TimeoutError<E>> {
    match outcome {
        None => Err(TimeoutError::TimedOut),
        Some(Ok(value)) => Ok(value),
        Some(Err(error)) => Err(TimeoutError::Failed(error)),
    }
}

/// Flattens the outcome of a time-bounded call: a value in time is passed on,
/// an error in time is kept as the cause, and a missed bound is `TimedOut`.
pub fn timeout<T, E>(outcome: Option<Result<T, E>>) -> (r: Result<T, TimeoutError<E>>)
    ensures
        r == spec_timeout(outcome),
{
    match outcome {
        None => Err(TimeoutError::TimedOut),
        Some(Ok(value)) => Ok(value),
        Some(Err(error)) => Err(TimeoutError::Failed(error)),
    }
}

} // verus!
