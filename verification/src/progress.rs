//! The three-way outcome of a cooperative, non-blocking operation.

use vstd::prelude::*;

verus! {

/// Outcome of one non-blocking step: finished, not ready yet, or failed.
///
/// `Pending` is the suspension signal. It is not an error: the same operation
/// is to be tried again once the connection can make progress.
#[derive(Debug, PartialEq, Eq)]
pub enum Progress<T, E> {
    /// The operation finished with a value.
    Done(T),
    /// The operation could not make progress yet and must be retried later.
    Pending,
    /// The operation failed for good.
    Failed(E),
}

} // verus!
