//! Errors of the frontend.

use vstd::prelude::*;

verus! {

/// Errors raised while planning and executing queries.
#[derive(Debug)]
pub enum DorisError {
    /// A query could not be planned or executed.
    QueryExecution(String),
    /// The query queue is at its capacity.
    QueueFull,
}

} // verus!
