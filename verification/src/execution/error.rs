//! Errors of order execution.

use vstd::prelude::*;

verus! {

/// All errors generated in the execution module.
#[derive(Copy, Clone, Debug, PartialEq, Eq)]
pub enum ExecutionError {
    /// The value of the fill, or one of its fees, is too large to book.
    Overflow,
    /// The venue could not be reached. Simulated execution never reports it.
    Connectivity,
}

} // verus!
