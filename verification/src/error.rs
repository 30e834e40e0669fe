//! Failure kinds surfaced by the solver.

use vstd::prelude::*;

verus! {

/// A failure reported by the objective oracle while evaluating the cost or
/// the gradient.  The code identifies the underlying cause to the caller;
/// the solver carries it through unchanged.
#[derive(Clone, Copy, Debug, PartialEq, Eq, Structural)]
pub struct OracleError {
    pub code: u64,
}

/// A failure of the line-search sub-solver to meet its own stopping
/// criterion.  The code identifies the underlying cause to the caller; the
/// solver carries it through unchanged.
#[derive(Clone, Copy, Debug, PartialEq, Eq, Structural)]
pub struct LineSearchError {
    pub code: u64,
}

/// Everything that can make a call to `init` or `next_iter` fail.  The
/// solver attempts no recovery: each failure ends the step and is handed to
/// the caller unchanged.
#[derive(Clone, Copy, Debug, PartialEq, Eq, Structural)]
pub enum Error {
    /// The oracle failed to evaluate the cost or the gradient.
    OracleFailure(OracleError),
    /// The line search failed to produce a new iterate.
    LineSearchFailure(LineSearchError),
    /// `next_iter` was called before `init` established a search direction.
    NotInitialized,
}

} // verus!
