//! The nested one-dimensional sub-solver.

use vstd::prelude::*;
use crate::error::Error;
use crate::oracle::{extends, OpWrapper, Oracle};

verus! {

/// A line search: a full sub-solver that, given a search direction and a
/// starting point with its gradient and cost, finds an acceptable step along
/// the direction and returns the resulting point.  Its termination criteria
/// (Wolfe, strong Wolfe, ...) are its own affair; the solver depends only on
/// the sub-solver converging or reporting failure.
///
/// Two specification-level views, defined by the implementor, let callers
/// speak of the search's state: the direction it is configured with and the
/// outcome of its most recent run.  Implementations must route every cost
/// and gradient evaluation through the borrowed wrapper, so the evaluations
/// accrue to the outer run's counters and log: the counters never decrease,
/// the log only grows, and the counter-log tie is kept.  A failing run
/// reports either its own failure or the oracle's, nothing else.
pub trait LineSearch<P, F> {
    /// The direction the search is configured with, if any.
    spec fn spec_direction(&self) -> Option<P>;

    /// What the most recent run returned, if any run was made.
    spec fn spec_outcome(&self) -> Option<Result<P, Error>>;

    /// Configures the direction along which the next `run` searches.
    fn set_search_direction(&mut self, direction: P)
        ensures
            final(self).spec_direction() == Some(direction),
    ;

    /// Searches from `x` (with gradient `g` and cost `f` at `x`) along the
    /// configured direction and returns the new point, or the failure of the
    /// sub-solver or of the oracle, unchanged.
    fn run<O: Oracle<P, F>>(
        &mut self,
        op: &mut OpWrapper<O, P, F>,
        x: &P,
        g: &P,
        f: &F,
    ) -> (r: Result<P, Error>)
        ensures
            final(op).spec_cost_count() >= old(op).spec_cost_count(),
            final(op).spec_grad_count() >= old(op).spec_grad_count(),
            extends(final(op).spec_log(), old(op).spec_log()),
            old(op).counts_match_log() ==> final(op).counts_match_log(),
            final(self).spec_direction() == old(self).spec_direction(),
            final(self).spec_outcome() == Some(r),
            r matches Err(e) ==> e is OracleFailure || e is LineSearchFailure,
    ;
}

} // verus!
