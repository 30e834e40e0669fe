//! The parameter space of the optimization problem.

use vstd::prelude::*;

verus! {

/// The algebraic capabilities the solver needs on the parameter type `P`:
/// scaling by a scalar, vector addition, the inner product and the Euclidean
/// norm.  All operations produce new values; the solver never mutates a
/// parameter in place.
///
/// As with the scalar field, each executable operation is pinned to a
/// specification-level function the implementor defines, so the solver's
/// contracts state the direction recurrence exactly over those functions.
pub trait VectorOps<F>: Sized {
    /// `self` scaled elementwise by `s`.
    spec fn spec_scale(self, s: F) -> Self;

    /// The elementwise sum of `self` and `rhs`.
    spec fn spec_plus(self, rhs: Self) -> Self;

    /// The inner product of `self` and `rhs`.
    spec fn spec_dot(self, rhs: Self) -> F;

    /// The Euclidean norm of `self`.
    spec fn spec_norm(self) -> F;

    /// Returns `self` scaled by `s`.
    fn scale(&self, s: &F) -> (r: Self)
        ensures
            r == self.spec_scale(*s),
    ;

    /// Returns the sum of `self` and `rhs`.
    fn plus(&self, rhs: &Self) -> (r: Self)
        ensures
            r == self.spec_plus(*rhs),
    ;

    /// Returns the inner product of `self` and `rhs`.
    fn dot(&self, rhs: &Self) -> (r: F)
        ensures
            r == self.spec_dot(*rhs),
    ;

    /// Returns the Euclidean norm of `self`.
    fn norm(&self) -> (r: F)
        ensures
            r == self.spec_norm(),
    ;

    /// Returns a value equal to `self`.
    fn duplicate(&self) -> (r: Self)
        ensures
            r == *self,
    ;
}

} // verus!
