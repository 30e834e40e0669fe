//! The scalar field of the optimization problem.

use vstd::prelude::*;

verus! {

/// The operations the solver needs on the scalar type `F` (costs, the beta
/// coefficient, the orthogonality threshold).  Each executable operation is
/// pinned to a specification-level function that the implementor defines, so
/// the solver's contracts can speak of scalar arithmetic exactly, without
/// fixing a particular number representation.
///
/// The solver never constructs scalars except through `zero` and `neg_one`,
/// and the only decisions it takes on scalars go through `is_zero` and
/// `at_least`.
pub trait ScalarOps: Sized + Copy {
    /// The additive identity of the field.
    spec fn spec_zero() -> Self;

    /// The negation of the multiplicative identity.
    spec fn spec_neg_one() -> Self;

    /// The absolute value of `self`.
    spec fn spec_abs(self) -> Self;

    /// The product of `self` and `rhs`.
    spec fn spec_times(self, rhs: Self) -> Self;

    /// The quotient of `self` by `rhs`.
    spec fn spec_div_by(self, rhs: Self) -> Self;

    /// Whether `self` is the additive identity.
    spec fn spec_is_zero(self) -> bool;

    /// Whether `self` is greater than or equal to `rhs`.
    spec fn spec_at_least(self, rhs: Self) -> bool;

    /// Returns the additive identity.
    fn zero() -> (r: Self)
        ensures
            r == Self::spec_zero(),
    ;

    /// Returns the negation of the multiplicative identity.
    fn neg_one() -> (r: Self)
        ensures
            r == Self::spec_neg_one(),
    ;

    /// Returns the absolute value of `self`.
    fn abs(&self) -> (r: Self)
        ensures
            r == self.spec_abs(),
    ;

    /// Returns the product of `self` and `rhs`.
    fn times(&self, rhs: &Self) -> (r: Self)
        ensures
            r == self.spec_times(*rhs),
    ;

    /// Returns the quotient of `self` by `rhs`.  The solver only divides by
    /// values on which `is_zero` returned false.
    fn div_by(&self, rhs: &Self) -> (r: Self)
        ensures
            r == self.spec_div_by(*rhs),
    ;

    /// Tests whether `self` is the additive identity.
    fn is_zero(&self) -> (r: bool)
        ensures
            r == self.spec_is_zero(),
    ;

    /// Tests whether `self` is greater than or equal to `rhs`.
    fn at_least(&self, rhs: &Self) -> (r: bool)
        ensures
            r == self.spec_at_least(*rhs),
    ;
}

} // verus!
