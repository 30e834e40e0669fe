//! The pluggable rule that computes the blend coefficient beta.

use vstd::prelude::*;
use crate::scalar::ScalarOps;
use crate::vector::VectorOps;

verus! {

/// A stateless rule mapping the previous gradient, the new gradient and the
/// previous search direction to the blend coefficient beta.  Concrete rules
/// (Fletcher-Reeves, Polak-Ribiere, Hestenes-Stiefel, Dai-Yuan, ...) are
/// supplied by the caller; the solver imposes no constraint on the returned
/// value and uses it only through this contract.
pub trait BetaUpdate<P, F>: Sized {
    /// The coefficient this rule assigns to the triple
    /// (previous gradient, new gradient, previous direction).
    spec fn spec_update(self, g: P, g_next: P, p: P) -> F;

    /// Computes the coefficient for the given gradients and direction.
    fn update(&self, g: &P, g_next: &P, p: &P) -> (r: F)
        ensures
            r == self.spec_update(*g, *g_next, *p),
    ;
}

/// The common default rule, Polak-Ribiere: the coefficient is
/// `<g_next, g_next - g> / <g, g>`, the difference formed over the
/// capability set as `g_next + (-1) * g`.
#[derive(Clone, Copy, Debug)]
pub struct PolakRibiere;

impl<P: VectorOps<F>, F: ScalarOps> BetaUpdate<P, F> for PolakRibiere {
    open spec fn spec_update(self, g: P, g_next: P, p: P) -> F {
        g_next.spec_dot(g_next.spec_plus(g.spec_scale(F::spec_neg_one()))).spec_div_by(
            g.spec_dot(g),
        )
    }

    fn update(&self, g: &P, g_next: &P, _p: &P) -> F {
        let diff = g_next.plus(&g.scale(&F::neg_one()));
        g_next.dot(&diff).div_by(&g.dot(g))
    }
}

} // verus!
