//! The guarantees of the restart policy and of the configuration setters,
//! stated once and proved from the step relation.

use vstd::prelude::*;
use vstd::arithmetic::div_mod::lemma_mod_multiples_basic;
use vstd::arithmetic::mul::lemma_mul_increases;
use crate::beta::BetaUpdate;
use crate::scalar::ScalarOps;
use crate::solver::{
    iteration_restart, next_iter_post, orthogonality_restart, IterData, NonlinearConjugateGradient,
};
use crate::vector::VectorOps;

verus! {

/// Restart after N: on any step whose iteration index is a positive multiple
/// of the configured interval, the iteration restart fires, the emitted
/// coefficient is exactly zero, and the solver records a zero coefficient.
pub proof fn lemma_restart_after_n<P, L, B, F>(
    pre: NonlinearConjugateGradient<P, L, B, F>,
    post: NonlinearConjugateGradient<P, L, B, F>,
    d: IterData<P, F>,
    g: P,
    j: u64,
) where P: VectorOps<F>, B: BetaUpdate<P, F>, F: ScalarOps
    requires
        next_iter_post(pre, post, d, g, (j * pre.restart_iter) as u64),
        1 <= pre.restart_iter,
        1 <= j,
        j * pre.restart_iter <= u64::MAX,
    ensures
        iteration_restart((j * pre.restart_iter) as u64, pre.restart_iter),
        d.kv is Some,
        d.kv matches Some(kv) ==> kv.restart_iter && kv.beta == F::spec_zero(),
        post.beta == Some(F::spec_zero()),
{
    let n = pre.restart_iter;
    lemma_mod_multiples_basic(j as int, n as int);
    lemma_mul_increases(j as int, n as int);
}

/// Orthogonality restart: on a step where the configured threshold is met by
/// the measured ratio, the Powell restart fires, the emitted coefficient is
/// exactly zero, and the solver records a zero coefficient.
pub proof fn lemma_orthogonality_restart_zeroes_beta<P, L, B, F>(
    pre: NonlinearConjugateGradient<P, L, B, F>,
    post: NonlinearConjugateGradient<P, L, B, F>,
    d: IterData<P, F>,
    g: P,
    k: u64,
) where P: VectorOps<F>, B: BetaUpdate<P, F>, F: ScalarOps
    requires
        next_iter_post(pre, post, d, g, k),
        orthogonality_restart(pre.restart_orthogonality, g, d.grad),
    ensures
        d.kv is Some,
        d.kv matches Some(kv) ==> kv.restart_orthogonality && kv.beta == F::spec_zero(),
        post.beta == Some(F::spec_zero()),
{
}

/// When neither restart fires on a step, the emitted coefficient is the beta
/// rule's output, to full precision, and the solver records that output.
pub proof fn lemma_no_restart_uses_beta_rule<P, L, B, F>(
    pre: NonlinearConjugateGradient<P, L, B, F>,
    post: NonlinearConjugateGradient<P, L, B, F>,
    d: IterData<P, F>,
    g: P,
    k: u64,
) where P: VectorOps<F>, B: BetaUpdate<P, F>, F: ScalarOps
    requires
        next_iter_post(pre, post, d, g, k),
        !iteration_restart(k, pre.restart_iter),
        !orthogonality_restart(pre.restart_orthogonality, g, d.grad),
    ensures
        pre.p is Some,
        d.kv is Some,
        d.kv matches Some(kv) ==> {
            &&& !kv.restart_iter
            &&& !kv.restart_orthogonality
            &&& (pre.p matches Some(p) ==> kv.beta == pre.beta_method.spec_update(g, d.grad, p))
        },
{
}

/// Steepest-descent equivalence: with a restart interval of one, every step
/// past the first restarts, and whenever scaling a direction by zero and
/// adding it changes nothing (the hypothesis below, which any exact vector
/// arithmetic meets), the new direction is exactly the negative new
/// gradient, as in pure steepest descent.
pub proof fn lemma_restart_iters_one_is_steepest_descent<P, L, B, F>(
    pre: NonlinearConjugateGradient<P, L, B, F>,
    post: NonlinearConjugateGradient<P, L, B, F>,
    d: IterData<P, F>,
    g: P,
    k: u64,
) where P: VectorOps<F>, B: BetaUpdate<P, F>, F: ScalarOps
    requires
        next_iter_post(pre, post, d, g, k),
        pre.restart_iter == 1,
        1 <= k,
        forall|a: P, b: P| #[trigger] a.spec_plus(b.spec_scale(F::spec_zero())) == a,
    ensures
        post.p == Some(d.grad.spec_scale(F::spec_neg_one())),
        post.beta == Some(F::spec_zero()),
{
    lemma_mod_multiples_basic(k as int, 1int);
    assert(iteration_restart(k, 1));
}

/// Applying the restart-interval setter several times is the same as
/// applying it once with the last value.
pub proof fn lemma_restart_iters_idempotent<P, L, B, F>(
    s: NonlinearConjugateGradient<P, L, B, F>,
    a: u64,
    b: u64,
)
    ensures
        s.with_restart_iters(a).with_restart_iters(b) == s.with_restart_iters(b),
{
}

/// Applying the orthogonality setter several times is the same as applying
/// it once with the last value.
pub proof fn lemma_restart_orthogonality_idempotent<P, L, B, F>(
    s: NonlinearConjugateGradient<P, L, B, F>,
    a: F,
    b: F,
)
    ensures
        s.with_restart_orthogonality(a).with_restart_orthogonality(b) == s.with_restart_orthogonality(b),
{
}

/// The two setters may be applied in either order with the same outcome, so
/// any sequence of setter applications comes down to the last value given to
/// each.
pub proof fn lemma_setters_commute<P, L, B, F>(
    s: NonlinearConjugateGradient<P, L, B, F>,
    n: u64,
    v: F,
)
    ensures
        s.with_restart_iters(n).with_restart_orthogonality(v) == s.with_restart_orthogonality(
            v,
        ).with_restart_iters(n),
{
}

} // verus!
