//! The nonlinear conjugate gradient driver.

use vstd::prelude::*;
use crate::beta::BetaUpdate;
use crate::error::{Error, OracleError};
use crate::linesearch::LineSearch;
use crate::oracle::{
    extends, failed_last, lemma_extends_refl, lemma_extends_trans, lemma_push_extends, sat_inc,
    Event, OpWrapper, Oracle,
};
use crate::scalar::ScalarOps;
use crate::vector::VectorOps;

verus! {

/// The diagnostics emitted once per completed step: the blend coefficient
/// that was applied and which restart predicates fired.
#[derive(Clone, Copy, Debug)]
pub struct Diagnostics<F> {
    /// The coefficient used in the direction update of this step.
    pub beta: F,
    /// Whether the iteration-count restart fired on this step.
    pub restart_iter: bool,
    /// Whether the orthogonality (Powell) restart fired on this step.
    pub restart_orthogonality: bool,
}

/// What one call to `init` or `next_iter` hands back to the driver: the new
/// iterate with its cost and gradient, and the diagnostics of the step.
/// `init` emits no diagnostics, so the field is optional.
#[derive(Debug)]
pub struct IterData<P, F> {
    /// The new iterate.
    pub param: P,
    /// The cost at the new iterate.
    pub cost: F,
    /// The gradient at the new iterate.
    pub grad: P,
    /// The per-step diagnostics; absent after `init`.
    pub kv: Option<Diagnostics<F>>,
}

/// The nonlinear conjugate gradient method: a generalization of the
/// conjugate gradient method to nonlinear unconstrained minimization.  It
/// owns the current search direction, the last blend coefficient, the
/// restart configuration and the line-search instance; the iterate itself is
/// owned by the caller and passed through each step.
#[derive(Clone)]
pub struct NonlinearConjugateGradient<P, L, B, F> {
    /// The current search direction; absent until `init` establishes it.
    pub p: Option<P>,
    /// The most recent blend coefficient; absent until a step completes.
    pub beta: Option<F>,
    /// The line-search sub-solver.
    pub linesearch: L,
    /// The rule that computes the blend coefficient.
    pub beta_method: B,
    /// Restart every this many iterations; `u64::MAX` means effectively never.
    pub restart_iter: u64,
    /// The orthogonality threshold for the Powell restart, if enabled.
    pub restart_orthogonality: Option<F>,
}

/// Whether the iteration-count restart fires at iteration `k` under the
/// interval `n`: `k` is a positive multiple of `n`.  Iteration zero never
/// triggers a restart.
pub open spec fn iteration_restart(k: u64, n: u64) -> bool {
    k != 0 && k % n == 0
}

/// Whether the Powell restart fires: a threshold `nu` is configured and the
/// measured ratio `|<g_next, g>| / ||g_next||^2` reaches it.  When the
/// squared norm is the additive identity the ratio is undefined and the
/// predicate is false; detecting the zero gradient is the outer driver's
/// business.
pub open spec fn orthogonality_restart<P: VectorOps<F>, F: ScalarOps>(
    cfg: Option<F>,
    g: P,
    g_next: P,
) -> bool {
    match cfg {
        Some(nu) => {
            let nsq = g_next.spec_norm().spec_times(g_next.spec_norm());
            &&& !nsq.spec_is_zero()
            &&& g_next.spec_dot(g).spec_abs().spec_div_by(nsq).spec_at_least(nu)
        },
        None => false,
    }
}

/// The direction recurrence: the next direction is the negative new gradient
/// blended with the previous direction, `-g_next + beta * p`.
pub open spec fn direction_update<P: VectorOps<F>, F: ScalarOps>(g_next: P, p: P, beta: F) -> P {
    g_next.spec_scale(F::spec_neg_one()).spec_plus(p.spec_scale(beta))
}

/// Everything a successful `next_iter` guarantees about the solver state and
/// the returned data, given the gradient `g` that was used at the starting
/// iterate (the cached one if the caller supplied it, otherwise the one the
/// oracle returned): which restarts fired, which coefficient was applied,
/// the direction recurrence, and that the configuration is untouched.
pub open spec fn next_iter_post<P, L, B, F>(
    pre: NonlinearConjugateGradient<P, L, B, F>,
    post: NonlinearConjugateGradient<P, L, B, F>,
    d: IterData<P, F>,
    g: P,
    k: u64,
) -> bool where P: VectorOps<F>, B: BetaUpdate<P, F>, F: ScalarOps {
    match pre.p {
        Some(p) => {
            let restart_i = iteration_restart(k, pre.restart_iter);
            let restart_o = orthogonality_restart(pre.restart_orthogonality, g, d.grad);
            let beta = if restart_i || restart_o {
                F::spec_zero()
            } else {
                pre.beta_method.spec_update(g, d.grad, p)
            };
            &&& d.kv == Some(
                Diagnostics { beta, restart_iter: restart_i, restart_orthogonality: restart_o },
            )
            &&& post.p == Some(direction_update(d.grad, p, beta))
            &&& post.beta == Some(beta)
            &&& post.restart_iter == pre.restart_iter
            &&& post.restart_orthogonality == pre.restart_orthogonality
            &&& post.beta_method == pre.beta_method
        },
        None => false,
    }
}

impl<P, L, B, F> NonlinearConjugateGradient<P, L, B, F> {
    /// A valid restart interval is positive; `new` and `restart_iters`
    /// maintain this, and `next_iter` relies on it.
    pub open spec fn wf(&self) -> bool {
        1 <= self.restart_iter
    }

    /// `self` with the restart interval replaced.
    pub open spec fn with_restart_iters(self, iters: u64) -> Self {
        NonlinearConjugateGradient {
            p: self.p,
            beta: self.beta,
            linesearch: self.linesearch,
            beta_method: self.beta_method,
            restart_iter: iters,
            restart_orthogonality: self.restart_orthogonality,
        }
    }

    /// `self` with the orthogonality threshold replaced.
    pub open spec fn with_restart_orthogonality(self, v: F) -> Self {
        NonlinearConjugateGradient {
            p: self.p,
            beta: self.beta,
            linesearch: self.linesearch,
            beta_method: self.beta_method,
            restart_iter: self.restart_iter,
            restart_orthogonality: Some(v),
        }
    }

    /// Constructs the solver around a line search and a beta rule, with no
    /// direction or coefficient yet, restarts effectively never by count,
    /// and the orthogonality restart disabled.
    pub fn new(linesearch: L, beta_method: B) -> (r: Result<Self, Error>)
        ensures
            r is Ok,
            r matches Ok(s) ==> {
                &&& s.p is None
                &&& s.beta is None
                &&& s.linesearch == linesearch
                &&& s.beta_method == beta_method
                &&& s.restart_iter == u64::MAX
                &&& s.restart_orthogonality is None
                &&& s.wf()
            },
    {
        Ok(
            NonlinearConjugateGradient {
                p: None,
                beta: None,
                linesearch,
                beta_method,
                restart_iter: u64::MAX,
                restart_orthogonality: None,
            },
        )
    }

    /// Specifies the number of iterations after which a restart is
    /// performed, letting the algorithm forget previous information that may
    /// no longer be helpful.
    #[must_use]
    pub fn restart_iters(self, iters: u64) -> (r: Self)
        requires
            1 <= iters,
        ensures
            r == self.with_restart_iters(iters),
    {
        NonlinearConjugateGradient {
            p: self.p,
            beta: self.beta,
            linesearch: self.linesearch,
            beta_method: self.beta_method,
            restart_iter: iters,
            restart_orthogonality: self.restart_orthogonality,
        }
    }

    /// Sets the orthogonality measure: the algorithm restarts (the
    /// coefficient becomes zero) on a step where two consecutive gradients
    /// are no longer sufficiently orthogonal, that is where
    /// `|<g_next, g>| / ||g_next||^2` reaches `v`.  A typical value for `v`
    /// is one tenth.
    #[must_use]
    pub fn restart_orthogonality(self, v: F) -> (r: Self)
        ensures
            r == self.with_restart_orthogonality(v),
    {
        NonlinearConjugateGradient {
            p: self.p,
            beta: self.beta,
            linesearch: self.linesearch,
            beta_method: self.beta_method,
            restart_iter: self.restart_iter,
            restart_orthogonality: Some(v),
        }
    }
}

/// What `init` leaves in the evaluation log, given the log before the call:
/// on success, exactly one cost and then one gradient evaluation at `x0`,
/// whose responses are the returned cost and gradient; on failure, the same
/// evaluations up to and including the failing one, whose logged error is
/// the one surfaced, unchanged.
pub open spec fn init_log<P, F>(
    pre: Seq<Event<P, F>>,
    post: Seq<Event<P, F>>,
    x0: P,
    r: Result<IterData<P, F>, Error>,
) -> bool {
    match r {
        Ok(d) => post == pre.push(Event::Cost(x0, Ok(d.cost))).push(
            Event::Gradient(x0, Ok(d.grad)),
        ),
        Err(e) => match e {
            Error::OracleFailure(oe) => {
                ||| post == pre.push(Event::Cost(x0, Err(oe)))
                ||| exists|c: F|
                    post == (#[trigger] pre.push(Event::Cost(x0, Ok(c)))).push(
                        Event::Gradient(x0, Err(oe)),
                    )
            },
            _ => false,
        },
    }
}

impl<P, L, B, F> NonlinearConjugateGradient<P, L, B, F> where
    P: VectorOps<F>,
    L: LineSearch<P, F>,
    B: BetaUpdate<P, F>,
    F: ScalarOps,
 {
    /// Evaluates the cost and the gradient at `x0`, once each and in that
    /// order, establishes the initial direction as the negative of the
    /// gradient the oracle returned, and returns the starting point with
    /// that cost and gradient.  On an oracle failure the solver is left
    /// unchanged and the logged error is surfaced unchanged.
    pub fn init<O: Oracle<P, F>>(&mut self, op: &mut OpWrapper<O, P, F>, x0: P) -> (r: Result<
        IterData<P, F>,
        Error,
    >)
        ensures
            init_log(old(op).spec_log(), final(op).spec_log(), x0, r),
            old(op).counts_match_log() ==> final(op).counts_match_log(),
            final(op).spec_cost_count() == sat_inc(old(op).spec_cost_count()),
            r matches Ok(d) ==> {
                &&& final(self).p == Some(d.grad.spec_scale(F::spec_neg_one()))
                &&& final(self).beta == old(self).beta
                &&& final(self).linesearch == old(self).linesearch
                &&& final(self).beta_method == old(self).beta_method
                &&& final(self).restart_iter == old(self).restart_iter
                &&& final(self).restart_orthogonality == old(self).restart_orthogonality
                &&& d.param == x0
                &&& d.kv is None
                &&& final(op).spec_grad_count() == sat_inc(old(op).spec_grad_count())
            },
            r matches Err(e) ==> {
                &&& *final(self) == *old(self)
                &&& e is OracleFailure
                &&& (final(op).spec_grad_count() == old(op).spec_grad_count()
                    || final(op).spec_grad_count() == sat_inc(old(op).spec_grad_count()))
            },
    {
        let cost = match op.apply(&x0) {
            Ok(c) => c,
            Err(e) => {
                return Err(Error::OracleFailure(e));
            },
        };
        let grad = match op.gradient(&x0) {
            Ok(g) => g,
            Err(e) => {
                proof {
                    assert(op.spec_log() == old(op).spec_log().push(
                        Event::Cost(x0, Ok(cost)),
                    ).push(Event::Gradient(x0, Err(e))));
                }
                return Err(Error::OracleFailure(e));
            },
        };
        self.p = Some(grad.scale(&F::neg_one()));
        Ok(IterData { param: x0, cost, grad, kv: None })
    }

    /// Advances one iteration from `xk` (cost `fk`, iteration index `k`):
    /// obtains the gradient at `xk` (the cached `gk` if the caller kept it,
    /// else from the oracle), hands the current direction to the line search
    /// and runs it, re-evaluates the gradient at the point it returned,
    /// decides the restarts, applies the beta rule or the restart, updates
    /// the direction, evaluates the new cost, and reports it all: the
    /// returned iterate is the line search's outcome, and the returned
    /// gradient and cost are the oracle's logged responses at it.
    ///
    /// Called before `init`, it fails with `NotInitialized` and changes
    /// nothing.  Any other failure is the line search's outcome or a logged
    /// oracle error, surfaced unchanged; it ends the step and leaves every
    /// field except the line-search instance as it was.
    pub fn next_iter<O: Oracle<P, F>>(
        &mut self,
        op: &mut OpWrapper<O, P, F>,
        xk: P,
        gk: Option<P>,
        fk: F,
        k: u64,
    ) -> (r: Result<IterData<P, F>, Error>)
        requires
            old(self).wf(),
        ensures
            r is Ok ==> old(self).p is Some,
            old(self).p is None ==> r == Err::<IterData<P, F>, Error>(Error::NotInitialized)
                && *final(self) == *old(self) && *final(op) == *old(op),
            r matches Err(e) ==> (e is NotInitialized ==> old(self).p is None),
            r matches Err(e) ==> (old(self).p is Some ==> e is OracleFailure
                || e is LineSearchFailure),
            r matches Err(e) ==> (old(self).p is Some ==> (final(self).linesearch.spec_outcome()
                == Some(Err::<P, Error>(e)) || (e matches Error::OracleFailure(oe) && failed_last(
                final(op).spec_log(),
                oe,
            )))),
            r is Err ==> {
                &&& final(self).p == old(self).p
                &&& final(self).beta == old(self).beta
                &&& final(self).beta_method == old(self).beta_method
                &&& final(self).restart_iter == old(self).restart_iter
                &&& final(self).restart_orthogonality == old(self).restart_orthogonality
            },
            final(op).spec_cost_count() >= old(op).spec_cost_count(),
            final(op).spec_grad_count() >= old(op).spec_grad_count(),
            old(op).counts_match_log() ==> final(op).counts_match_log(),
            extends(final(op).spec_log(), old(op).spec_log()),
            r matches Ok(d) ==> final(self).linesearch.spec_direction() == old(self).p
                && final(self).linesearch.spec_outcome() == Some(Ok::<P, Error>(d.param)),
            r matches Ok(d) ==> ({
                let base = old(op).spec_log();
                let fin = final(op).spec_log();
                &&& base.len() + (if gk is Some { 0int } else { 1int }) + 2 <= fin.len()
                &&& (gk matches Some(g) ==> next_iter_post(*old(self), *final(self), d, g, k))
                &&& (gk is None ==> match fin[base.len() as int] {
                    Event::Gradient(xg, rg) => xg == xk && match rg {
                        Ok(g) => next_iter_post(*old(self), *final(self), d, g, k),
                        Err(_) => false,
                    },
                    _ => false,
                })
                &&& fin[fin.len() - 2] == Event::<P, F>::Gradient(d.param, Ok(d.grad))
                &&& fin[fin.len() - 1] == Event::<P, F>::Cost(d.param, Ok(d.cost))
            }),
    {
        let ghost pre = *old(self);
        let ghost base = op.spec_log();
        let p_old = match &self.p {
            Some(pp) => pp.duplicate(),
            None => {
                proof {
                    lemma_extends_refl(base);
                }
                return Err(Error::NotInitialized);
            },
        };
        let g = match gk {
            Some(g) => {
                proof {
                    lemma_extends_refl(base);
                }
                g
            },
            None => match op.gradient(&xk) {
                Ok(g) => {
                    proof {
                        lemma_push_extends(base, Event::Gradient(xk, Ok(g)));
                    }
                    g
                },
                Err(e) => {
                    proof {
                        lemma_push_extends(base, Event::Gradient(xk, Err(e)));
                    }
                    return Err(Error::OracleFailure(e));
                },
            },
        };
        let ghost log_refreshed = op.spec_log();
        self.linesearch.set_search_direction(p_old.duplicate());
        let x_next = match self.linesearch.run(op, &xk, &g, &fk) {
            Ok(x) => x,
            Err(e) => {
                proof {
                    lemma_extends_trans(op.spec_log(), log_refreshed, base);
                }
                return Err(e);
            },
        };
        let ghost log_searched = op.spec_log();
        let g_next = match op.gradient(&x_next) {
            Ok(gn) => gn,
            Err(e) => {
                proof {
                    lemma_push_extends(log_searched, Event::Gradient(x_next, Err(e)));
                    lemma_extends_trans(op.spec_log(), log_searched, log_refreshed);
                    lemma_extends_trans(op.spec_log(), log_refreshed, base);
                }
                return Err(Error::OracleFailure(e));
            },
        };
        let restart_o: bool = match &self.restart_orthogonality {
            Some(nu) => {
                let n = g_next.norm();
                let nsq = n.times(&n);
                if nsq.is_zero() {
                    false
                } else {
                    g_next.dot(&g).abs().div_by(&nsq).at_least(nu)
                }
            },
            None => false,
        };
        let restart_i: bool = k % self.restart_iter == 0 && k != 0;
        let beta = if restart_i || restart_o {
            F::zero()
        } else {
            self.beta_method.update(&g, &g_next, &p_old)
        };
        let p_next = g_next.scale(&F::neg_one()).plus(&p_old.scale(&beta));
        let ghost log_regrad = op.spec_log();
        proof {
            lemma_push_extends(log_searched, Event::Gradient(x_next, Ok(g_next)));
        }
        let cost = match op.apply(&x_next) {
            Ok(c) => c,
            Err(e) => {
                proof {
                    lemma_push_extends(log_regrad, Event::Cost(x_next, Err(e)));
                    lemma_extends_trans(op.spec_log(), log_regrad, log_searched);
                    lemma_extends_trans(op.spec_log(), log_searched, log_refreshed);
                    lemma_extends_trans(op.spec_log(), log_refreshed, base);
                }
                return Err(Error::OracleFailure(e));
            },
        };
        self.p = Some(p_next);
        self.beta = Some(beta);
        let d = IterData {
            param: x_next,
            cost,
            grad: g_next,
            kv: Some(
                Diagnostics { beta, restart_iter: restart_i, restart_orthogonality: restart_o },
            ),
        };
        proof {
            assert(next_iter_post(pre, *self, d, g, k));
            lemma_push_extends(log_regrad, Event::Cost(x_next, Ok(cost)));
            lemma_extends_trans(op.spec_log(), log_regrad, log_searched);
            lemma_extends_trans(op.spec_log(), log_searched, log_refreshed);
            lemma_extends_trans(op.spec_log(), log_refreshed, base);
            if gk is None {
                assert(log_refreshed[base.len() as int] == Event::<P, F>::Gradient(xk, Ok(g)));
                assert(op.spec_log().subrange(0, log_refreshed.len() as int) == log_refreshed);
                assert(op.spec_log()[base.len() as int] == op.spec_log().subrange(
                    0,
                    log_refreshed.len() as int,
                )[base.len() as int]);
            }
        }
        Ok(d)
    }
}

} // verus!
