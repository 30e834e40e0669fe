//! The objective oracle and the counting wrapper around it.

use vstd::prelude::*;
use crate::error::OracleError;

verus! {

/// The problem being minimized: a callable that evaluates the cost f(x) and
/// the gradient of f at x on demand.  Implementations may hold state (for
/// memoization or instrumentation) and may fail on any call; the solver
/// makes no assumption about the values returned.
pub trait Oracle<P, F> {
    /// Evaluates the cost at `x`.
    fn apply(&mut self, x: &P) -> Result<F, OracleError>;

    /// Evaluates the gradient at `x`.
    fn gradient(&mut self, x: &P) -> Result<P, OracleError>;
}

/// `c + 1`, held at `u64::MAX` once the counter is exhausted.
pub open spec fn sat_inc(c: u64) -> u64 {
    if c == u64::MAX {
        c
    } else {
        (c + 1) as u64
    }
}

/// `n`, held at `u64::MAX` once the tally is past the counter's range.
pub open spec fn saturated(n: nat) -> u64 {
    if n >= u64::MAX {
        u64::MAX
    } else {
        n as u64
    }
}

/// One evaluation made through the wrapper: the kind, the point it was
/// requested at, and the oracle's response.
pub enum Event<P, F> {
    /// A cost evaluation at the point, with the oracle's response.
    Cost(P, Result<F, OracleError>),
    /// A gradient evaluation at the point, with the oracle's response.
    Gradient(P, Result<P, OracleError>),
}

/// How many cost evaluations a log holds.
pub open spec fn cost_tally<P, F>(log: Seq<Event<P, F>>) -> nat
    decreases log.len(),
{
    if log.len() == 0 {
        0
    } else {
        cost_tally(log.drop_last()) + if log.last() is Cost {
            1nat
        } else {
            0nat
        }
    }
}

/// How many gradient evaluations a log holds.
pub open spec fn grad_tally<P, F>(log: Seq<Event<P, F>>) -> nat
    decreases log.len(),
{
    if log.len() == 0 {
        0
    } else {
        grad_tally(log.drop_last()) + if log.last() is Gradient {
            1nat
        } else {
            0nat
        }
    }
}

/// The last logged evaluation failed with exactly this error.
pub open spec fn failed_last<P, F>(log: Seq<Event<P, F>>, oe: OracleError) -> bool {
    log.len() > 0 && match log.last() {
        Event::Cost(_, resp) => resp == Err::<F, OracleError>(oe),
        Event::Gradient(_, resp) => resp == Err::<P, OracleError>(oe),
    }
}

/// `post` carries `pre` unchanged as its prefix: nothing recorded earlier is
/// lost or rewritten, only appended to.
pub open spec fn extends<T>(post: Seq<T>, pre: Seq<T>) -> bool {
    pre.len() <= post.len() && post.subrange(0, pre.len() as int) == pre
}

/// A log extends itself.
pub proof fn lemma_extends_refl<T>(a: Seq<T>)
    ensures
        extends(a, a),
{
    assert(a.subrange(0, a.len() as int) =~= a);
}

/// Appending one element extends a log.
pub proof fn lemma_push_extends<T>(a: Seq<T>, x: T)
    ensures
        extends(a.push(x), a),
{
    assert(a.push(x).subrange(0, a.len() as int) =~= a);
}

/// Extension is transitive.
pub proof fn lemma_extends_trans<T>(c: Seq<T>, b: Seq<T>, a: Seq<T>)
    requires
        extends(c, b),
        extends(b, a),
    ensures
        extends(c, a),
{
    assert(c.subrange(0, a.len() as int) =~= a) by {
        assert forall|i: int| 0 <= i < a.len() implies c.subrange(0, a.len() as int)[i] == a[i] by {
            assert(c.subrange(0, b.len() as int)[i] == c[i]);
            assert(b.subrange(0, a.len() as int)[i] == b[i]);
        }
    }
}

/// Appending one event raises its kind's tally by one and leaves the other.
pub proof fn lemma_tally_push<P, F>(log: Seq<Event<P, F>>, e: Event<P, F>)
    ensures
        cost_tally(log.push(e)) == cost_tally(log) + if e is Cost {
            1nat
        } else {
            0nat
        },
        grad_tally(log.push(e)) == grad_tally(log) + if e is Gradient {
            1nat
        } else {
            0nat
        },
{
    assert(log.push(e).drop_last() =~= log);
}

/// An oracle together with the counters and the ghost log that attribute
/// every evaluation made on behalf of one outer run, including those a
/// nested line search makes while it borrows the wrapper.  The log records
/// each evaluation with its point and the oracle's response, in order; the
/// fields are private, so only the wrapper's own methods can grow them.
#[verifier::reject_recursive_types(P)]
#[verifier::reject_recursive_types(F)]
pub struct OpWrapper<O, P, F> {
    op: O,
    cost_count: u64,
    grad_count: u64,
    log: Ghost<Seq<Event<P, F>>>,
}

impl<O, P, F> OpWrapper<O, P, F> {
    /// The wrapped oracle.
    pub closed spec fn spec_op(&self) -> O {
        self.op
    }

    /// How many cost evaluations were requested through this wrapper.
    pub closed spec fn spec_cost_count(&self) -> u64 {
        self.cost_count
    }

    /// How many gradient evaluations were requested through this wrapper.
    pub closed spec fn spec_grad_count(&self) -> u64 {
        self.grad_count
    }

    /// Every evaluation made through this wrapper, oldest first.
    pub closed spec fn spec_log(&self) -> Seq<Event<P, F>> {
        self.log@
    }

    /// The counters are exactly the log's tallies, held at the counter
    /// range's top.  `new` establishes this and every operation maintains
    /// it, so a count is never claimed that the log does not witness.
    pub open spec fn counts_match_log(&self) -> bool {
        self.spec_cost_count() == saturated(cost_tally(self.spec_log()))
            && self.spec_grad_count() == saturated(grad_tally(self.spec_log()))
    }

    /// Reads the cost-evaluation counter.
    pub fn cost_count(&self) -> (r: u64)
        ensures
            r == self.spec_cost_count(),
    {
        self.cost_count
    }

    /// Reads the gradient-evaluation counter.
    pub fn grad_count(&self) -> (r: u64)
        ensures
            r == self.spec_grad_count(),
    {
        self.grad_count
    }

    /// Wraps `op` with both counters at zero and an empty log.
    pub fn new(op: O) -> (r: Self)
        ensures
            r.spec_op() == op,
            r.spec_cost_count() == 0,
            r.spec_grad_count() == 0,
            r.spec_log() == Seq::<Event<P, F>>::empty(),
            r.counts_match_log(),
    {
        OpWrapper { op, cost_count: 0, grad_count: 0, log: Ghost(Seq::empty()) }
    }

    /// Evaluates the cost at `x`, counting and logging the evaluation with
    /// the oracle's response, whether or not it succeeded, and handing the
    /// response through unchanged.
    pub fn apply(&mut self, x: &P) -> (r: Result<F, OracleError>) where O: Oracle<P, F>
        ensures
            final(self).spec_cost_count() == sat_inc(old(self).spec_cost_count()),
            final(self).spec_grad_count() == old(self).spec_grad_count(),
            final(self).spec_log() == old(self).spec_log().push(Event::Cost(*x, r)),
            old(self).counts_match_log() ==> final(self).counts_match_log(),
    {
        self.cost_count = if self.cost_count == u64::MAX {
            u64::MAX
        } else {
            self.cost_count + 1
        };
        let r = self.op.apply(x);
        proof {
            lemma_tally_push(self.log@, Event::Cost(*x, r));
            self.log@ = self.log@.push(Event::Cost(*x, r));
        }
        r
    }

    /// Evaluates the gradient at `x`, counting and logging the evaluation
    /// with the oracle's response, whether or not it succeeded, and handing
    /// the response through unchanged.
    pub fn gradient(&mut self, x: &P) -> (r: Result<P, OracleError>) where O: Oracle<P, F>
        ensures
            final(self).spec_grad_count() == sat_inc(old(self).spec_grad_count()),
            final(self).spec_cost_count() == old(self).spec_cost_count(),
            final(self).spec_log() == old(self).spec_log().push(Event::Gradient(*x, r)),
            old(self).counts_match_log() ==> final(self).counts_match_log(),
    {
        self.grad_count = if self.grad_count == u64::MAX {
            u64::MAX
        } else {
            self.grad_count + 1
        };
        let r = self.op.gradient(x);
        proof {
            lemma_tally_push(self.log@, Event::Gradient(*x, r));
            self.log@ = self.log@.push(Event::Gradient(*x, r));
        }
        r
    }
}

} // verus!
