//! End-to-end minimization scenarios: a two-dimensional quadratic and the
//! Rosenbrock function, driven with a strong-Wolfe line search and the
//! Polak-Ribiere rule.

use nlcg::{
    Error, LineSearch, LineSearchError, NonlinearConjugateGradient, OpWrapper, Oracle,
    OracleError, PolakRibiere, ScalarOps, VectorOps,
};

#[derive(Clone, Copy, Debug, PartialEq)]
struct Fl(f64);

impl ScalarOps for Fl {
    // The proof-level counterparts below exist only to satisfy the trait;
    // nothing ever calls them at run time.
    fn spec_zero() -> Fl {
        unreachable!()
    }
    fn spec_neg_one() -> Fl {
        unreachable!()
    }
    fn spec_abs(self) -> Fl {
        unreachable!()
    }
    fn spec_times(self, _rhs: Fl) -> Fl {
        unreachable!()
    }
    fn spec_div_by(self, _rhs: Fl) -> Fl {
        unreachable!()
    }
    fn spec_is_zero(self) -> bool {
        unreachable!()
    }
    fn spec_at_least(self, _rhs: Fl) -> bool {
        unreachable!()
    }
    fn zero() -> Fl {
        Fl(0.0)
    }
    fn neg_one() -> Fl {
        Fl(-1.0)
    }
    fn abs(&self) -> Fl {
        Fl(self.0.abs())
    }
    fn times(&self, rhs: &Fl) -> Fl {
        Fl(self.0 * rhs.0)
    }
    fn div_by(&self, rhs: &Fl) -> Fl {
        Fl(self.0 / rhs.0)
    }
    fn is_zero(&self) -> bool {
        self.0 == 0.0
    }
    fn at_least(&self, rhs: &Fl) -> bool {
        self.0 >= rhs.0
    }
}

#[derive(Clone, Copy, Debug, PartialEq)]
struct V2([f64; 2]);

impl VectorOps<Fl> for V2 {
    // The proof-level counterparts below exist only to satisfy the trait;
    // nothing ever calls them at run time.
    fn spec_scale(self, _s: Fl) -> V2 {
        unreachable!()
    }
    fn spec_plus(self, _rhs: V2) -> V2 {
        unreachable!()
    }
    fn spec_dot(self, _rhs: V2) -> Fl {
        unreachable!()
    }
    fn spec_norm(self) -> Fl {
        unreachable!()
    }
    fn scale(&self, s: &Fl) -> V2 {
        V2([self.0[0] * s.0, self.0[1] * s.0])
    }
    fn plus(&self, rhs: &V2) -> V2 {
        V2([self.0[0] + rhs.0[0], self.0[1] + rhs.0[1]])
    }
    fn dot(&self, rhs: &V2) -> Fl {
        Fl(self.0[0] * rhs.0[0] + self.0[1] * rhs.0[1])
    }
    fn norm(&self) -> Fl {
        Fl((self.0[0] * self.0[0] + self.0[1] * self.0[1]).sqrt())
    }
    fn duplicate(&self) -> V2 {
        *self
    }
}

const C1: f64 = 1e-4;
const C2: f64 = 1e-3;

fn point_along(x: &V2, d: &V2, a: f64) -> V2 {
    V2([x.0[0] + a * d.0[0], x.0[1] + a * d.0[1]])
}

fn eval_cost<O: Oracle<V2, Fl>>(op: &mut OpWrapper<O, V2, Fl>, x: &V2) -> Result<f64, Error> {
    op.apply(x).map(|c| c.0).map_err(Error::OracleFailure)
}

fn eval_slope<O: Oracle<V2, Fl>>(op: &mut OpWrapper<O, V2, Fl>, x: &V2, d: &V2) -> Result<f64, Error> {
    op.gradient(x).map(|g| g.dot(d).0).map_err(Error::OracleFailure)
}

fn zoom<O: Oracle<V2, Fl>>(
    op: &mut OpWrapper<O, V2, Fl>,
    x: &V2,
    d: &V2,
    phi0: f64,
    dphi0: f64,
    mut lo: f64,
    mut phi_lo: f64,
    mut hi: f64,
) -> Result<V2, Error> {
    for _ in 0..100 {
        let a = 0.5 * (lo + hi);
        let xa = point_along(x, d, a);
        let phia = eval_cost(op, &xa)?;
        if phia > phi0 + C1 * a * dphi0 || phia >= phi_lo {
            hi = a;
        } else {
            let dphia = eval_slope(op, &xa, d)?;
            if dphia.abs() <= -C2 * dphi0 {
                return Ok(xa);
            }
            if dphia * (hi - lo) >= 0.0 {
                hi = lo;
            }
            lo = a;
            phi_lo = phia;
        }
    }
    Ok(point_along(x, d, 0.5 * (lo + hi)))
}

/// A bracketing strong-Wolfe line search.
#[derive(Clone)]
struct Wolfe {
    dir: V2,
}

impl Wolfe {
    fn new() -> Wolfe {
        Wolfe { dir: V2([0.0, 0.0]) }
    }
}

impl LineSearch<V2, Fl> for Wolfe {
    // The proof-level counterparts below exist only to satisfy the trait;
    // nothing ever calls them at run time.
    fn spec_direction(&self) -> Option<V2> {
        unreachable!()
    }
    fn spec_outcome(&self) -> Option<Result<V2, Error>> {
        unreachable!()
    }
    fn set_search_direction(&mut self, direction: V2) {
        self.dir = direction;
    }
    fn run<O: Oracle<V2, Fl>>(
        &mut self,
        op: &mut OpWrapper<O, V2, Fl>,
        x: &V2,
        g: &V2,
        f: &Fl,
    ) -> Result<V2, Error> {
        let d = self.dir;
        let phi0 = f.0;
        let dphi0 = g.dot(&d).0;
        if !(dphi0 < 0.0) {
            return Err(Error::LineSearchFailure(LineSearchError { code: 1 }));
        }
        let mut a_prev = 0.0_f64;
        let mut phi_prev = phi0;
        let mut a = 1.0_f64;
        for i in 0..30 {
            let xa = point_along(x, &d, a);
            let phia = eval_cost(op, &xa)?;
            if phia > phi0 + C1 * a * dphi0 || (i > 0 && phia >= phi_prev) {
                return zoom(op, x, &d, phi0, dphi0, a_prev, phi_prev, a);
            }
            let dphia = eval_slope(op, &xa, &d)?;
            if dphia.abs() <= -C2 * dphi0 {
                return Ok(xa);
            }
            if dphia >= 0.0 {
                return zoom(op, x, &d, phi0, dphi0, a, phia, a_prev);
            }
            a_prev = a;
            phi_prev = phia;
            a *= 2.0;
        }
        Err(Error::LineSearchFailure(LineSearchError { code: 2 }))
    }
}

/// f(x) = x'Ax/2 - b'x with A = [[4, 1], [1, 3]], b = [1, 2]; the minimizer
/// is A^-1 b = [1/11, 7/11].
struct Quadratic;

impl Oracle<V2, Fl> for Quadratic {
    fn apply(&mut self, x: &V2) -> Result<Fl, OracleError> {
        let q = 0.5
            * (4.0 * x.0[0] * x.0[0] + 2.0 * x.0[0] * x.0[1] + 3.0 * x.0[1] * x.0[1]);
        Ok(Fl(q - (x.0[0] + 2.0 * x.0[1])))
    }
    fn gradient(&mut self, x: &V2) -> Result<V2, OracleError> {
        Ok(V2([4.0 * x.0[0] + x.0[1] - 1.0, x.0[0] + 3.0 * x.0[1] - 2.0]))
    }
}

/// f(x, y) = (1 - x)^2 + 100 (y - x^2)^2, minimized at [1, 1].
struct Rosenbrock;

impl Oracle<V2, Fl> for Rosenbrock {
    fn apply(&mut self, x: &V2) -> Result<Fl, OracleError> {
        let (a, b) = (x.0[0], x.0[1]);
        Ok(Fl((1.0 - a) * (1.0 - a) + 100.0 * (b - a * a) * (b - a * a)))
    }
    fn gradient(&mut self, x: &V2) -> Result<V2, OracleError> {
        let (a, b) = (x.0[0], x.0[1]);
        Ok(V2([-2.0 * (1.0 - a) - 400.0 * a * (b - a * a), 200.0 * (b - a * a)]))
    }
}

/// Runs `init` and then steps numbered 1, 2, ..., carrying the returned
/// gradient forward as the next step's cached gradient, until the gradient
/// norm drops under `tol` or `max_steps` steps are done.  Returns the final
/// iterate and gradient with the per-step diagnostics.
fn drive<O: Oracle<V2, Fl>, L: LineSearch<V2, Fl> + Clone>(
    solver: &mut NonlinearConjugateGradient<V2, L, PolakRibiere, Fl>,
    op: &mut OpWrapper<O, V2, Fl>,
    x0: V2,
    max_steps: u64,
    tol: f64,
) -> (V2, V2, Vec<(bool, bool, f64, V2)>) {
    let d0 = solver.init(op, x0).unwrap();
    let mut x = d0.param;
    let mut g = d0.grad;
    let mut f = d0.cost;
    let mut trace: Vec<(bool, bool, f64, V2)> = Vec::new();
    let mut k: u64 = 1;
    while k <= max_steps {
        if g.norm().0 < tol {
            break;
        }
        let d = solver.next_iter(op, x, Some(g), f, k).unwrap();
        x = d.param;
        g = d.grad;
        f = d.cost;
        let kv = d.kv.unwrap();
        trace.push((kv.restart_iter, kv.restart_orthogonality, kv.beta.0, x));
        k += 1;
    }
    (x, g, trace)
}

#[test]
fn quadratic_converges_with_pr_rule() {
    let mut s = NonlinearConjugateGradient::new(Wolfe::new(), PolakRibiere).unwrap();
    let mut op = OpWrapper::new(Quadratic);
    let (x, g, _) = drive(&mut s, &mut op, V2([0.0, 0.0]), 20, 1e-8);
    assert!(g.norm().0 < 1e-8, "gradient norm {}", g.norm().0);
    assert!((x.0[0] - 1.0 / 11.0).abs() < 1e-6, "x0 = {}", x.0[0]);
    assert!((x.0[1] - 7.0 / 11.0).abs() < 1e-6, "x1 = {}", x.0[1]);
}

#[test]
fn rosenbrock_converges_with_pr_rule_and_strong_wolfe() {
    let mut s = NonlinearConjugateGradient::new(Wolfe::new(), PolakRibiere).unwrap();
    let mut op = OpWrapper::new(Rosenbrock);
    let (x, _, _) = drive(&mut s, &mut op, V2([-1.2, 1.0]), 100, 1e-10);
    assert!((x.0[0] - 1.0).abs() < 1e-4, "x = {}", x.0[0]);
    assert!((x.0[1] - 1.0).abs() < 1e-4, "y = {}", x.0[1]);
}

#[test]
fn iteration_restart_pattern_on_quadratic() {
    let mut s = NonlinearConjugateGradient::new(Wolfe::new(), PolakRibiere)
        .unwrap()
        .restart_iters(3);
    let mut op = OpWrapper::new(Quadratic);
    let (_, _, trace) = drive(&mut s, &mut op, V2([0.0, 0.0]), 10, 0.0);
    assert_eq!(trace.len(), 10);
    for (i, (restart_iter, _, beta, _)) in trace.iter().enumerate() {
        let k = (i + 1) as u64;
        let expected = k % 3 == 0;
        assert_eq!(*restart_iter, expected, "restart_iter at k={}", k);
        if expected {
            assert_eq!(*beta, 0.0, "beta at k={}", k);
        }
    }
}

#[test]
fn restart_every_iteration_equals_steepest_descent() {
    let mut s = NonlinearConjugateGradient::new(Wolfe::new(), PolakRibiere)
        .unwrap()
        .restart_iters(1);
    let mut op = OpWrapper::new(Quadratic);
    let (_, _, trace) = drive(&mut s, &mut op, V2([0.0, 0.0]), 8, 0.0);

    // A plain steepest-descent loop with the same line search.
    let mut ls = Wolfe::new();
    let mut op2 = OpWrapper::new(Quadratic);
    let mut x = V2([0.0, 0.0]);
    let mut f = op2.apply(&x).unwrap();
    let mut g = op2.gradient(&x).unwrap();
    for (i, (_, _, _, x_cg)) in trace.iter().enumerate() {
        ls.set_search_direction(g.scale(&Fl(-1.0)));
        let xn = ls.run(&mut op2, &x, &g, &f).unwrap();
        g = op2.gradient(&xn).unwrap();
        f = op2.apply(&xn).unwrap();
        x = xn;
        assert!(
            (x.0[0] - x_cg.0[0]).abs() <= 1e-12 && (x.0[1] - x_cg.0[1]).abs() <= 1e-12,
            "iterates diverge at step {}: {:?} vs {:?}",
            i + 1,
            x,
            x_cg
        );
    }
}
