//! The learned model of the loop's leak: a straight line over the throughput, fitted
//! by recursive least squares with forgetting.
//!
//! The fit carries the covariance of its two parameters, so that the uncertainty of a
//! prediction can be read off. Everything is kept bounded: the parameters on rails, the
//! covariance within what it was before anything was learned.

use crate::fine::quantity_products_are_rounded;
use crate::fine::unit_products_are_rounded;
use crate::fine::unit_sums_are_exact;
use crate::fine::units_and_quantities_agree;
use crate::fine::Fine;
use crate::fine::LIMIT;
use crate::num::near;
use crate::num::Num;
use vstd::prelude::*;

verus! {

/// The offset stays within a kilowatt.
pub const A_ABS_MAX: i128 = 1_000_000_000_000_000_000;

/// The slope stays within half of the throughput.
pub const B_ABS_MAX: i128 = 500_000_000_000_000;

/// Variance of the offset before anything is learned: (500 W) squared.
pub const PRIOR_A_VAR_WIDE: i128 = 250_000_000_000_000_000_000;

/// Variance of the slope before anything is learned: one half, squared.
pub const PRIOR_B_VAR_WIDE: i128 = 250_000_000_000_000;

/// Variance of an offset that the user supplied: (50 W) squared.
pub const PRIOR_A_VAR_SEED: i128 = 2_500_000_000_000_000_000;

/// Variance of a slope that the user supplied: a twentieth, squared.
pub const PRIOR_B_VAR_SEED: i128 = 2_500_000_000_000;

/// Bounds of the forgetting factor.
pub const LAMBDA_MIN: i64 = 900_000;

pub const LAMBDA_MAX: i64 = 1_000_000;

/// A fit of `y = a + b * x`.
#[derive(Clone, Copy, Debug, PartialEq, Eq, Structural)]
pub struct RlsModel {
    pub a: Fine,
    pub b: Fine,
    /// The covariance of `a` and `b`, a symmetric matrix.
    pub p00: Fine,
    pub p01: Fine,
    pub p11: Fine,
    /// The variances before anything is learned.
    pub p00_cap: Fine,
    pub p11_cap: Fine,
    /// The forgetting factor.
    pub lambda: Num,
}

/// A parameter held on its rails; one that cannot be held starts over at 0.
pub open spec fn railed(v: Fine, max: i128) -> Fine {
    match v {
        Fine::Fin(x) => if x > max {
            Fine::Fin(max)
        } else if x < -max {
            Fine::Fin((-max) as i128)
        } else {
            v
        },
        Fine::Out => Fine::Fin(0),
    }
}

fn rail(v: Fine, max: i128) -> (r: Fine)
    requires
        0 <= max,
    ensures
        r == railed(v, max),
{
    match v {
        Fine::Fin(x) => if x > max {
            Fine::Fin(max)
        } else if x < -max {
            Fine::Fin(-max)
        } else {
            v
        },
        Fine::Out => Fine::Fin(0),
    }
}

/// Could this be a variance?
pub open spec fn spec_is_variance(v: Fine) -> bool {
    v is Fin && v.count() >= 0
}

#[verifier::when_used_as_spec(spec_is_variance)]
pub fn is_variance(v: Fine) -> (r: bool)
    ensures
        r == is_variance(v),
{
    match v {
        Fine::Fin(x) => x >= 0,
        Fine::Out => false,
    }
}

/// A covariance matrix that has been put right: `(p00, p01, p11)`.
pub open spec fn put_right(q00: Fine, q01: Fine, q11: Fine, cap0: Fine, cap1: Fine) -> (
    Fine,
    Fine,
    Fine,
) {
    let r00 = if is_variance(q00) {
        q00
    } else {
        cap0
    };
    let r11 = if is_variance(q11) {
        q11
    } else {
        cap1
    };
    let r01 = if is_variance(q00) && is_variance(q11) {
        q01
    } else {
        Fine::Fin(0)
    };
    let trace = r00.plus(r11);
    let cap = cap0.plus(cap1);
    let (s00, s01, s11) = if trace.is_above(cap) {
        let s = cap.over(trace);
        (r00.times(s), r01.times(s), r11.times(s))
    } else {
        (r00, r01, r11)
    };
    (
        s00,
        if s01 is Fin {
            s01
        } else {
            Fine::Fin(0)
        },
        s11,
    )
}

/// Put a covariance matrix right after a step. A variance that is none starts over at
/// its prior, without correlation; then the whole matrix is scaled down where its
/// trace exceeds that of the prior.
fn mend(q00: Fine, q01: Fine, q11: Fine, cap0: Fine, cap1: Fine) -> (r: (Fine, Fine, Fine))
    ensures
        r == put_right(q00, q01, q11, cap0, cap1),
{
    let mut p00 = q00;
    let mut p01 = q01;
    let mut p11 = q11;
    if !is_variance(p00) {
        p00 = cap0;
        p01 = Fine::Fin(0);
    }
    if !is_variance(p11) {
        p11 = cap1;
        p01 = Fine::Fin(0);
    }
    let trace = p00.plus(p11);
    let cap = cap0.plus(cap1);
    if trace.is_above(cap) {
        let s = cap.over(trace);
        p00 = p00.times(s);
        p01 = p01.times(s);
        p11 = p11.times(s);
    }
    if let Fine::Out = p01 {
        p01 = Fine::Fin(0);
    }
    (p00, p01, p11)
}

impl RlsModel {
    /// The model before anything is learned.
    pub open spec fn prior(a0: Num, b0: Num, seeded: bool, lambda: Num) -> RlsModel {
        let va = Fine::Fin(
            if seeded {
                PRIOR_A_VAR_SEED
            } else {
                PRIOR_A_VAR_WIDE
            },
        );
        let vb = Fine::Fin(
            if seeded {
                PRIOR_B_VAR_SEED
            } else {
                PRIOR_B_VAR_WIDE
            },
        );
        RlsModel {
            a: Fine::of(a0),
            b: Fine::of(b0),
            p00: va,
            p01: Fine::Fin(0),
            p11: vb,
            p00_cap: va,
            p11_cap: vb,
            lambda: if lambda.lt(Num::Fin(LAMBDA_MIN)) {
                Num::Fin(LAMBDA_MIN)
            } else if Num::Fin(LAMBDA_MAX).lt(lambda) {
                Num::Fin(LAMBDA_MAX)
            } else {
                lambda
            },
        }
    }

    /// A model that starts at `a0` and `b0`. A wide prior gives early predictions no
    /// weight; a seed that the user supplied is trusted from the start.
    pub fn new(a0: Num, b0: Num, seeded: bool, lambda: Num) -> (m: Self)
        ensures
            m == RlsModel::prior(a0, b0, seeded, lambda),
            m.wf(),
    {
        let va = Fine::Fin(
            if seeded {
                PRIOR_A_VAR_SEED
            } else {
                PRIOR_A_VAR_WIDE
            },
        );
        let vb = Fine::Fin(
            if seeded {
                PRIOR_B_VAR_SEED
            } else {
                PRIOR_B_VAR_WIDE
            },
        );
        RlsModel {
            a: Fine::of(a0),
            b: Fine::of(b0),
            p00: va,
            p01: Fine::Fin(0),
            p11: vb,
            p00_cap: va,
            p11_cap: vb,
            lambda: if lambda.lt(Num::Fin(LAMBDA_MIN)) {
                Num::Fin(LAMBDA_MIN)
            } else if Num::Fin(LAMBDA_MAX).lt(lambda) {
                Num::Fin(LAMBDA_MAX)
            } else {
                lambda
            },
        }
    }

    /// The trace of the covariance, and that of the prior.
    pub open spec fn trace(self) -> int {
        self.p00.count() + self.p11.count()
    }

    pub open spec fn trace_cap(self) -> int {
        self.p00_cap.count() + self.p11_cap.count()
    }

    /// The covariance has two variances and a finite correlation, and its trace is no
    /// larger than that of the prior, up to a billionth.
    pub open spec fn wf(self) -> bool {
        &&& is_variance(self.p00)
        &&& is_variance(self.p11)
        &&& self.p01 is Fin
        &&& self.trace() <= self.trace_cap() + 1_000_000
        &&& {
            ||| self.p00_cap == Fine::Fin(PRIOR_A_VAR_WIDE) && self.p11_cap == Fine::Fin(
                PRIOR_B_VAR_WIDE,
            )
            ||| self.p00_cap == Fine::Fin(PRIOR_A_VAR_SEED) && self.p11_cap == Fine::Fin(
                PRIOR_B_VAR_SEED,
            )
        }
        &&& self.lambda.is_nan() || Num::Fin(LAMBDA_MIN).le(self.lambda) && self.lambda.le(
            Num::Fin(LAMBDA_MAX),
        )
    }

    /// The parameters lie on their rails, where every sample leaves them.
    pub open spec fn on_rails(self) -> bool {
        &&& self.a is Fin && -A_ABS_MAX <= self.a.count() <= A_ABS_MAX
        &&& self.b is Fin && -B_ABS_MAX <= self.b.count() <= B_ABS_MAX
    }

    /// The line at `x`.
    pub open spec fn line(self, x: Num) -> Fine {
        self.a.plus(self.b.scaled(x))
    }

    pub open spec fn spec_predict(self, x: Num) -> Num {
        self.line(x).to_num()
    }

    /// What the model predicts at `x`.
    #[verifier::when_used_as_spec(spec_predict)]
    pub fn predict(self, x: Num) -> (r: Num)
        ensures
            r == self.predict(x),
    {
        self.a.plus(self.b.scaled(x)).to_num()
    }

    /// The covariance applied to the regressor `(1, x)`, first and second row.
    pub open spec fn row0(self, x: Num) -> Fine {
        self.p00.plus(self.p01.scaled(x))
    }

    pub open spec fn row1(self, x: Num) -> Fine {
        self.p01.plus(self.p11.scaled(x))
    }

    /// The quadratic form of the covariance and the regressor `(1, x)`.
    pub open spec fn spread(self, x: Num) -> Fine {
        self.row0(x).plus(self.row1(x).scaled(x))
    }

    pub open spec fn spec_pred_var(self, x: Num) -> Fine {
        match self.spread(x) {
            Fine::Fin(v) => if v < 0 {
                Fine::Fin(0)
            } else {
                self.spread(x)
            },
            Fine::Out => Fine::Out,
        }
    }

    /// The variance of the prediction at `x`, as far as the parameters are uncertain.
    /// There is no bound on it at an unknown `x`.
    #[verifier::when_used_as_spec(spec_pred_var)]
    pub fn pred_var(self, x: Num) -> (r: Fine)
        ensures
            r == self.pred_var(x),
    {
        let row0 = self.p00.plus(self.p01.scaled(x));
        let row1 = self.p01.plus(self.p11.scaled(x));
        let v = row0.plus(row1.scaled(x));
        match v {
            Fine::Fin(n) => if n < 0 {
                Fine::Fin(0)
            } else {
                v
            },
            Fine::Out => Fine::Out,
        }
    }

    pub open spec fn spec_deviation(self, x: Num) -> Num {
        self.pred_var(x).root()
    }

    /// The standard deviation of the prediction at `x`.
    #[verifier::when_used_as_spec(spec_deviation)]
    pub fn deviation(self, x: Num) -> (r: Num)
        ensures
            r == self.deviation(x),
    {
        self.pred_var(x).root()
    }

    /// The weight that a sample at `x` is divided by.
    pub open spec fn weight(self, x: Num) -> Fine {
        Fine::of(self.lambda).plus(self.spread(x))
    }

    /// Is a sample taken? One that is not finite, or that the covariance cannot be
    /// applied to, is not.
    pub open spec fn takes(self, x: Num, y: Num) -> bool {
        x.is_finite() && y.is_finite() && self.weight(x).is_above(Fine::Fin(0))
    }

    /// The model after a sample: a recursive least-squares step towards `y` at `x`.
    pub open spec fn taught(self, x: Num, y: Num) -> RlsModel {
        if self.takes(x, y) {
            let k0 = self.row0(x).over(self.weight(x));
            let k1 = self.row1(x).over(self.weight(x));
            let err = Fine::of(y).minus(self.line(x));
            let (p00, p01, p11) = put_right(
                self.p00.minus(k0.times(self.row0(x))).shared(self.lambda),
                self.p01.minus(k0.times(self.row1(x))).shared(self.lambda),
                self.p11.minus(k1.times(self.row1(x))).shared(self.lambda),
                self.p00_cap,
                self.p11_cap,
            );
            RlsModel {
                a: railed(self.a.plus(k0.times(err)), A_ABS_MAX),
                b: railed(self.b.plus(k1.times(err)), B_ABS_MAX),
                p00,
                p01,
                p11,
                ..self
            }
        } else {
            self
        }
    }

    /// Learn that the bias at `x` is `y`.
    pub fn update(&mut self, x: Num, y: Num)
        ensures
            *final(self) == old(self).taught(x, y),
    {
        if !x.is_finite() || !y.is_finite() {
            return;
        }
        let row0 = self.p00.plus(self.p01.scaled(x));
        let row1 = self.p01.plus(self.p11.scaled(x));
        let denom = Fine::of(self.lambda).plus(row0.plus(row1.scaled(x)));
        if !denom.is_above(Fine::Fin(0)) {
            return;
        }
        let k0 = row0.over(denom);
        let k1 = row1.over(denom);
        let err = Fine::of(y).minus(self.a.plus(self.b.scaled(x)));
        let (p00, p01, p11) = mend(
            self.p00.minus(k0.times(row0)).shared(self.lambda),
            self.p01.minus(k0.times(row1)).shared(self.lambda),
            self.p11.minus(k1.times(row1)).shared(self.lambda),
            self.p00_cap,
            self.p11_cap,
        );
        self.a = rail(self.a.plus(k0.times(err)), A_ABS_MAX);
        self.b = rail(self.b.plus(k1.times(err)), B_ABS_MAX);
        self.p00 = p00;
        self.p01 = p01;
        self.p11 = p11;
    }
}

/// A sample that is taken leaves both parameters on their rails.
pub proof fn parameters_stay_on_rails(m: RlsModel, x: Num, y: Num)
    requires
        m.takes(x, y),
    ensures
        m.taught(x, y).on_rails(),
{
}

/// A sample that is not finite teaches nothing.
pub proof fn bad_sample_teaches_nothing(m: RlsModel, x: Num, y: Num)
    requires
        !x.is_finite() || !y.is_finite(),
    ensures
        m.taught(x, y) == m,
{
}

/// The variance left after a step, before the matrix is put right, is at most that
/// before it, divided by the smallest forgetting factor.
proof fn variance_shrinks(p: Fine, row: Fine, weight: Fine, lambda: Num)
    requires
        is_variance(p),
        weight.is_above(Fine::Fin(0)),
        lambda.is_finite(),
        LAMBDA_MIN <= lambda.micros() <= LAMBDA_MAX,
    ensures
        ({
            let q = p.minus(row.over(weight).times(row)).shared(lambda);
            is_variance(q) ==> 9 * q.count() <= 10 * p.count() + 5
        }),
{
    let k = row.over(weight);
    let t = k.times(row);
    let q = p.minus(t).shared(lambda);
    if is_variance(q) {
        let f = row.count();
        let w = weight.count();
        let c = k.count();
        assert(c * f >= 0) by {
            crate::fine::quotient_is_no_larger(f * crate::fine::ONE, w);
            if f >= 0 {
                assert(c * f >= 0) by (nonlinear_arith)
                    requires
                        c >= 0,
                        f >= 0,
                ;
            } else {
                assert(c * f >= 0) by (nonlinear_arith)
                    requires
                        c <= 0,
                        f <= 0,
                ;
            }
        }
        crate::fine::quotient_is_no_larger(c * f, crate::fine::ONE as int);
        let n = (p.count() - t.count()) * 1_000_000;
        let l = lambda.micros();
        crate::num::round_div_error(n, l);
        crate::fine::quotient_is_no_larger(n, l);
        let v = q.count();
        assert(v * l >= v * 900_000) by (nonlinear_arith)
            requires
                v >= 0,
                l >= 900_000,
        ;
    }
}

/// Scaling a matrix whose trace is too large brings the trace back to the prior's.
proof fn scaling_meets_the_cap(r0: int, r1: int, cap: int)
    requires
        0 <= r0,
        0 <= r1,
        0 < cap < r0 + r1,
        cap <= 250_000_250_000_000_000_000,
        r0 + r1 <= 600_000_000_000_000_000_000,
    ensures
        ({
            let t = r0 + r1;
            let s = Fine::Fin(cap as i128).over(Fine::Fin(t as i128));
            let s0 = Fine::Fin(r0 as i128).times(s);
            let s1 = Fine::Fin(r1 as i128).times(s);
            &&& s is Fin
            &&& is_variance(s0)
            &&& is_variance(s1)
            &&& s0.count() + s1.count() <= cap + 1_000_000
        }),
{
    let t = r0 + r1;
    let one = crate::fine::ONE as int;
    let n = cap * one;
    let s = crate::num::round_div(n, t);
    crate::num::round_div_error(n, t);
    crate::fine::quotient_is_no_larger(n, t);
    let m0 = r0 * s;
    let m1 = r1 * s;
    assert(m0 >= 0 && m1 >= 0 && m0 + m1 == s * t) by (nonlinear_arith)
        requires
            m0 == r0 * s,
            m1 == r1 * s,
            t == r0 + r1,
            r0 >= 0,
            r1 >= 0,
            s >= 0,
    ;
    crate::num::round_div_error(m0, one);
    crate::num::round_div_error(m1, one);
    crate::fine::quotient_is_no_larger(m0, one);
    crate::fine::quotient_is_no_larger(m1, one);
}

/// The covariance stays bounded: after any sample it still has two variances and a
/// finite correlation, and its trace is no larger than that of the prior, up to a
/// billionth.
pub proof fn covariance_stays_bounded(m: RlsModel, x: Num, y: Num)
    requires
        m.wf(),
    ensures
        m.taught(x, y).wf(),
{
    if m.takes(x, y) {
        let w = m.weight(x);
        let q00 = m.p00.minus(m.row0(x).over(w).times(m.row0(x))).shared(m.lambda);
        let q01 = m.p01.minus(m.row0(x).over(w).times(m.row1(x))).shared(m.lambda);
        let q11 = m.p11.minus(m.row1(x).over(w).times(m.row1(x))).shared(m.lambda);
        variance_shrinks(m.p00, m.row0(x), w, m.lambda);
        variance_shrinks(m.p11, m.row1(x), w, m.lambda);
        let r00 = if is_variance(q00) {
            q00
        } else {
            m.p00_cap
        };
        let r11 = if is_variance(q11) {
            q11
        } else {
            m.p11_cap
        };
        if r00.plus(r11).is_above(m.p00_cap.plus(m.p11_cap)) {
            scaling_meets_the_cap(r00.count(), r11.count(), m.trace_cap());
        }
    }
}

/// The gain of a step, taken along the regressor: between nothing and one, up to what
/// rounding adds. All in units: `t` is a million times the gain.
proof fn gain_is_a_fraction(f0: int, f1: int, m: int, v: int, w: int, k0: int, k1: int)
    requires
        0 <= m,
        0 <= v <= w,
        w >= 900_000_000_000_000,
        v == f0 + crate::num::round_div(f1 * m, 1_000_000),
        k0 == crate::num::round_div(f0 * 1_000_000_000_000_000, w),
        k1 == crate::num::round_div(f1 * 1_000_000_000_000_000, w),
    ensures
        ({
            let t = 1_000_000 * k0 + m * k1;
            -(2_000_000 + m) <= t <= 1_000_000_000_000_000_000_000 + 2_000_000 + m
        }),
{
    let one: int = 1_000_000_000_000_000;
    let t = 1_000_000 * k0 + m * k1;
    crate::num::round_div_error(f1 * m, 1_000_000);
    crate::num::round_div_error(f0 * one, w);
    crate::num::round_div_error(f1 * one, w);
    let e4 = k0 * w - f0 * one;
    let e5 = k1 * w - f1 * one;
    let e6 = 1_000_000 * f0 + f1 * m - 1_000_000 * v;
    let x = m * e5;
    assert(-(m * w) <= 2 * x <= m * w) by (nonlinear_arith)
        requires
            x == m * e5,
            0 <= m,
            -w <= 2 * e5 <= w,
    ;
    assert(t * w == 1_000_000 * (f0 * one + e4) + m * (f1 * one) + x) by (nonlinear_arith)
        requires
            t == 1_000_000 * k0 + m * k1,
            e4 == k0 * w - f0 * one,
            e5 == k1 * w - f1 * one,
            x == m * e5,
    ;
    assert(m * (f1 * one) == (f1 * m) * one) by (nonlinear_arith);
    let mw = m * w;
    assert(2 * (t * w) <= 2 * one * (1_000_000 * v) + 1_000_000 * one + 1_000_000 * w + mw);
    assert(2 * (t * w) >= 2 * one * (1_000_000 * v) - 1_000_000 * one - 1_000_000 * w - mw);
    let top = 1_000_000_000_000_000_000_000 + 2_000_000 + m;
    assert(t <= top) by (nonlinear_arith)
        requires
            2 * (t * w) <= 2_000_000_000_000_000_000_000 * w + 1_000_000_000_000_000_000_000
                + 1_000_000 * w + mw,
            mw == m * w,
            w >= 900_000_000_000_000,
            0 <= m,
            top == 1_000_000_000_000_000_000_000 + 2_000_000 + m,
    ;
    assert(t >= -(2_000_000 + m)) by (nonlinear_arith)
        requires
            2 * (t * w) >= -1_000_000_000_000_000_000_000 - 1_000_000 * w - mw,
            mw == m * w,
            w >= 900_000_000_000_000,
            0 <= m,
    ;
}

/// How far a step moves the line at the sample: `e` is the error before it.
proof fn step_is_a_fraction(b: int, m: int, k0: int, k1: int, e: int, moved: int)
    requires
        0 <= m <= 1_000_000_000_000,
        -1_000_000_000_000_000_000_000 <= e <= 1_000_000_000_000_000_000_000,
        ({
            let t = 1_000_000 * k0 + m * k1;
            -(2_000_000 + m) <= t <= 1_000_000_000_000_000_000_000 + 2_000_000 + m
        }),
        ({
            let q = crate::num::round_div(k1 * e, 1_000_000_000_000_000);
            moved == crate::num::round_div(k0 * e, 1_000_000_000_000_000) + crate::num::round_div(
                (b + q) * m,
                1_000_000,
            ) - crate::num::round_div(b * m, 1_000_000)
        }),
    ensures
        e >= 0 ==> -2_000_000_000_000 <= moved <= e + 2_000_000_000_000,
        e <= 0 ==> e - 2_000_000_000_000 <= moved <= 2_000_000_000_000,
{
    let one: int = 1_000_000_000_000_000;
    let t = 1_000_000 * k0 + m * k1;
    let r = crate::num::round_div(k0 * e, one);
    let q = crate::num::round_div(k1 * e, one);
    let s1 = crate::num::round_div(b * m, 1_000_000);
    let s2 = crate::num::round_div((b + q) * m, 1_000_000);
    crate::num::round_div_error(k0 * e, one);
    crate::num::round_div_error(k1 * e, one);
    crate::num::round_div_error(b * m, 1_000_000);
    crate::num::round_div_error((b + q) * m, 1_000_000);
    assert((b + q) * m == b * m + q * m) by (nonlinear_arith);
    let e3 = q * one - k1 * e;
    let x = m * e3;
    assert(-(m * one) <= 2 * x <= m * one) by (nonlinear_arith)
        requires
            x == m * e3,
            0 <= m,
            -one <= 2 * e3 <= one,
    ;
    assert((q * m) * one == m * (k1 * e) + x) by (nonlinear_arith)
        requires
            e3 == q * one - k1 * e,
            x == m * e3,
    ;
    assert(t * e == 1_000_000 * (k0 * e) + m * (k1 * e)) by (nonlinear_arith)
        requires
            t == 1_000_000 * k0 + m * k1,
    ;
    let n = 1_000_000 * one * moved;
    assert(2 * n <= 2 * (t * e) + 1_000_000 * one + m * one + 2_000_000 * one);
    assert(2 * n >= 2 * (t * e) - 1_000_000 * one - m * one - 2_000_000 * one);
    let c = 2_000_000 + m;
    let top: int = 1_000_000_000_000_000_000_000;
    if e >= 0 {
        assert(-(c * e) <= t * e <= top * e + c * e) by (nonlinear_arith)
            requires
                -c <= t <= top + c,
                e >= 0,
        ;
        assert(c * e <= 1_000_002_000_000 * e) by (nonlinear_arith)
            requires
                c <= 1_000_002_000_000,
                e >= 0,
        ;
    } else {
        assert(top * e + c * e <= t * e <= -(c * e)) by (nonlinear_arith)
            requires
                -c <= t <= top + c,
                e <= 0,
        ;
        assert(c * e >= 1_000_002_000_000 * e) by (nonlinear_arith)
            requires
                c <= 1_000_002_000_000,
                e <= 0,
        ;
    }
}

/// Learning moves the prediction to the sample and not past it: off the rails, the line
/// at the sample's throughput ends up between where it was and the sample, up to two
/// thousandths of a watt of rounding. (For throughputs and errors up to a megawatt.)
pub proof fn learning_moves_the_prediction_to_the_sample(m: RlsModel, x: Num, y: Num)
    requires
        m.wf(),
        m.takes(x, y),
        is_variance(m.spread(x)),
        0 <= x.micros() <= 1_000_000_000_000,
        m.line(x) is Fin,
        ({
            let k0 = m.row0(x).over(m.weight(x));
            let k1 = m.row1(x).over(m.weight(x));
            let err = Fine::of(y).minus(m.line(x));
            &&& err is Fin
            &&& -1_000_000_000_000_000_000_000 <= err.count() <= 1_000_000_000_000_000_000_000
            &&& m.taught(x, y).a == m.a.plus(k0.times(err))
            &&& m.taught(x, y).b == m.b.plus(k1.times(err))
        }),
        m.taught(x, y).line(x) is Fin,
    ensures
        ({
            let before = m.line(x).count();
            let after = m.taught(x, y).line(x).count();
            let sample = Fine::of(y).count();
            &&& before <= sample ==> before - 2_000_000_000_000 <= after <= sample
                + 2_000_000_000_000
            &&& sample <= before ==> sample - 2_000_000_000_000 <= after <= before
                + 2_000_000_000_000
        }),
{
    let w = m.weight(x);
    let k0 = m.row0(x).over(w);
    let k1 = m.row1(x).over(w);
    let err = Fine::of(y).minus(m.line(x));
    let next = m.taught(x, y);
    gain_is_a_fraction(
        m.row0(x).count(),
        m.row1(x).count(),
        x.micros(),
        m.spread(x).count(),
        w.count(),
        k0.count(),
        k1.count(),
    );
    step_is_a_fraction(
        m.b.count(),
        x.micros(),
        k0.count(),
        k1.count(),
        err.count(),
        next.line(x).count() - m.line(x).count(),
    );
}

/// The model predicts a straight line: its offset plus its slope times the throughput.
pub proof fn prediction_is_the_line(m: RlsModel, a: i128, b: i128, x: i64)
    requires
        m.a == Fine::Fin(a),
        m.b == Fine::Fin(b),
        -1_000_000_000_000_000_000_000_000 <= a <= 1_000_000_000_000_000_000_000_000,
        -1_000_000_000_000_000_000_000_000_000_000 <= b * x
            <= 1_000_000_000_000_000_000_000_000_000_000,
    ensures
        ({
            let p = m.predict(Num::Fin(x));
            &&& p is Fin
            &&& near(
                2_000_000_000_000_000 * p->Fin_0,
                2_000_000 * a + 2 * (b * x),
                1_000_000_000_001_000_000,
            )
        }),
{
    quantity_products_are_rounded(b, x);
    let q = m.b.scaled(Num::Fin(x)).count();
    assert(-1_000_000_000_000_000_000_000_001 <= q <= 1_000_000_000_000_000_000_000_001);
    unit_sums_are_exact(a, q as i128);
    units_and_quantities_agree(0, (a + q) as i128);
}

/// The uncertainty of a prediction comes from the covariance and the regressor: the two
/// rows `p00 + p01 * x` and `p01 + p11 * x`, and the first plus `x` times the second.
pub proof fn uncertainty_is_the_quadratic_form(
    m: RlsModel,
    p00: i128,
    p01: i128,
    p11: i128,
    x: i64,
)
    requires
        m.p00 == Fine::Fin(p00),
        m.p01 == Fine::Fin(p01),
        m.p11 == Fine::Fin(p11),
        -1_000_000_000_000_000_000_000_000 <= p00 <= 1_000_000_000_000_000_000_000_000,
        -1_000_000_000_000_000_000_000_000 <= p01 <= 1_000_000_000_000_000_000_000_000,
        -1_000_000_000_000_000_000_000_000_000_000 <= p01 * x
            <= 1_000_000_000_000_000_000_000_000_000_000,
        -1_000_000_000_000_000_000_000_000_000_000 <= p11 * x
            <= 1_000_000_000_000_000_000_000_000_000_000,
        0 <= x <= 1_000_000_000_000,
    ensures
        m.row0(Num::Fin(x)) is Fin,
        near(2_000_000 * m.row0(Num::Fin(x)).count(), 2_000_000 * p00 + 2 * (p01 * x), 1_000_000),
        m.row1(Num::Fin(x)) is Fin,
        near(2_000_000 * m.row1(Num::Fin(x)).count(), 2_000_000 * p01 + 2 * (p11 * x), 1_000_000),
        m.spread(Num::Fin(x)) is Fin,
        ({
            let r0 = m.row0(Num::Fin(x)).count();
            let r1 = m.row1(Num::Fin(x)).count();
            near(2_000_000 * m.spread(Num::Fin(x)).count(), 2_000_000 * r0 + 2 * (r1 * x), 1_000_000)
        }),
        ({
            let v = m.spread(Num::Fin(x)).count();
            m.deviation(Num::Fin(x)) == Fine::Fin(
                if v < 0 {
                    0
                } else {
                    v as i128
                },
            ).root()
        }),
{
    quantity_products_are_rounded(p01, x);
    quantity_products_are_rounded(p11, x);
    let q0 = m.p01.scaled(Num::Fin(x)).count();
    let q1 = m.p11.scaled(Num::Fin(x)).count();
    unit_sums_are_exact(p00, q0 as i128);
    unit_sums_are_exact(p01, q1 as i128);
    let r0 = m.row0(Num::Fin(x)).count();
    let r1 = m.row1(Num::Fin(x)).count();
    assert(-2_000_000_000_000_000_000_000_001 <= r1 <= 2_000_000_000_000_000_000_000_001);
    let n = r1 * x;
    assert(-2_000_000_000_000_000_000_000_001_000_000_000_000 <= n
        <= 2_000_000_000_000_000_000_000_001_000_000_000_000) by (nonlinear_arith)
        requires
            n == r1 * x,
            -2_000_000_000_000_000_000_000_001 <= r1 <= 2_000_000_000_000_000_000_000_001,
            0 <= x <= 1_000_000_000_000,
    ;
    quantity_products_are_rounded(r1 as i128, x);
    let s = m.row1(Num::Fin(x)).scaled(Num::Fin(x)).count();
    unit_sums_are_exact(r0 as i128, s as i128);
}

/// A sample moves each parameter towards it by its gain: the row of the covariance over
/// the forgetting factor plus the spread, times the error of the prediction. (As far as
/// the numbers can be held and the parameter stays off its rail.)
pub proof fn sample_moves_parameters_by_the_gain(
    m: RlsModel,
    x: Num,
    y: Num,
    w: i128,
    e: i128,
    r0: i128,
    r1: i128,
    lambda: i64,
)
    requires
        m.takes(x, y),
        m.lambda == Num::Fin(lambda),
        m.weight(x) == Fine::Fin(w),
        Fine::of(y).minus(m.line(x)) == Fine::Fin(e),
        m.row0(x) == Fine::Fin(r0),
        m.row1(x) == Fine::Fin(r1),
        -LIMIT <= r0 * 1_000_000_000_000_000 <= LIMIT,
        -LIMIT <= r1 * 1_000_000_000_000_000 <= LIMIT,
        w <= LIMIT,
        ({
            let next = m.taught(x, y);
            let k0 = m.row0(x).over(m.weight(x));
            let k1 = m.row1(x).over(m.weight(x));
            &&& k0.times(Fine::Fin(e)) is Fin
            &&& k1.times(Fine::Fin(e)) is Fin
            &&& -A_ABS_MAX < next.a.count() < A_ABS_MAX
            &&& -B_ABS_MAX < next.b.count() < B_ABS_MAX
            &&& m.a.plus(k0.times(Fine::Fin(e))) is Fin
            &&& m.b.plus(k1.times(Fine::Fin(e))) is Fin
        }),
    ensures
        m.spread(x) is Fin && w == lambda * 1_000_000_000 + m.spread(x).count(),
        ({
            let moved = m.taught(x, y).a.count() - m.a.count();
            exists|k: int|
                near(2 * (k * w), 2 * (r0 * 1_000_000_000_000_000), w as int) && near(
                    2_000_000_000_000_000 * moved,
                    2 * #[trigger] (k * e),
                    1_000_000_000_000_000,
                )
        }),
        ({
            let moved = m.taught(x, y).b.count() - m.b.count();
            exists|k: int|
                near(2 * (k * w), 2 * (r1 * 1_000_000_000_000_000), w as int) && near(
                    2_000_000_000_000_000 * moved,
                    2 * #[trigger] (k * e),
                    1_000_000_000_000_000,
                )
        }),
{
    units_and_quantities_agree(lambda, 0);
    unit_products_are_rounded(r0, w);
    unit_products_are_rounded(r1, w);
    let k0 = m.row0(x).over(m.weight(x)).count();
    let k1 = m.row1(x).over(m.weight(x)).count();
    unit_products_are_rounded(k0 as i128, e);
    unit_products_are_rounded(k1 as i128, e);
    let d0 = Fine::Fin(k0 as i128).times(Fine::Fin(e)).count();
    let d1 = Fine::Fin(k1 as i128).times(Fine::Fin(e)).count();
    assert(m.taught(x, y).a.count() - m.a.count() == d0);
    assert(m.taught(x, y).b.count() - m.b.count() == d1);
    assert(near(2_000_000_000_000_000 * d0, 2 * (k0 * e), 1_000_000_000_000_000));
    assert(near(2_000_000_000_000_000 * d1, 2 * (k1 * e), 1_000_000_000_000_000));
}

/// A sample takes from each variance its gain times its row, and forgetting gives some of
/// it back: what is left is divided by the forgetting factor. (While the matrix stays one
/// that need not be put right.)
pub proof fn sample_shrinks_the_covariance(
    m: RlsModel,
    x: Num,
    y: Num,
    lambda: i64,
    t0: i128,
    t1: i128,
    t2: i128,
)
    requires
        m.takes(x, y),
        m.lambda == Num::Fin(lambda),
        lambda > 0,
        m.row0(x).over(m.weight(x)).times(m.row0(x)) == Fine::Fin(t0),
        m.row0(x).over(m.weight(x)).times(m.row1(x)) == Fine::Fin(t1),
        m.row1(x).over(m.weight(x)).times(m.row1(x)) == Fine::Fin(t2),
        m.p00 is Fin && m.p01 is Fin && m.p11 is Fin,
        -LIMIT <= (m.p00.count() - t0) * 1_000_000 <= LIMIT,
        -LIMIT <= (m.p01.count() - t1) * 1_000_000 <= LIMIT,
        -LIMIT <= (m.p11.count() - t2) * 1_000_000 <= LIMIT,
        m.p00.count() > t0 + lambda,
        m.p11.count() > t2 + lambda,
        m.p00_cap is Fin && m.p11_cap is Fin,
        m.p00_cap.plus(m.p11_cap) is Fin,
        2 * ((m.p00.count() - t0) * 1_000_000) + 2 * ((m.p11.count() - t2) * 1_000_000) + 2 * lambda
            <= 2 * (lambda * (m.p00_cap.count() + m.p11_cap.count())),
    ensures
        ({
            let next = m.taught(x, y);
            &&& next.p00 is Fin && near(
                2 * (next.p00.count() * lambda),
                2 * ((m.p00.count() - t0) * 1_000_000),
                lambda as int,
            )
            &&& next.p01 is Fin && near(
                2 * (next.p01.count() * lambda),
                2 * ((m.p01.count() - t1) * 1_000_000),
                lambda as int,
            )
            &&& next.p11 is Fin && near(
                2 * (next.p11.count() * lambda),
                2 * ((m.p11.count() - t2) * 1_000_000),
                lambda as int,
            )
            &&& next.lambda == m.lambda && next.p00_cap == m.p00_cap && next.p11_cap == m.p11_cap
        }),
{
    let d0 = (m.p00.count() - t0) as i128;
    let d1 = (m.p01.count() - t1) as i128;
    let d2 = (m.p11.count() - t2) as i128;
    quantity_products_are_rounded(d0, lambda);
    quantity_products_are_rounded(d1, lambda);
    quantity_products_are_rounded(d2, lambda);
    let q0 = Fine::Fin(d0).shared(Num::Fin(lambda)).count();
    let q2 = Fine::Fin(d2).shared(Num::Fin(lambda)).count();
    let cap = m.p00_cap.count() + m.p11_cap.count();
    assert(q0 >= 0 && q2 >= 0 && q0 + q2 <= cap) by (nonlinear_arith)
        requires
            near(2 * (q0 * lambda), 2 * (d0 * 1_000_000), lambda as int),
            near(2 * (q2 * lambda), 2 * (d2 * 1_000_000), lambda as int),
            d0 > lambda,
            d2 > lambda,
            lambda > 0,
            2 * (d0 * 1_000_000) + 2 * (d2 * 1_000_000) + 2 * lambda <= 2 * (lambda * cap),
    ;
}

/// A model starts at its seed, uncertain by 500 W and by half the throughput, and by 50 W
/// and a twentieth where the seed was supplied; its memory is held between 0.9 and 1.
pub proof fn prior_is_exact(a0: i64, b0: i64, seeded: bool, lambda: i64)
    ensures
        ({
            let m = RlsModel::prior(Num::Fin(a0), Num::Fin(b0), seeded, Num::Fin(lambda));
            &&& m.a is Fin && m.a.count() == a0 * 1_000_000_000
            &&& m.b is Fin && m.b.count() == b0 * 1_000_000_000
            &&& m.p01 == Fine::Fin(0)
            &&& m.p00 == m.p00_cap && m.p11 == m.p11_cap
            &&& !seeded ==> m.p00 == Fine::Fin(250_000_000_000_000_000_000) && m.p11 == Fine::Fin(
                250_000_000_000_000,
            )
            &&& seeded ==> m.p00 == Fine::Fin(2_500_000_000_000_000_000) && m.p11 == Fine::Fin(
                2_500_000_000_000,
            )
            &&& m.lambda == Num::Fin(
                if lambda < 900_000 {
                    900_000
                } else if lambda > 1_000_000 {
                    1_000_000
                } else {
                    lambda
                },
            )
        }),
{
}

/// The rails: the offset is held within a kilowatt and the slope within half of the
/// throughput, and one that cannot be held at all starts over at nothing.
pub proof fn rails_are_exact(m: RlsModel, x: Num, y: Num, u: i128, v: i128)
    requires
        m.takes(x, y),
        ({
            let err = Fine::of(y).minus(m.line(x));
            &&& m.a.plus(m.row0(x).over(m.weight(x)).times(err)) == Fine::Fin(u)
            &&& m.b.plus(m.row1(x).over(m.weight(x)).times(err)) == Fine::Fin(v)
        }),
    ensures
        m.taught(x, y).a == Fine::Fin(
            if u > 1_000_000_000_000_000_000 {
                1_000_000_000_000_000_000
            } else if u < -1_000_000_000_000_000_000 {
                (-1_000_000_000_000_000_000) as i128
            } else {
                u
            },
        ),
        m.taught(x, y).b == Fine::Fin(
            if v > 500_000_000_000_000 {
                500_000_000_000_000
            } else if v < -500_000_000_000_000 {
                (-500_000_000_000_000) as i128
            } else {
                v
            },
        ),
        railed(Fine::Out, A_ABS_MAX) == Fine::Fin(0),
{
}

/// Scaled by the same factor, in units?
pub open spec fn scaled_alike(v: int, next: int, s: int) -> bool {
    near(2_000_000_000_000_000 * next, 2 * (v * s), 1_000_000_000_000_000)
}

/// A covariance whose trace exceeds that of the prior is scaled down as a whole, by the
/// ratio of the two; one that does not is left as it is. A variance that is none starts
/// over at its prior, and the correlation with it at nothing.
pub proof fn matrix_is_put_right_as_a_whole(
    q00: i128,
    q01: i128,
    q11: i128,
    c0: i128,
    c1: i128,
)
    requires
        0 <= q00 <= 1_000_000_000_000_000_000_000,
        0 <= q11 <= 1_000_000_000_000_000_000_000,
        -1_000_000_000_000_000_000_000 <= q01 <= 1_000_000_000_000_000_000_000,
        0 < c0 <= 1_000_000_000_000_000_000_000,
        0 < c1 <= 1_000_000_000_000_000_000_000,
    ensures
        ({
            let (p00, p01, p11) = put_right(
                Fine::Fin(q00),
                Fine::Fin(q01),
                Fine::Fin(q11),
                Fine::Fin(c0),
                Fine::Fin(c1),
            );
            &&& q00 + q11 <= c0 + c1 ==> p00 == Fine::Fin(q00) && p01 == Fine::Fin(q01) && p11
                == Fine::Fin(q11)
            &&& q00 + q11 > c0 + c1 ==> p00 is Fin && p01 is Fin && p11 is Fin && exists|s: int|
                near(
                    2 * (s * (q00 + q11)),
                    2 * ((c0 + c1) * 1_000_000_000_000_000),
                    q00 + q11,
                ) && #[trigger] scaled_alike(q00 as int, p00.count(), s) && scaled_alike(
                    q11 as int,
                    p11.count(),
                    s,
                ) && scaled_alike(q01 as int, p01.count(), s)
        }),
        ({
            let (p00, p01, p11) = put_right(
                Fine::Out,
                Fine::Fin(q01),
                Fine::Fin(0),
                Fine::Fin(c0),
                Fine::Fin(c1),
            );
            p00 == Fine::Fin(c0) && p01 == Fine::Fin(0) && p11 == Fine::Fin(0)
        }),
{
    let t = (q00 + q11) as i128;
    let c = (c0 + c1) as i128;
    unit_sums_are_exact(q00, q11);
    unit_sums_are_exact(c0, c1);
    if t > c {
        unit_products_are_rounded(c, t);
        let s = Fine::Fin(c).over(Fine::Fin(t)).count();
        crate::num::round_div_error(c * 1_000_000_000_000_000, t as int);
        assert(0 <= s <= 1_000_000_000_000_001) by (nonlinear_arith)
            requires
                near(2 * (s * t), 2 * (c * 1_000_000_000_000_000), t as int),
                0 < c < t,
        ;
        let (a, b, d) = (q00 * s, q01 * s, q11 * s);
        assert(0 <= a <= LIMIT && 0 <= d <= LIMIT && -LIMIT <= b <= LIMIT) by (nonlinear_arith)
            requires
                a == q00 * s,
                b == q01 * s,
                d == q11 * s,
                0 <= s <= 1_000_000_000_000_001,
                0 <= q00 <= 1_000_000_000_000_000_000_000,
                0 <= q11 <= 1_000_000_000_000_000_000_000,
                -1_000_000_000_000_000_000_000 <= q01 <= 1_000_000_000_000_000_000_000,
                LIMIT == 0x4000_0000_0000_0000_0000_0000_0000_0000,
        ;
        unit_products_are_rounded(q00, s as i128);
        unit_products_are_rounded(q01, s as i128);
        unit_products_are_rounded(q11, s as i128);
        assert(scaled_alike(q00 as int, Fine::Fin(q00).times(Fine::Fin(s as i128)).count(), s));
        assert(scaled_alike(q11 as int, Fine::Fin(q11).times(Fine::Fin(s as i128)).count(), s));
        assert(scaled_alike(q01 as int, Fine::Fin(q01).times(Fine::Fin(s as i128)).count(), s));
        assert(near(
            2 * (s * (q00 + q11)),
            2 * ((c0 + c1) * 1_000_000_000_000_000),
            q00 + q11,
        ));
    }
}

} // verus!
