//! Measured and commanded quantities.
//!
//! A [`Num`] is a decimal number kept as a whole count of millionths, together
//! with the three values that a measurement may carry besides a number: "not a
//! number", and the two infinities. Watts, amperes, volts, percent and seconds
//! are all held this way. Arithmetic is total: what is computed from finite values
//! stays finite, held at the end of the range where it would leave it; only a division
//! by zero makes an infinity. Everything computed from "not a number" is "not a number"
//! again, except the smaller and the larger of two values, which pass the other operand
//! on.

use vstd::prelude::*;

verus! {

/// A quantity, in millionths of its unit.
#[derive(Clone, Copy, Debug, PartialEq, Eq, Structural)]
pub enum Num {
    /// Not a number: unread, undefined, or "no limit" where a limit is asked for.
    Nan,
    /// Below every finite value.
    NegInf,
    /// A finite value, as a count of millionths.
    Fin(i64),
    /// Above every finite value.
    PosInf,
}

/// The quotient `n / d` rounded to the nearest whole number, halves away from zero.
pub open spec fn round_div(n: int, d: int) -> int {
    if n >= 0 {
        (n + d / 2) / d
    } else {
        -((-n + d / 2) / d)
    }
}

/// The quantity of `x` millionths, held at the end of the range where it lies outside.
pub open spec fn of_millionths(x: int) -> Num {
    if x > i64::MAX {
        Num::Fin(i64::MAX)
    } else if x < i64::MIN {
        Num::Fin(i64::MIN)
    } else {
        Num::Fin(x as i64)
    }
}

/// The whole number `x`.
pub open spec fn whole(x: int) -> Num {
    of_millionths(x * 1_000_000)
}

/// The infinity of the sign of `positive`.
pub open spec fn inf(positive: bool) -> Num {
    if positive {
        Num::PosInf
    } else {
        Num::NegInf
    }
}

fn inf_exec(positive: bool) -> (r: Num)
    ensures
        r == inf(positive),
{
    if positive {
        Num::PosInf
    } else {
        Num::NegInf
    }
}

/// `of_millionths` on machine integers.
pub(crate) fn fit(x: i128) -> (r: Num)
    ensures
        r == of_millionths(x as int),
{
    if x > i64::MAX as i128 {
        Num::Fin(i64::MAX)
    } else if x < i64::MIN as i128 {
        Num::Fin(i64::MIN)
    } else {
        Num::Fin(x as i64)
    }
}

/// `round_div` on machine integers.
pub(crate) fn round_quot(n: i128, d: i128) -> (r: i128)
    requires
        0 < d <= 0x4000_0000_0000_0000_0000_0000_0000_0000,
        -0x4000_0000_0000_0000_0000_0000_0000_0000 <= n <= 0x4000_0000_0000_0000_0000_0000_0000_0000,
    ensures
        r == round_div(n as int, d as int),
{
    let h: i128 = d / 2;
    if n >= 0 {
        (n + h) / d
    } else {
        let q: i128 = (-n + h) / d;
        proof {
            assert(q <= -n + h) by (nonlinear_arith)
                requires
                    q == (-n + h) / (d as int),
                    -n + h >= 0,
                    d >= 1,
            ;
            assert(q >= 0) by (nonlinear_arith)
                requires
                    q == (-n + h) / (d as int),
                    -n + h >= 0,
                    d >= 1,
            ;
        }
        -q
    }
}

impl Num {
    pub open spec fn spec_is_finite(self) -> bool {
        self is Fin
    }

    /// Is this an ordinary number?
    #[verifier::when_used_as_spec(spec_is_finite)]
    pub fn is_finite(self) -> (r: bool)
        ensures
            r == self.is_finite(),
    {
        match self {
            Num::Fin(_) => true,
            _ => false,
        }
    }

    pub open spec fn spec_is_nan(self) -> bool {
        self is Nan
    }

    /// Is this "not a number"?
    #[verifier::when_used_as_spec(spec_is_nan)]
    pub fn is_nan(self) -> (r: bool)
        ensures
            r == self.is_nan(),
    {
        match self {
            Num::Nan => true,
            _ => false,
        }
    }

    /// The count of millionths of a finite quantity.
    pub open spec fn micros(self) -> int
        recommends
            self.is_finite(),
    {
        self->Fin_0 as int
    }

    /// Strictly inside the range: a sum, product or quotient that is has not been held
    /// at an end of it.
    pub open spec fn is_inside(self) -> bool {
        self is Fin && i64::MIN < self.micros() < i64::MAX
    }

    /// The quantity as a point of the extended number line: every finite count
    /// lies strictly between the two infinities.
    pub open spec fn rank(self) -> int
        recommends
            !self.is_nan(),
    {
        match self {
            Num::Nan => 0,
            Num::NegInf => i64::MIN - 1,
            Num::Fin(x) => x as int,
            Num::PosInf => i64::MAX + 1,
        }
    }

    /// Strictly below; never true of "not a number".
    pub open spec fn spec_lt(self, other: Num) -> bool {
        !self.is_nan() && !other.is_nan() && self.rank() < other.rank()
    }

    /// `self < other`, false where either is not a number.
    #[verifier::when_used_as_spec(spec_lt)]
    pub fn lt(self, other: Num) -> (r: bool)
        ensures
            r == self.lt(other),
    {
        match (self, other) {
            (Num::Nan, _) => false,
            (_, Num::Nan) => false,
            (Num::Fin(a), Num::Fin(b)) => a < b,
            (Num::PosInf, _) => false,
            (_, Num::NegInf) => false,
            (_, _) => true,
        }
    }

    pub open spec fn spec_le(self, other: Num) -> bool {
        !self.is_nan() && !other.is_nan() && self.rank() <= other.rank()
    }

    /// `self <= other`, false where either is not a number.
    #[verifier::when_used_as_spec(spec_le)]
    pub fn le(self, other: Num) -> (r: bool)
        ensures
            r == self.le(other),
    {
        match (self, other) {
            (Num::Nan, _) => false,
            (_, Num::Nan) => false,
            (Num::Fin(a), Num::Fin(b)) => a <= b,
            (Num::NegInf, _) => true,
            (_, Num::PosInf) => true,
            (_, _) => false,
        }
    }

    pub open spec fn spec_same(self, other: Num) -> bool {
        !self.is_nan() && self == other
    }

    /// Are the two the same number? "Not a number" is the same as nothing.
    #[verifier::when_used_as_spec(spec_same)]
    pub fn same(self, other: Num) -> (r: bool)
        ensures
            r == self.same(other),
    {
        !self.is_nan() && self == other
    }

    pub open spec fn spec_neg(self) -> Num {
        match self {
            Num::Nan => Num::Nan,
            Num::NegInf => Num::PosInf,
            Num::PosInf => Num::NegInf,
            Num::Fin(x) => of_millionths(-x),
        }
    }

    /// The quantity with its sign turned.
    #[verifier::when_used_as_spec(spec_neg)]
    pub fn neg(self) -> (r: Num)
        ensures
            r == self.neg(),
    {
        match self {
            Num::Nan => Num::Nan,
            Num::NegInf => Num::PosInf,
            Num::PosInf => Num::NegInf,
            Num::Fin(x) => fit(-(x as i128)),
        }
    }

    pub open spec fn spec_abs(self) -> Num {
        if self.lt(Num::Fin(0)) {
            self.neg()
        } else {
            self
        }
    }

    /// The magnitude.
    #[verifier::when_used_as_spec(spec_abs)]
    pub fn abs(self) -> (r: Num)
        ensures
            r == self.abs(),
    {
        if self.lt(Num::Fin(0)) {
            self.neg()
        } else {
            self
        }
    }

    pub open spec fn spec_plus(self, other: Num) -> Num {
        match (self, other) {
            (Num::Fin(a), Num::Fin(b)) => of_millionths(a + b),
            (Num::Nan, _) | (_, Num::Nan) => Num::Nan,
            (Num::PosInf, Num::NegInf) | (Num::NegInf, Num::PosInf) => Num::Nan,
            (Num::PosInf, _) | (_, Num::PosInf) => Num::PosInf,
            (_, _) => Num::NegInf,
        }
    }

    /// The sum.
    #[verifier::when_used_as_spec(spec_plus)]
    pub fn plus(self, other: Num) -> (r: Num)
        ensures
            r == self.plus(other),
    {
        match (self, other) {
            (Num::Fin(a), Num::Fin(b)) => fit(a as i128 + b as i128),
            (Num::Nan, _) | (_, Num::Nan) => Num::Nan,
            (Num::PosInf, Num::NegInf) | (Num::NegInf, Num::PosInf) => Num::Nan,
            (Num::PosInf, _) | (_, Num::PosInf) => Num::PosInf,
            (_, _) => Num::NegInf,
        }
    }

    pub open spec fn spec_minus(self, other: Num) -> Num {
        match (self, other) {
            (Num::Fin(a), Num::Fin(b)) => of_millionths(a - b),
            (Num::Nan, _) | (_, Num::Nan) => Num::Nan,
            (Num::PosInf, Num::PosInf) | (Num::NegInf, Num::NegInf) => Num::Nan,
            (Num::PosInf, _) | (_, Num::NegInf) => Num::PosInf,
            (_, _) => Num::NegInf,
        }
    }

    /// The difference.
    #[verifier::when_used_as_spec(spec_minus)]
    pub fn minus(self, other: Num) -> (r: Num)
        ensures
            r == self.minus(other),
    {
        match (self, other) {
            (Num::Fin(a), Num::Fin(b)) => fit(a as i128 - b as i128),
            (Num::Nan, _) | (_, Num::Nan) => Num::Nan,
            (Num::PosInf, Num::PosInf) | (Num::NegInf, Num::NegInf) => Num::Nan,
            (Num::PosInf, _) | (_, Num::NegInf) => Num::PosInf,
            (_, _) => Num::NegInf,
        }
    }

    pub open spec fn spec_times(self, other: Num) -> Num {
        match (self, other) {
            (Num::Fin(a), Num::Fin(b)) => of_millionths(round_div(a * b, 1_000_000)),
            (Num::Nan, _) | (_, Num::Nan) => Num::Nan,
            (_, _) => if self == Num::Fin(0) || other == Num::Fin(0) {
                Num::Nan
            } else {
                inf(self.lt(Num::Fin(0)) == other.lt(Num::Fin(0)))
            },
        }
    }

    /// The product, rounded to the nearest millionth.
    #[verifier::when_used_as_spec(spec_times)]
    pub fn times(self, other: Num) -> (r: Num)
        ensures
            r == self.times(other),
    {
        match (self, other) {
            (Num::Fin(a), Num::Fin(b)) => {
                proof {
                    assert(-0x4000_0000_0000_0000_0000_0000_0000_0000 <= a * b
                        <= 0x4000_0000_0000_0000_0000_0000_0000_0000) by (nonlinear_arith)
                        requires
                            i64::MIN <= a <= i64::MAX,
                            i64::MIN <= b <= i64::MAX,
                    ;
                }
                fit(round_quot(a as i128 * b as i128, 1_000_000))
            },
            (Num::Nan, _) | (_, Num::Nan) => Num::Nan,
            (_, _) => if self == Num::Fin(0) || other == Num::Fin(0) {
                Num::Nan
            } else {
                inf_exec(self.lt(Num::Fin(0)) == other.lt(Num::Fin(0)))
            },
        }
    }

    pub open spec fn spec_over(self, other: Num) -> Num {
        match (self, other) {
            (Num::Fin(a), Num::Fin(b)) => if b > 0 {
                of_millionths(round_div(a * 1_000_000, b as int))
            } else if b < 0 {
                of_millionths(round_div(-a * 1_000_000, -b))
            } else if a == 0 {
                Num::Nan
            } else {
                inf(a > 0)
            },
            (Num::Nan, _) | (_, Num::Nan) => Num::Nan,
            (Num::Fin(_), _) => Num::Fin(0),
            (_, Num::Fin(b)) => inf((self == Num::PosInf) == (b >= 0)),
            (_, _) => Num::Nan,
        }
    }

    /// The quotient, rounded to the nearest millionth.
    #[verifier::when_used_as_spec(spec_over)]
    pub fn over(self, other: Num) -> (r: Num)
        ensures
            r == self.over(other),
    {
        match (self, other) {
            (Num::Fin(a), Num::Fin(b)) => if b > 0 {
                fit(round_quot(a as i128 * 1_000_000, b as i128))
            } else if b < 0 {
                fit(round_quot(-(a as i128) * 1_000_000, -(b as i128)))
            } else if a == 0 {
                Num::Nan
            } else {
                inf_exec(a > 0)
            },
            (Num::Nan, _) | (_, Num::Nan) => Num::Nan,
            (Num::Fin(_), _) => Num::Fin(0),
            (_, Num::Fin(b)) => inf_exec((self == Num::PosInf) == (b >= 0)),
            (_, _) => Num::Nan,
        }
    }

    pub open spec fn spec_round(self) -> Num {
        match self {
            Num::Fin(a) => whole(round_div(a as int, 1_000_000)),
            _ => self,
        }
    }

    /// The nearest whole number, halves away from zero.
    #[verifier::when_used_as_spec(spec_round)]
    pub fn round(self) -> (r: Num)
        ensures
            r == self.round(),
    {
        match self {
            Num::Fin(a) => fit(round_quot(a as i128, 1_000_000) * 1_000_000),
            _ => self,
        }
    }

    pub open spec fn spec_min(self, other: Num) -> Num {
        if self.is_nan() || other.lt(self) {
            other
        } else {
            self
        }
    }

    /// The smaller of the two; where one is not a number, the other.
    #[verifier::when_used_as_spec(spec_min)]
    pub fn min(self, other: Num) -> (r: Num)
        ensures
            r == self.min(other),
    {
        if self.is_nan() || other.lt(self) {
            other
        } else {
            self
        }
    }

    pub open spec fn spec_max(self, other: Num) -> Num {
        if self.is_nan() || self.lt(other) {
            other
        } else {
            self
        }
    }

    /// The larger of the two; where one is not a number, the other.
    #[verifier::when_used_as_spec(spec_max)]
    pub fn max(self, other: Num) -> (r: Num)
        ensures
            r == self.max(other),
    {
        if self.is_nan() || self.lt(other) {
            other
        } else {
            self
        }
    }

    /// The whole number `x`.
    pub fn of(x: i64) -> (r: Num)
        ensures
            r == whole(x as int),
    {
        fit(x as i128 * 1_000_000)
    }
}

pub open spec fn spec_or(o: Option<Num>, default: Num) -> Num {
    match o {
        Some(x) => x,
        None => default,
    }
}

/// What was read, or `default` where nothing was.
#[verifier::when_used_as_spec(spec_or)]
pub fn or(o: Option<Num>, default: Num) -> (r: Num)
    ensures
        r == or(o, default),
{
    match o {
        Some(x) => x,
        None => default,
    }
}

/// Rounding a quotient moves it by at most half: scaled back up, the rounded
/// value differs from the dividend by no more than half the divisor.
pub proof fn round_div_error(n: int, d: int)
    requires
        d > 0,
    ensures
        2 * (round_div(n, d) * d - n) <= d,
        2 * (n - round_div(n, d) * d) <= d,
{
    let h = d / 2;
    let m = if n >= 0 { n } else { -n };
    let q = (m + h) / d;
    vstd::arithmetic::div_mod::lemma_fundamental_div_mod(m + h, d);
    assert(q * d == d * q) by (nonlinear_arith);
    assert((-q) * d == -(q * d)) by (nonlinear_arith);
}

/// Rounding a quotient keeps the order of the dividends.
pub proof fn round_div_is_monotone(m: int, n: int, d: int)
    requires
        d > 0,
        m <= n,
    ensures
        round_div(m, d) <= round_div(n, d),
{
    let h = d / 2;
    if m >= 0 {
        vstd::arithmetic::div_mod::lemma_div_is_ordered(m + h, n + h, d);
    } else if n >= 0 {
        vstd::arithmetic::div_mod::lemma_div_pos_is_pos(-m + h, d);
        vstd::arithmetic::div_mod::lemma_div_pos_is_pos(n + h, d);
    } else {
        vstd::arithmetic::div_mod::lemma_div_is_ordered(-n + h, -m + h, d);
    }
}

/// A product does not depend on the order of its factors.
pub proof fn times_commutes(a: Num, b: Num)
    ensures
        a.times(b) == b.times(a),
{
    if a.is_finite() && b.is_finite() {
        assert(a.micros() * b.micros() == b.micros() * a.micros()) by (nonlinear_arith);
    }
}

/// Multiplying by something that is not negative keeps the order, as long as both
/// products are numbers.
pub proof fn times_is_monotone(a: Num, b: Num, k: Num)
    requires
        a.le(b),
        Num::Fin(0).le(a),
        k.is_finite(),
        Num::Fin(0).le(k),
    ensures
        !a.times(k).is_nan() && !b.times(k).is_nan() ==> a.times(k).le(b.times(k)),
        a.is_finite() ==> Num::Fin(0).le(a.times(k)),
        b.is_finite() ==> Num::Fin(0).le(b.times(k)),
{
    if a.is_finite() {
        let x = a.micros();
        let z = k.micros();
        assert(0 <= x * z) by (nonlinear_arith)
            requires
                0 <= x,
                0 <= z,
        ;
        round_div_is_monotone(0, x * z, 1_000_000);
    }
    if a.is_finite() && b.is_finite() {
        let x = a.micros();
        let y = b.micros();
        let z = k.micros();
        assert(0 <= x * z <= y * z) by (nonlinear_arith)
            requires
                0 <= x <= y,
                0 <= z,
        ;
        round_div_is_monotone(x * z, y * z, 1_000_000);
        round_div_is_monotone(0, y * z, 1_000_000);
    }
}

/// Dividing a number that is not negative by a positive one gives neither a negative
/// number nor "not a number".
pub proof fn over_keeps_sign(a: Num, d: i64)
    requires
        a.is_finite(),
        Num::Fin(0).le(a),
        d > 0,
    ensures
        Num::Fin(0).le(a.over(Num::Fin(d))),
{
    round_div_is_monotone(0, a.micros() * 1_000_000, d as int);
    vstd::arithmetic::div_mod::lemma_div_pos_is_pos(0 + d as int / 2, d as int);
}

/// A magnitude is never negative, and "not a number" has none.
pub proof fn abs_is_not_negative(x: Num)
    ensures
        x.abs().lt(Num::Fin(0)) == false,
        x.abs().is_nan() == x.is_nan(),
{
}

/// The smaller of two values is one of them and exceeds neither, unless one is
/// not a number: then it is the other.
pub proof fn min_is_a_lower_bound(a: Num, b: Num)
    ensures
        a.min(b) == a || a.min(b) == b,
        !a.is_nan() && !b.is_nan() ==> a.min(b).le(a) && a.min(b).le(b),
        a.is_nan() ==> a.min(b) == b,
        b.is_nan() ==> a.min(b) == a,
{
}

/// The larger of two values is one of them and is below neither, unless one is
/// not a number: then it is the other.
pub proof fn max_is_an_upper_bound(a: Num, b: Num)
    ensures
        a.max(b) == a || a.max(b) == b,
        !a.is_nan() && !b.is_nan() ==> a.le(a.max(b)) && b.le(a.max(b)),
        a.is_nan() ==> a.max(b) == b,
        b.is_nan() ==> a.max(b) == a,
{
}

/// Does `a` lie within `tol` of `b`?
pub open spec fn near(a: int, b: int, tol: int) -> bool {
    -tol <= a - b <= tol
}

/// Finite and no larger than a million million either way: what a few of these add up to
/// stays within the range.
pub open spec fn moderate(x: Num) -> bool {
    x is Fin && -1_000_000_000_000_000_000 <= x->Fin_0 <= 1_000_000_000_000_000_000
}

/// Sums and differences of counts are exact, and held at the end of the range where they
/// would leave it.
pub proof fn sums_are_exact(a: i64, b: i64)
    ensures
        Num::Fin(a).plus(Num::Fin(b)) == Num::Fin(
            if a + b > i64::MAX {
                i64::MAX
            } else if a + b < i64::MIN {
                i64::MIN
            } else {
                (a + b) as i64
            },
        ),
        Num::Fin(a).minus(Num::Fin(b)) == Num::Fin(
            if a - b > i64::MAX {
                i64::MAX
            } else if a - b < i64::MIN {
                i64::MIN
            } else {
                (a - b) as i64
            },
        ),
        a != i64::MIN ==> Num::Fin(a).neg() == Num::Fin((-a) as i64),
        a != i64::MIN ==> Num::Fin(a).abs() == Num::Fin(
            if a < 0 {
                (-a) as i64
            } else {
                a
            },
        ),
{
}

/// Finite values are ordered as their counts, the infinities lie outside them, and
/// "not a number" is neither above nor below anything.
pub proof fn order_is_that_of_the_counts(a: i64, b: i64, x: Num)
    ensures
        Num::Fin(a).lt(Num::Fin(b)) == (a < b),
        Num::Fin(a).le(Num::Fin(b)) == (a <= b),
        Num::Fin(a).same(Num::Fin(b)) == (a == b),
        Num::Fin(a).min(Num::Fin(b)) == Num::Fin(
            if a < b {
                a
            } else {
                b
            },
        ),
        Num::Fin(a).max(Num::Fin(b)) == Num::Fin(
            if a < b {
                b
            } else {
                a
            },
        ),
        Num::Fin(a).lt(Num::PosInf) && Num::NegInf.lt(Num::Fin(a)) && Num::NegInf.lt(Num::PosInf),
        !Num::PosInf.le(Num::Fin(a)) && !Num::Fin(a).le(Num::NegInf),
        !x.lt(x) && !x.lt(Num::Nan) && !Num::Nan.lt(x) && !x.le(Num::Nan) && !Num::Nan.le(x),
        !x.same(Num::Nan),
        x.is_finite() <==> x is Fin,
        x.is_nan() <==> x is Nan,
{
}

/// A product of counts is the nearest millionth to the true one, halves away from zero,
/// with the sign that the factors give it.
pub proof fn products_are_rounded(a: i64, b: i64)
    requires
        -9_000_000_000_000_000_000_000_000 <= a * b <= 9_000_000_000_000_000_000_000_000,
    ensures
        ({
            let p = Num::Fin(a).times(Num::Fin(b));
            &&& p is Fin
            &&& near(2_000_000 * p->Fin_0, 2 * (a * b), 1_000_000)
            &&& a * b >= 0 ==> p->Fin_0 >= 0
            &&& a * b <= 0 ==> p->Fin_0 <= 0
            &&& a * b >= 500_000 ==> p->Fin_0 >= 1
            &&& a * b <= -500_000 ==> p->Fin_0 <= -1
        }),
{
    let n = a * b;
    let r = round_div(n, 1_000_000);
    round_div_error(n, 1_000_000);
    assert(-9_000_000_000_000_000_001 <= r <= 9_000_000_000_000_000_001);
    assert(Num::Fin(a).times(Num::Fin(b)) == Num::Fin(r as i64));
}

/// A quotient of counts is the nearest millionth to the true one.
pub proof fn quotients_are_rounded(a: i64, b: i64)
    requires
        b > 0,
        -9_000_000_000_000_000_000 * b <= a * 1_000_000 <= 9_000_000_000_000_000_000 * b,
    ensures
        ({
            let q = Num::Fin(a).over(Num::Fin(b));
            &&& q is Fin
            &&& near(2 * (q->Fin_0 * b), 2 * (a * 1_000_000), b as int)
        }),
        Num::Fin(a).over(Num::Fin((-b) as i64)) == Num::Fin(a).over(Num::Fin(b)).neg(),
        a > 0 ==> Num::Fin(a).over(Num::Fin(0)) == Num::PosInf,
        a < 0 ==> Num::Fin(a).over(Num::Fin(0)) == Num::NegInf,
        a == 0 ==> Num::Fin(a).over(Num::Fin(0)) == Num::Nan,
{
    let n = a * 1_000_000;
    let r = round_div(n, b as int);
    round_div_error(n, b as int);
    assert(-9_000_000_000_000_000_001 <= r <= 9_000_000_000_000_000_001) by (nonlinear_arith)
        requires
            2 * (r * b - n) <= b,
            2 * (n - r * b) <= b,
            -9_000_000_000_000_000_000 * b <= n <= 9_000_000_000_000_000_000 * b,
            b > 0,
    ;
    if a == 0 {
        vstd::arithmetic::div_mod::lemma_basic_div(b as int / 2, b as int);
    }
    assert(round_div(-a * 1_000_000, b as int) == -r);
}

/// Rounding goes to the nearest whole number, halves away from zero.
pub proof fn rounding_is_to_the_nearest(a: i64)
    requires
        -9_000_000_000_000_000_000 <= a <= 9_000_000_000_000_000_000,
    ensures
        ({
            let r = Num::Fin(a).round();
            &&& r is Fin
            &&& r->Fin_0 % 1_000_000 == 0
            &&& near(r->Fin_0 as int, a as int, 500_000)
            &&& a >= 0 ==> r->Fin_0 - a > -500_000
            &&& a <= 0 ==> r->Fin_0 - a < 500_000
        }),
{
    round_div_error(a as int, 1_000_000);
}

/// What is not finite spreads: "not a number" through every sum, product and quotient,
/// an infinity through every sum with a finite value.
pub proof fn special_values_spread(x: Num, a: i64)
    ensures
        x.plus(Num::Nan) == Num::Nan && Num::Nan.plus(x) == Num::Nan,
        x.minus(Num::Nan) == Num::Nan && Num::Nan.minus(x) == Num::Nan,
        x.times(Num::Nan) == Num::Nan && Num::Nan.times(x) == Num::Nan,
        x.over(Num::Nan) == Num::Nan && Num::Nan.over(x) == Num::Nan,
        Num::PosInf.plus(Num::Fin(a)) == Num::PosInf && Num::NegInf.plus(Num::Fin(a))
            == Num::NegInf,
        Num::Fin(a).minus(Num::PosInf) == Num::NegInf && Num::Fin(a).minus(Num::NegInf)
            == Num::PosInf,
        Num::PosInf.minus(Num::PosInf) == Num::Nan && Num::PosInf.plus(Num::NegInf) == Num::Nan,
        a > 0 ==> Num::PosInf.times(Num::Fin(a)) == Num::PosInf && Num::NegInf.times(Num::Fin(a))
            == Num::NegInf,
        a < 0 ==> Num::PosInf.times(Num::Fin(a)) == Num::NegInf,
        Num::PosInf.times(Num::Fin(0)) == Num::Nan,
        Num::PosInf.neg() == Num::NegInf && Num::NegInf.abs() == Num::PosInf,
        or(Some(x), Num::Fin(a)) == x && or(None, x) == x,
{
}

} // verus!
