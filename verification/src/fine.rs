//! Fine-grained numbers, for statistics that span many orders of magnitude.
//!
//! A [`Fine`] is a whole count of a millionth of a billionth of its unit. What cannot
//! be held that way, and everything computed from it, is [`Fine::Out`].

use crate::num::fit;
use crate::num::near;
use crate::num::round_quot;
use crate::num::Num;
use vstd::prelude::*;

verus! {

/// The count that stands for 1.
pub const ONE: i128 = 1_000_000_000_000_000;

/// No count, and no dividend of a quotient, is larger than this.
pub const LIMIT: i128 = 0x4000_0000_0000_0000_0000_0000_0000_0000;

/// A number in units of a millionth of a billionth.
#[derive(Clone, Copy, Debug, PartialEq, Eq, Structural)]
pub enum Fine {
    /// A count within the limit.
    Fin(i128),
    /// Too large to be held, or not a number at all.
    Out,
}

/// The number of `n` units, where they can be held.
pub open spec fn of_units(n: int) -> Fine {
    if -LIMIT <= n <= LIMIT {
        Fine::Fin(n as i128)
    } else {
        Fine::Out
    }
}

/// The number of `n / d` units, rounded, where the dividend can be held.
pub open spec fn of_quotient(n: int, d: int) -> Fine {
    if -LIMIT <= n <= LIMIT {
        Fine::Fin(crate::num::round_div(n, d) as i128)
    } else {
        Fine::Out
    }
}

/// Rounding a quotient by a whole divisor does not leave the dividend's range.
pub proof fn quotient_is_no_larger(n: int, d: int)
    requires
        d >= 1,
    ensures
        n >= 0 ==> 0 <= crate::num::round_div(n, d) <= n,
        n <= 0 ==> n <= crate::num::round_div(n, d) <= 0,
{
    let h = d / 2;
    let m = if n >= 0 {
        n
    } else {
        -n
    };
    let q = (m + h) / d;
    vstd::arithmetic::div_mod::lemma_fundamental_div_mod(m + h, d);
    vstd::arithmetic::div_mod::lemma_div_pos_is_pos(m + h, d);
    if m == 0 {
        vstd::arithmetic::div_mod::lemma_basic_div(h, d);
    } else if q > m {
        assert(d * q >= d * (m + 1)) by (nonlinear_arith)
            requires
                d >= 1,
                q >= m + 1,
        ;
        assert(d * (m + 1) == d * m + d) by (nonlinear_arith);
        assert(d * m >= m) by (nonlinear_arith)
            requires
                d >= 1,
                m >= 0,
        ;
    }
}

fn quotient(n: Option<i128>, d: i128) -> (r: Fine)
    requires
        0 < d <= LIMIT,
    ensures
        n matches Some(m) ==> r == of_quotient(m as int, d as int),
        n is None ==> r == Fine::Out,
{
    match n {
        Some(m) => if -LIMIT <= m && m <= LIMIT {
            Fine::Fin(round_quot(m, d))
        } else {
            Fine::Out
        },
        None => Fine::Out,
    }
}

fn units(n: Option<i128>) -> (r: Fine)
    ensures
        n matches Some(m) ==> r == of_units(m as int),
        n is None ==> r == Fine::Out,
{
    match n {
        Some(m) => if -LIMIT <= m && m <= LIMIT {
            Fine::Fin(m)
        } else {
            Fine::Out
        },
        None => Fine::Out,
    }
}

impl Fine {
    /// The count of units.
    pub open spec fn count(self) -> int
        recommends
            self is Fin,
    {
        self->Fin_0 as int
    }

    pub open spec fn spec_of(x: Num) -> Fine {
        match x {
            Num::Fin(m) => of_units(m * 1_000_000_000),
            _ => Fine::Out,
        }
    }

    /// A quantity, to the unit.
    #[verifier::when_used_as_spec(spec_of)]
    pub fn of(x: Num) -> (r: Fine)
        ensures
            r == Fine::of(x),
    {
        match x {
            Num::Fin(m) => Fine::Fin(m as i128 * 1_000_000_000),
            _ => Fine::Out,
        }
    }

    pub open spec fn spec_to_num(self) -> Num {
        match self {
            Fine::Fin(v) => crate::num::of_millionths(
                crate::num::round_div(v as int, 1_000_000_000),
            ),
            Fine::Out => Num::Nan,
        }
    }

    /// The nearest quantity; "not a number" where the number could not be held.
    #[verifier::when_used_as_spec(spec_to_num)]
    pub fn to_num(self) -> (r: Num)
        ensures
            r == self.to_num(),
    {
        match self {
            Fine::Fin(v) => if v > LIMIT {
                Num::Fin(i64::MAX)
            } else if v < -LIMIT {
                Num::Fin(i64::MIN)
            } else {
                fit(round_quot(v, 1_000_000_000))
            },
            Fine::Out => Num::Nan,
        }
    }

    pub open spec fn spec_plus(self, other: Fine) -> Fine {
        match (self, other) {
            (Fine::Fin(a), Fine::Fin(b)) => of_units(a + b),
            _ => Fine::Out,
        }
    }

    /// The sum.
    #[verifier::when_used_as_spec(spec_plus)]
    pub fn plus(self, other: Fine) -> (r: Fine)
        ensures
            r == self.plus(other),
    {
        match (self, other) {
            (Fine::Fin(a), Fine::Fin(b)) => units(a.checked_add(b)),
            _ => Fine::Out,
        }
    }

    pub open spec fn spec_minus(self, other: Fine) -> Fine {
        match (self, other) {
            (Fine::Fin(a), Fine::Fin(b)) => of_units(a - b),
            _ => Fine::Out,
        }
    }

    /// The difference.
    #[verifier::when_used_as_spec(spec_minus)]
    pub fn minus(self, other: Fine) -> (r: Fine)
        ensures
            r == self.minus(other),
    {
        match (self, other) {
            (Fine::Fin(a), Fine::Fin(b)) => units(a.checked_sub(b)),
            _ => Fine::Out,
        }
    }

    pub open spec fn spec_times(self, other: Fine) -> Fine {
        match (self, other) {
            (Fine::Fin(a), Fine::Fin(b)) => of_quotient(a * b, ONE as int),
            _ => Fine::Out,
        }
    }

    /// The product, rounded to the unit.
    #[verifier::when_used_as_spec(spec_times)]
    pub fn times(self, other: Fine) -> (r: Fine)
        ensures
            r == self.times(other),
    {
        match (self, other) {
            (Fine::Fin(a), Fine::Fin(b)) => quotient(a.checked_mul(b), ONE),
            _ => Fine::Out,
        }
    }

    pub open spec fn spec_over(self, other: Fine) -> Fine {
        match (self, other) {
            (Fine::Fin(a), Fine::Fin(b)) => if 0 < b <= LIMIT {
                of_quotient(a * ONE, b as int)
            } else {
                Fine::Out
            },
            _ => Fine::Out,
        }
    }

    /// The quotient by a positive number, rounded to the unit.
    #[verifier::when_used_as_spec(spec_over)]
    pub fn over(self, other: Fine) -> (r: Fine)
        ensures
            r == self.over(other),
    {
        match (self, other) {
            (Fine::Fin(a), Fine::Fin(b)) => if 0 < b && b <= LIMIT {
                quotient(a.checked_mul(ONE), b)
            } else {
                Fine::Out
            },
            _ => Fine::Out,
        }
    }

    pub open spec fn spec_scaled(self, x: Num) -> Fine {
        match (self, x) {
            (Fine::Fin(a), Num::Fin(m)) => of_quotient(a * m, 1_000_000),
            _ => Fine::Out,
        }
    }

    /// The product with a quantity, rounded to the unit.
    #[verifier::when_used_as_spec(spec_scaled)]
    pub fn scaled(self, x: Num) -> (r: Fine)
        ensures
            r == self.scaled(x),
    {
        match (self, x) {
            (Fine::Fin(a), Num::Fin(m)) => quotient(a.checked_mul(m as i128), 1_000_000),
            _ => Fine::Out,
        }
    }

    pub open spec fn spec_shared(self, x: Num) -> Fine {
        match (self, x) {
            (Fine::Fin(a), Num::Fin(m)) => if m > 0 {
                of_quotient(a * 1_000_000, m as int)
            } else {
                Fine::Out
            },
            _ => Fine::Out,
        }
    }

    /// The quotient by a positive quantity, rounded to the unit.
    #[verifier::when_used_as_spec(spec_shared)]
    pub fn shared(self, x: Num) -> (r: Fine)
        ensures
            r == self.shared(x),
    {
        match (self, x) {
            (Fine::Fin(a), Num::Fin(m)) => if m > 0 {
                quotient(a.checked_mul(1_000_000), m as i128)
            } else {
                Fine::Out
            },
            _ => Fine::Out,
        }
    }

    pub open spec fn spec_is_above(self, other: Fine) -> bool {
        match (self, other) {
            (Fine::Fin(a), Fine::Fin(b)) => a > b,
            _ => false,
        }
    }

    /// Are both held, and is this the larger one?
    #[verifier::when_used_as_spec(spec_is_above)]
    pub fn is_above(self, other: Fine) -> (r: bool)
        ensures
            r == self.is_above(other),
    {
        match (self, other) {
            (Fine::Fin(a), Fine::Fin(b)) => a > b,
            _ => false,
        }
    }
}

/// The largest whole number whose square does not exceed `n`.
pub open spec fn floor_root(n: int) -> int {
    choose|s: int| 0 <= s && #[trigger] (s * s) <= n && n < (s + 1) * (s + 1)
}

/// A number that a square does not exceed, and the next square does, has that root.
pub proof fn root_is_unique(n: int, s: int)
    requires
        0 <= s,
        s * s <= n,
        n < (s + 1) * (s + 1),
    ensures
        floor_root(n) == s,
{
    let t = floor_root(n);
    assert(0 <= t && t * t <= n && n < (t + 1) * (t + 1));
    if t < s {
        assert((t + 1) * (t + 1) <= s * s) by (nonlinear_arith)
            requires
                0 <= t,
                t + 1 <= s,
        ;
    } else if s < t {
        assert((s + 1) * (s + 1) <= t * t) by (nonlinear_arith)
            requires
                0 <= s,
                s + 1 <= t,
        ;
    }
}

/// A root is a quantity that is not negative.
pub proof fn root_is_not_negative(v: Fine)
    ensures
        Num::Fin(0).le(v.root()),
{
    match v {
        Fine::Fin(x) => if x > 0 {
            let n = x as int / 1_000;
            root_exists(n);
            let s = floor_root(n);
            assert(s <= 0x800_0000_0000_0000) by (nonlinear_arith)
                requires
                    0 <= s,
                    s * s <= n,
                    n <= 0x8000_0000_0000_0000_0000_0000_0000_0000int / 1_000,
            ;
        },
        Fine::Out => {},
    }
}

/// A number that is not negative has a root, which is not negative and not above it.
pub proof fn root_exists(n: int)
    requires
        0 <= n,
    ensures
        0 <= floor_root(n) <= n,
        floor_root(n) * floor_root(n) <= n,
        n < (floor_root(n) + 1) * (floor_root(n) + 1),
    decreases n,
{
    if n == 0 {
        let z: int = 0;
        assert(z * z <= n && n < (z + 1) * (z + 1)) by (nonlinear_arith)
            requires
                z == 0,
                n == 0,
        ;
        root_is_unique(n, z);
    } else {
        root_exists(n - 1);
        let s = floor_root(n - 1);
        if n < (s + 1) * (s + 1) {
            root_is_unique(n, s);
        } else {
            let t = s + 1;
            assert(t * t == n && (t + 1) * (t + 1) > n && t <= n) by (nonlinear_arith)
                requires
                    t == s + 1,
                    0 <= s,
                    n - 1 < (s + 1) * (s + 1),
                    n >= (s + 1) * (s + 1),
            ;
            root_is_unique(n, t);
        }
    }
}

impl Fine {
    pub open spec fn spec_root(self) -> Num {
        match self {
            Fine::Fin(v) => if v <= 0 {
                Num::Fin(0)
            } else {
                Num::Fin(floor_root(v as int / 1_000) as i64)
            },
            Fine::Out => Num::PosInf,
        }
    }

    /// The square root, down to the millionth: 0 of a number that is not positive, and
    /// no bound where the number could not be held.
    #[verifier::when_used_as_spec(spec_root)]
    pub fn root(self) -> (r: Num)
        ensures
            r == self.root(),
    {
        match self {
            Fine::Fin(v) => {
                if v <= 0 {
                    return Num::Fin(0);
                }
                let n: i128 = v / 1_000;
                let mut lo: i128 = 0;
                let mut hi: i128 = 0x800_0000_0000_0000;
                assert(hi * hi > n) by (nonlinear_arith)
                    requires
                        hi == 0x800_0000_0000_0000,
                        n <= 0x8000_0000_0000_0000_0000_0000_0000_0000int / 1_000,
                ;
                while lo + 1 < hi
                    invariant
                        0 <= lo < hi <= 0x800_0000_0000_0000,
                        lo * lo <= n,
                        n < hi * hi,
                    decreases hi - lo,
                {
                    let mid: i128 = (lo + hi) / 2;
                    assert(0 <= mid * mid <= 0x40_0000_0000_0000_0000_0000_0000_0000) by (nonlinear_arith)
                        requires
                            0 <= mid <= 0x800_0000_0000_0000,
                    ;
                    if mid * mid <= n {
                        lo = mid;
                    } else {
                        hi = mid;
                    }
                }
                proof {
                    root_is_unique(n as int, lo as int);
                }
                Num::Fin(lo as i64)
            },
            Fine::Out => Num::PosInf,
        }
    }
}

/// Sums and differences of units are exact as long as they can be held.
pub proof fn unit_sums_are_exact(a: i128, b: i128)
    ensures
        -LIMIT <= a + b <= LIMIT ==> Fine::Fin(a).plus(Fine::Fin(b)) == Fine::Fin((a + b) as i128),
        -LIMIT <= a - b <= LIMIT ==> Fine::Fin(a).minus(Fine::Fin(b)) == Fine::Fin((a - b) as i128),
        Fine::Fin(a).is_above(Fine::Fin(b)) == (a > b),
{
}

/// Products and quotients of units are the nearest ones to the true ones, as long as the
/// dividend can be held.
pub proof fn unit_products_are_rounded(a: i128, b: i128)
    ensures
        -LIMIT <= a * b <= LIMIT ==> ({
            let p = Fine::Fin(a).times(Fine::Fin(b));
            p is Fin && near(
                2_000_000_000_000_000 * p.count(),
                2 * (a * b),
                1_000_000_000_000_000,
            )
        }),
        0 < b <= LIMIT && -LIMIT <= a * 1_000_000_000_000_000 <= LIMIT ==> ({
            let q = Fine::Fin(a).over(Fine::Fin(b));
            q is Fin && near(2 * (q.count() * b), 2 * (a * 1_000_000_000_000_000), b as int)
        }),
{
    if -LIMIT <= a * b <= LIMIT {
        crate::num::round_div_error(a * b, 1_000_000_000_000_000);
        quotient_is_no_larger(a * b, 1_000_000_000_000_000);
    }
    if 0 < b <= LIMIT && -LIMIT <= a * 1_000_000_000_000_000 <= LIMIT {
        crate::num::round_div_error(a * 1_000_000_000_000_000, b as int);
        quotient_is_no_larger(a * 1_000_000_000_000_000, b as int);
    }
}

/// The same for products with a quantity and quotients by one.
pub proof fn quantity_products_are_rounded(a: i128, m: i64)
    ensures
        -LIMIT <= a * m <= LIMIT ==> ({
            let p = Fine::Fin(a).scaled(Num::Fin(m));
            p is Fin && near(2_000_000 * p.count(), 2 * (a * m), 1_000_000)
        }),
        0 < m && -LIMIT <= a * 1_000_000 <= LIMIT ==> ({
            let q = Fine::Fin(a).shared(Num::Fin(m));
            q is Fin && near(2 * (q.count() * m), 2 * (a * 1_000_000), m as int)
        }),
{
    if -LIMIT <= a * m <= LIMIT {
        crate::num::round_div_error(a * m, 1_000_000);
        quotient_is_no_larger(a * m, 1_000_000);
    }
    if 0 < m && -LIMIT <= a * 1_000_000 <= LIMIT {
        crate::num::round_div_error(a * 1_000_000, m as int);
        quotient_is_no_larger(a * 1_000_000, m as int);
    }
}

/// A quantity becomes a thousand million times as many units, and units the nearest
/// quantity.
pub proof fn units_and_quantities_agree(m: i64, v: i128)
    ensures
        Fine::of(Num::Fin(m)) is Fin && Fine::of(Num::Fin(m)).count() == m * 1_000_000_000,
        Fine::of(Num::Fin(m)).to_num() == Num::Fin(m),
        -9_000_000_000_000_000_000_000_000_000 <= v <= 9_000_000_000_000_000_000_000_000_000 ==> ({
            let n = Fine::Fin(v).to_num();
            n is Fin && near(2_000_000_000 * n->Fin_0, 2 * v, 1_000_000_000)
        }),
{
    crate::num::round_div_error(v as int, 1_000_000_000);
}

/// The root of a variance is its square root, down to the millionth.
pub proof fn root_is_the_square_root(v: i128)
    requires
        0 < v,
    ensures
        ({
            let s = Fine::Fin(v).root();
            &&& s is Fin
            &&& 0 <= s->Fin_0
            &&& 1_000 * (s->Fin_0 * s->Fin_0) <= v
            &&& v < 1_000 * ((s->Fin_0 + 1) * (s->Fin_0 + 1))
        }),
{
    let n = v as int / 1_000;
    root_exists(n);
    let s = floor_root(n);
    assert(s <= 0x800_0000_0000_0000) by (nonlinear_arith)
        requires
            0 <= s,
            s * s <= n,
            n <= 0x8000_0000_0000_0000_0000_0000_0000_0000int / 1_000,
    ;
}

} // verus!
