//! Exact fractions, and their rounding to hundredths.

use vstd::prelude::*;

verus! {

/// Bound on the numerator and the denominator of a [`Ratio`].
pub const RATIO_LIMIT: i128 = 0x10_0000_0000_0000_0000_0000_0000;

/// A fraction of two integers, with a positive denominator.
#[derive(Debug, Clone, Copy)]
pub struct Ratio {
    num: i128,
    den: i128,
}

/// `x` rounded to the nearest integer, ties going away from zero.
pub open spec fn round_half_away(x: real) -> int {
    if x >= 0real {
        (x + 1real / 2real).floor()
    } else {
        -((-x + 1real / 2real).floor())
    }
}

/// The number of whole hundredths nearest to `x`, ties going away from zero.
pub open spec fn to_hundredths(x: real) -> int {
    round_half_away(x * 100real)
}

/// `x` rounded to hundredths, ties going away from zero.
pub open spec fn in_hundredths(x: real) -> real {
    to_hundredths(x) as real / 100real
}

impl Ratio {
    #[verifier::type_invariant]
    closed spec fn valid(self) -> bool {
        &&& -RATIO_LIMIT <= self.num <= RATIO_LIMIT
        &&& 0 < self.den <= RATIO_LIMIT
    }

    pub closed spec fn spec_num(self) -> int {
        self.num as int
    }

    pub closed spec fn spec_den(self) -> int {
        self.den as int
    }

    /// The number that the fraction stands for.
    pub open spec fn value(self) -> real {
        self.spec_num() as real / self.spec_den() as real
    }

    /// The fraction `num / den`.
    pub fn new(num: i128, den: i128) -> (r: Ratio)
        requires
            -RATIO_LIMIT <= num <= RATIO_LIMIT,
            0 < den <= RATIO_LIMIT,
        ensures
            r.spec_num() == num,
            r.spec_den() == den,
            r.value() == num as real / den as real,
    {
        Ratio { num, den }
    }

    /// The numerator.
    pub fn numerator(&self) -> (n: i128)
        ensures
            n == self.spec_num(),
            -RATIO_LIMIT <= n <= RATIO_LIMIT,
    {
        proof {
            use_type_invariant(self);
        }
        self.num
    }

    /// The denominator, which is positive.
    pub fn denominator(&self) -> (d: i128)
        ensures
            d == self.spec_den(),
            0 < d <= RATIO_LIMIT,
    {
        proof {
            use_type_invariant(self);
        }
        self.den
    }

    /// The value rounded to hundredths.
    pub fn rounded(&self) -> (r: Ratio)
        requires
            -RATIO_LIMIT <= to_hundredths(self.value()) <= RATIO_LIMIT,
        ensures
            r.spec_num() == to_hundredths(self.value()),
            r.spec_den() == 100,
            r.value() == in_hundredths(self.value()),
    {
        Ratio::new(self.hundredths(), 100)
    }

    /// The value in whole hundredths, rounded to the nearest, ties going away from zero.
    pub fn hundredths(&self) -> (n: i128)
        ensures
            n == to_hundredths(self.value()),
    {
        proof {
            use_type_invariant(self);
        }
        let num: i128 = self.num;
        let den: i128 = self.den;
        if num >= 0 {
            let n: i128 = (200 * num + den) / (2 * den);
            proof {
                lemma_nearest(num as int, den as int, n as int);
                assert(num as real / den as real >= 0real) by (nonlinear_arith)
                    requires
                        num >= 0,
                        den > 0,
                ;
            }
            n
        } else {
            let n: i128 = (200 * (-num) + den) / (2 * den);
            proof {
                lemma_nearest(-num, den as int, n as int);
                let x = num as real / den as real;
                assert((-num) as real / den as real == -x && x < 0real) by (nonlinear_arith)
                    requires
                        x == num as real / den as real,
                        num < 0,
                        den > 0,
                ;
            }
            -n
        }
    }
}

/// Rounding half up by an integer division.
proof fn lemma_nearest(num: int, den: int, n: int)
    requires
        num >= 0,
        den > 0,
        n == (200 * num + den) / (2 * den),
    ensures
        n == (num as real / den as real * 100real + 1real / 2real).floor(),
{
    let a = 200 * num + den;
    let b = 2 * den;
    assert(n * b <= a < (n + 1) * b) by (nonlinear_arith)
        requires
            n == a / b,
            b > 0,
    ;
    let x = num as real / den as real * 100real + 1real / 2real;
    let d = den as real;
    assert(num as real / d * d == num as real) by (nonlinear_arith)
        requires
            d > 0real,
    ;
    assert(x * (b as real) == a as real) by (nonlinear_arith)
        requires
            x == num as real / d * 100real + 1real / 2real,
            num as real / d * d == num as real,
            b as real == 2real * d,
            a as real == 200real * (num as real) + d,
    ;
    assert((n * b) as real == n as real * (b as real)) by (nonlinear_arith);
    assert(((n + 1) * b) as real == (n as real + 1real) * (b as real)) by (nonlinear_arith);
    assert(n as real <= x < n as real + 1real) by (nonlinear_arith)
        requires
            b as real > 0real,
            n as real * (b as real) <= x * (b as real),
            x * (b as real) < (n as real + 1real) * (b as real),
    ;
}

/// Rounding to hundredths moves a value by at most half a hundredth.
pub proof fn law_rounding_error(x: real)
    ensures
        -1real / 200real <= in_hundredths(x) - x <= 1real / 200real,
{
}

/// A value in whole hundredths is its own rounding.
pub proof fn law_rounding_is_idempotent(x: real)
    ensures
        in_hundredths(in_hundredths(x)) == in_hundredths(x),
{
    let n = to_hundredths(x);
    assert(n as real / 100real * 100real == n as real);
    assert(to_hundredths(n as real / 100real) == n);
}

/// Rounding keeps the order of values.
pub proof fn law_rounding_is_monotonic(x: real, y: real)
    requires
        x <= y,
    ensures
        in_hundredths(x) <= in_hundredths(y),
{
    let half = 1real / 2real;
    let a = x * 100real;
    let b = y * 100real;
    if x >= 0real {
        lemma_floor_is_monotonic(a + half, b + half);
    } else if y >= 0real {
        lemma_floor_is_monotonic(0real, -a + half);
        lemma_floor_is_monotonic(0real, b + half);
    } else {
        lemma_floor_is_monotonic(-b + half, -a + half);
    }
    assert(to_hundredths(x) <= to_hundredths(y));
}

proof fn lemma_floor_is_monotonic(x: real, y: real)
    requires
        x <= y,
    ensures
        x.floor() <= y.floor(),
{
}

} // verus!
