//! Exact scores.
//!
//! A [`Ratio`] is an exact rational number; the factor scorers and the
//! weighted total work on ratios so that nothing is lost before the final
//! rounding. A [`Score`] is a decimal number with four places after the
//! point, the form in which results are stored.

use vstd::prelude::*;

verus! {

/// The real number `n / d`.
pub open spec fn ratio_of(n: int, d: int) -> real {
    n as real / d as real
}

/// The smaller of two reals.
pub open spec fn min_real(a: real, b: real) -> real {
    if a <= b {
        a
    } else {
        b
    }
}

/// `a / b` rounded towards zero, for a positive `b`.
pub open spec fn div_towards_zero(a: int, b: int) -> int {
    if a >= 0 {
        a / b
    } else {
        -((-a) / b)
    }
}

/// The integer nearest to `x`; a value halfway between two integers goes to
/// the one further from zero.
pub open spec fn round_half_away(x: real) -> int {
    if x >= 0real {
        (x + 1real / 2real).floor()
    } else {
        -((1real / 2real - x).floor())
    }
}

/// Largest denominator a [`Ratio`] holds: 2^84.
pub const RATIO_DEN_MAX: i128 = 0x10_0000_0000_0000_0000_0000;

/// Largest magnitude of a [`Ratio`]'s numerator: 2^116.
pub const RATIO_NUM_MAX: i128 = 0x10_0000_0000_0000_0000_0000_0000_0000;

/// An exact rational number `numer / denom` with a positive denominator.
#[derive(Clone, Copy, Debug)]
pub struct Ratio {
    num: i128,
    den: i128,
}

impl Ratio {
    #[verifier::type_invariant]
    spec fn inv(self) -> bool {
        Self::representable(self.num as int, self.den as int)
    }

    /// Whether `n / d` can be held: the denominator is positive and both
    /// parts are within the limits.
    pub open spec fn representable(n: int, d: int) -> bool {
        &&& 0 < d <= RATIO_DEN_MAX
        &&& -RATIO_NUM_MAX <= n <= RATIO_NUM_MAX
    }

    /// The numerator.
    pub closed spec fn numer(self) -> int {
        self.num as int
    }

    /// The denominator.
    pub closed spec fn denom(self) -> int {
        self.den as int
    }

    /// Validity of a ratio: every ratio that executable code holds is valid.
    pub open spec fn wf(self) -> bool {
        Self::representable(self.numer(), self.denom())
    }

    /// The number this ratio stands for.
    pub open spec fn value(self) -> real {
        ratio_of(self.numer(), self.denom())
    }

    /// The ratio `num / den`, if it can be held.
    pub fn new(num: i128, den: i128) -> (r: Option<Ratio>)
        ensures
            r is Some <==> Self::representable(num as int, den as int),
            r matches Some(q) ==> q.numer() == num && q.denom() == den && q.wf(),
    {
        if 0 < den && den <= RATIO_DEN_MAX && -RATIO_NUM_MAX <= num && num <= RATIO_NUM_MAX {
            Some(Ratio { num, den })
        } else {
            None
        }
    }

    /// The ratio `num / den`.
    pub fn of(num: i128, den: i128) -> (r: Ratio)
        requires
            Self::representable(num as int, den as int),
        ensures
            r.numer() == num,
            r.denom() == den,
            r.wf(),
    {
        Ratio { num, den }
    }

    /// The whole number `n`.
    pub fn whole(n: i64) -> (r: Ratio)
        ensures
            r.numer() == n,
            r.denom() == 1,
            r.wf(),
            r.value() == n as real,
    {
        proof {
            lemma_ratio_whole(n as int);
        }
        Ratio { num: n as i128, den: 1 }
    }

    /// The numerator.
    pub fn numerator(&self) -> (n: i128)
        ensures
            n == self.numer(),
            self.wf(),
    {
        proof {
            use_type_invariant(self);
        }
        self.num
    }

    /// The denominator.
    pub fn denominator(&self) -> (d: i128)
        ensures
            d == self.denom(),
            self.wf(),
    {
        proof {
            use_type_invariant(self);
        }
        self.den
    }

    /// Whether the value is at least `points`.
    pub fn at_least(&self, points: i32) -> (b: bool)
        ensures
            b == (self.value() >= points as real),
    {
        proof {
            use_type_invariant(self);
            lemma_ratio_at_least(self.num as int, self.den as int, points as int);
            assert(-0x8000_0000 * RATIO_DEN_MAX <= points * self.den <= 0x8000_0000
                * RATIO_DEN_MAX) by (nonlinear_arith)
                requires
                    -0x8000_0000 <= points < 0x8000_0000,
                    0 < self.den <= RATIO_DEN_MAX,
            ;
        }
        self.num >= (points as i128) * self.den
    }

    /// A hundred times the value, rounded to the nearest integer, halves away
    /// from zero: the value in hundredths.
    pub fn hundredths(&self) -> (h: i128)
        ensures
            h == round_half_away(self.value() * 100real),
    {
        proof {
            use_type_invariant(self);
        }
        if self.num >= 0 {
            proof {
                lemma_round_hundredths(self.num as int, self.den as int);
            }
            (200 * self.num + self.den) / (2 * self.den)
        } else {
            let n: i128 = -self.num;
            proof {
                lemma_round_hundredths(n as int, self.den as int);
                lemma_ratio_neg(self.num as int, self.den as int);
            }
            -((200 * n + self.den) / (2 * self.den))
        }
    }
}

/// `x` rounded to two places after the point, halves away from zero.
pub open spec fn round_to_hundredths(x: real) -> real {
    round_half_away(x * 100real) as real / 100real
}

/// Largest magnitude, in hundredths, that a [`Score`] can hold.
pub const SCORE_HUNDREDTHS_MAX: i128 = 92_233_720_368_547_758;

/// A decimal number with four places after the point, held as a whole number
/// of ten-thousandths.
#[derive(Clone, Copy, Debug, PartialEq, Eq, Structural)]
pub struct Score {
    units: i64,
}

impl Score {
    /// The score as a whole number of ten-thousandths.
    pub closed spec fn units(self) -> int {
        self.units as int
    }

    /// The number this score stands for.
    pub open spec fn value(self) -> real {
        self.units() as real / 10000real
    }

    /// Whether the last two of the four decimal places are zero.
    pub open spec fn is_two_decimal(self) -> bool {
        self.units() % 100 == 0
    }

    /// The score of `units` ten-thousandths, for `units` that 64 bits hold.
    pub closed spec fn of_units(units: int) -> Score {
        Score { units: units as i64 }
    }

    /// A score is known by its ten-thousandths.
    pub proof fn lemma_of_units(self)
        ensures
            Score::of_units(self.units()) == self,
    {
    }

    /// The ten-thousandths of a score fit in 64 bits.
    pub proof fn lemma_units_range(self)
        ensures
            i64::MIN <= self.units() <= i64::MAX,
    {
    }

    /// The score of a number of ten-thousandths holds that number.
    pub proof fn lemma_units_of(units: int)
        requires
            i64::MIN <= units <= i64::MAX,
        ensures
            Score::of_units(units).units() == units,
    {
    }

    /// The score of `units` ten-thousandths.
    pub fn from_ten_thousandths(units: i64) -> (s: Score)
        ensures
            s.units() == units,
            s == Score::of_units(units as int),
    {
        Score { units }
    }

    /// The score of `points` whole points.
    pub fn from_points(points: i32) -> (s: Score)
        ensures
            s.units() == points * 10000,
            s.value() == points as real,
            s.is_two_decimal(),
    {
        let units: i64 = points as i64 * 10000;
        Score { units }
    }

    /// The score as a whole number of ten-thousandths.
    pub fn ten_thousandths(&self) -> (units: i64)
        ensures
            units == self.units(),
    {
        self.units
    }

    /// `ratio` rounded to two places after the point, halves away from zero;
    /// `None` where the result is too large to hold.
    pub fn rounding(ratio: &Ratio) -> (r: Option<Score>)
        ensures
            r is Some <==> -SCORE_HUNDREDTHS_MAX <= round_half_away(ratio.value() * 100real)
                <= SCORE_HUNDREDTHS_MAX,
            r matches Some(s) ==> {
                &&& s.value() == round_to_hundredths(ratio.value())
                &&& s.units() == 100 * round_half_away(ratio.value() * 100real)
                &&& s.is_two_decimal()
            },
    {
        let h = ratio.hundredths();
        if -SCORE_HUNDREDTHS_MAX <= h && h <= SCORE_HUNDREDTHS_MAX {
            let units: i64 = (h * 100) as i64;
            Some(Score { units })
        } else {
            None
        }
    }
}

/// `n / 1` is `n`.
pub proof fn lemma_ratio_whole(n: int)
    ensures
        ratio_of(n, 1) == n as real,
{
    let d = 1int;
    assert(n as real / d as real == n as real) by (nonlinear_arith)
        requires
            d == 1,
    ;
}

/// `n / d >= k` exactly when `n >= k * d`, for a positive `d`.
pub proof fn lemma_ratio_at_least(n: int, d: int, k: int)
    requires
        d > 0,
    ensures
        ratio_of(n, d) >= k as real <==> n >= k * d,
{
    assert(n as real / d as real >= k as real <==> n >= k * d) by (nonlinear_arith)
        requires
            d > 0,
    ;
}

/// `n / d <= k` exactly when `n <= k * d`, for a positive `d`.
pub proof fn lemma_ratio_at_most(n: int, d: int, k: int)
    requires
        d > 0,
    ensures
        ratio_of(n, d) <= k as real <==> n <= k * d,
{
    assert(n as real / d as real <= k as real <==> n <= k * d) by (nonlinear_arith)
        requires
            d > 0,
    ;
}

/// `(-n) / d == -(n / d)`.
pub proof fn lemma_ratio_neg(n: int, d: int)
    requires
        d > 0,
    ensures
        ratio_of(-n, d) == -ratio_of(n, d),
{
    assert((-n) as real / d as real == -(n as real / d as real)) by (nonlinear_arith)
        requires
            d > 0,
    ;
}

/// Rounding a non-negative `n / d` to hundredths by integer division.
pub proof fn lemma_round_hundredths(n: int, d: int)
    requires
        d > 0,
        n >= 0,
    ensures
        round_half_away(ratio_of(n, d) * 100real) == (200 * n + d) / (2 * d),
        (200 * n + d) / (2 * d) >= 0,
{
    let q = (200 * n + d) / (2 * d);
    let r = (200 * n + d) % (2 * d);
    assert(200 * n + d == q * (2 * d) + r && 0 <= r < 2 * d && q >= 0) by (nonlinear_arith)
        requires
            d > 0,
            n >= 0,
            q == (200 * n + d) / (2 * d),
            r == (200 * n + d) % (2 * d),
    ;
    let x = n as real / d as real * 100real + 1real / 2real;
    assert(q as real <= x && x < (q + 1) as real && n as real / d as real >= 0real)
        by (nonlinear_arith)
        requires
            d > 0,
            n >= 0,
            200 * n + d == q * (2 * d) + r,
            0 <= r < 2 * d,
            x == n as real / d as real * 100real + 1real / 2real,
    ;
    assert(x.floor() == q);
}

} // verus!
