//! Exact ratios of two counts.
//!
//! Every ratio in this library is a quotient of two counts, with the
//! convention that a quotient over a zero denominator is zero. `Ratio`
//! keeps both counts, so comparisons against thresholds are exact.

use vstd::prelude::*;

use crate::text::{decimal, decimal_text, two_digit_text, two_digits};

verus! {

/// The quotient `numerator / denominator`; zero when the denominator is zero.
#[derive(Debug, Clone, Copy, PartialEq, Eq, Structural)]
pub struct Ratio {
    /// The part.
    pub numerator: u64,
    /// The whole; a zero whole makes the ratio zero.
    pub denominator: u64,
}

/// Product of two `u64` values, computed without overflow.
fn wide_mul(a: u64, b: u64) -> (r: u128)
    ensures
        r == a * b,
{
    assert(a * b <= u64::MAX * u64::MAX) by (nonlinear_arith);
    (a as u128) * (b as u128)
}

impl Ratio {
    /// A ratio of the two counts.
    pub fn new(numerator: u64, denominator: u64) -> (r: Ratio)
        ensures
            r.numerator == numerator,
            r.denominator == denominator,
    {
        Ratio { numerator, denominator }
    }

    /// The quotient is strictly below `n / d` (for `d > 0`).
    pub open spec fn below(self, n: int, d: int) -> bool {
        if self.denominator == 0 {
            0 < n
        } else {
            self.numerator * d < n * self.denominator
        }
    }

    /// The quotient is strictly above `n / d` (for `d > 0`).
    pub open spec fn above(self, n: int, d: int) -> bool {
        if self.denominator == 0 {
            n < 0
        } else {
            self.numerator * d > n * self.denominator
        }
    }

    /// Whether the quotient is strictly below `n / d`.
    pub fn is_below(&self, n: u64, d: u64) -> (b: bool)
        requires
            d > 0,
        ensures
            b == self.below(n as int, d as int),
    {
        if self.denominator == 0 {
            0 < n
        } else {
            wide_mul(self.numerator, d) < wide_mul(n, self.denominator)
        }
    }

    /// Whether the quotient is strictly above `n / d`.
    pub fn is_above(&self, n: u64, d: u64) -> (b: bool)
        requires
            d > 0,
        ensures
            b == self.above(n as int, d as int),
    {
        if self.denominator == 0 {
            false
        } else {
            wide_mul(self.numerator, d) > wide_mul(n, self.denominator)
        }
    }

    /// The quotient in hundredths, rounded to the nearest; a tie goes to
    /// the even neighbour.
    pub open spec fn hundredths(self) -> nat {
        if self.denominator == 0 {
            0
        } else {
            let x = 100 * self.numerator;
            let d = self.denominator as int;
            let q = x / d;
            let r = x % d;
            if 2 * r > d || (2 * r == d && q % 2 == 1) {
                (q + 1) as nat
            } else {
                q as nat
            }
        }
    }

    /// The quotient written with exactly two decimals: the exact quotient
    /// rounded to hundredths, ties to even. This is what `{:.2}` writes of a
    /// float equal to the quotient; a float nearest a quotient that is a
    /// decimal tie (such as 203/200) may be written rounded the other way.
    pub open spec fn fixed2(self) -> Seq<char> {
        let h = self.hundredths();
        decimal(h / 100) + seq!['.'] + two_digits(h % 100)
    }

    /// The quotient written with exactly two decimals.
    pub fn fixed2_text(&self) -> (s: String)
        ensures
            s@ == self.fixed2(),
    {
        let h: u128 = if self.denominator == 0 {
            0
        } else {
            let x: u128 = 100 * (self.numerator as u128);
            let d: u128 = self.denominator as u128;
            let q: u128 = x / d;
            let r: u128 = x % d;
            assert(q <= x) by (nonlinear_arith)
                requires
                    q == x / d,
                    d >= 1,
                    x >= 0,
            ;
            if 2 * r > d || (2 * r == d && q % 2 == 1) {
                q + 1
            } else {
                q
            }
        };
        assert(h == self.hundredths());
        let whole: u128 = h / 100;
        let frac: u128 = h % 100;
        assert(whole <= self.numerator);
        let mut s = decimal_text(whole as u64);
        proof {
            reveal_strlit(".");
        }
        s.append(".");
        let tail = two_digit_text(frac as u64);
        s.append(tail.as_str());
        s
    }
}

} // verus!
