//! Exact fractions, the numbers in which the crop geometry is stated.

use vstd::prelude::*;
use vstd::arithmetic::div_mod::lemma_div_multiples_vanish_quotient;

verus! {

/// A fraction of two integers. It stands for a number where `den` is positive.
pub struct Ratio {
    pub num: int,
    pub den: int,
}

impl Ratio {
    /// The fraction `num / den`.
    pub open spec fn new(num: int, den: int) -> Ratio {
        Ratio { num, den }
    }

    /// A whole number as a fraction.
    pub open spec fn whole(n: int) -> Ratio {
        Ratio { num: n, den: 1 }
    }

    /// The difference of two fractions.
    pub open spec fn minus(self, other: Ratio) -> Ratio {
        Ratio { num: self.num * other.den - other.num * self.den, den: self.den * other.den }
    }

    /// The product of two fractions.
    pub open spec fn times(self, other: Ratio) -> Ratio {
        Ratio { num: self.num * other.num, den: self.den * other.den }
    }

    /// The quotient of a fraction by a positive one.
    pub open spec fn over(self, other: Ratio) -> Ratio {
        Ratio { num: self.num * other.den, den: self.den * other.num }
    }

    /// Whether this fraction is larger than the other.
    pub open spec fn exceeds(self, other: Ratio) -> bool {
        self.num * other.den > other.num * self.den
    }

    /// This fraction, or the cap if this one is larger.
    pub open spec fn at_most(self, cap: Ratio) -> Ratio {
        if self.exceeds(cap) {
            cap
        } else {
            self
        }
    }

    /// The whole number next to this fraction in the direction of zero.
    pub open spec fn trunc(self) -> int {
        if self.num >= 0 {
            self.num / self.den
        } else {
            -((-self.num) / self.den)
        }
    }

    /// The whole number nearest to a fraction that is not negative; a half
    /// goes up.
    pub open spec fn round(self) -> int {
        (2 * self.num + self.den) / (2 * self.den)
    }
}

/// A factor common to both parts of a fraction does not change what it is cut to.
pub proof fn lemma_trunc_scaled(num: int, den: int, k: int)
    requires
        den > 0,
        k > 0,
    ensures
        Ratio::new(k * num, k * den).trunc() == Ratio::new(num, den).trunc(),
{
    if num >= 0 {
        assert(k * num >= 0) by (nonlinear_arith)
            requires
                k > 0,
                num >= 0,
        ;
        lemma_div_multiples_vanish_quotient(k, num, den);
    } else {
        assert(k * num < 0) by (nonlinear_arith)
            requires
                k > 0,
                num < 0,
        ;
        assert(-(k * num) == k * (-num)) by (nonlinear_arith);
        lemma_div_multiples_vanish_quotient(k, -num, den);
    }
}

} // verus!
