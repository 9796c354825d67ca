//! Exact fractions of integers: the model of every quantity that is derived by division.

use vstd::prelude::*;

verus! {

/// The fraction `numer / denom` of two mathematical integers.
pub struct Ratio {
    pub numer: int,
    pub denom: int,
}

impl Ratio {
    /// The integer `n` as a fraction.
    pub open spec fn whole(n: int) -> Ratio {
        Ratio { numer: n, denom: 1 }
    }

    /// The fraction stands for a number: its denominator is not zero.
    pub open spec fn defined(self) -> bool {
        self.denom != 0
    }

    /// Both fractions stand for the same number.
    pub open spec fn same_value(self, other: Ratio) -> bool {
        self.numer * other.denom == other.numer * self.denom
    }

    /// The quotient of two fractions.
    pub open spec fn over(self, divisor: Ratio) -> Ratio {
        Ratio { numer: self.numer * divisor.denom, denom: self.denom * divisor.numer }
    }

    /// The fraction stands for zero.
    pub open spec fn is_zero(self) -> bool {
        self.numer == 0
    }

    /// The fraction stands for a number that is not negative.
    pub open spec fn non_negative(self) -> bool {
        (self.numer >= 0 && self.denom > 0) || (self.numer <= 0 && self.denom < 0)
    }

    /// The largest integer that is not above the fraction, for a positive denominator.
    pub open spec fn floor(self) -> int
        recommends
            self.denom > 0,
    {
        self.numer / self.denom
    }
}

} // verus!
