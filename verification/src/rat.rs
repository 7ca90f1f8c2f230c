//! Exact rational scalars.
//!
//! The native dispatch description carries fractional quantities (sharpness,
//! jitter offsets, exposure, camera parameters). The library keeps each of
//! them as an exact numerator/denominator pair, so the clamping and
//! defaulting rules can be verified; the unverified shell divides the pair
//! out into the native struct's fields at the very edge.

use vstd::prelude::*;

verus! {

/// An exact fraction `num / den`. Well-formed values keep `den` positive.
#[derive(Clone, Copy, Debug, PartialEq, Eq, Structural)]
pub struct Rat {
    pub num: i64,
    pub den: i64,
}

/// Mathematical (unbounded) counterpart of [`Rat`], for specifications.
pub struct Frac {
    pub num: int,
    pub den: int,
}

/// Sum of two fractions.
pub open spec fn frac_add(a: Frac, b: Frac) -> Frac {
    Frac { num: a.num * b.den + b.num * a.den, den: a.den * b.den }
}

/// The fraction scaled by an integer.
pub open spec fn frac_scale(a: Frac, k: int) -> Frac {
    Frac { num: k * a.num, den: a.den }
}

/// Equality of the represented rational numbers (cross multiplication).
pub open spec fn frac_eq(a: Frac, b: Frac) -> bool {
    a.num * b.den == b.num * a.den
}

impl Rat {
    /// Denominators must be positive; every constructor keeps this.
    pub open spec fn wf(self) -> bool {
        self.den > 0
    }

    /// The unbounded fraction this value represents.
    pub open spec fn frac(self) -> Frac {
        Frac { num: self.num as int, den: self.den as int }
    }

    /// The represented number is strictly positive.
    pub open spec fn spec_is_positive(self) -> bool {
        self.num > 0
    }

    /// `self` clamped into the unit interval `[0, 1]`.
    pub open spec fn spec_clamp_unit(self) -> Rat {
        if self.num < 0 {
            Rat { num: 0, den: 1 }
        } else if self.num > self.den {
            Rat { num: 1, den: 1 }
        } else {
            self
        }
    }

    /// Builds the fraction `num / den`.
    pub fn new(num: i64, den: i64) -> (r: Rat)
        requires
            den > 0,
        ensures
            r == (Rat { num: num, den: den }),
            r.wf(),
    {
        Rat { num, den }
    }

    /// The rational number zero.
    pub fn zero() -> (r: Rat)
        ensures
            r == (Rat { num: 0i64, den: 1i64 }),
            r.wf(),
    {
        Rat { num: 0, den: 1 }
    }

    /// The rational number one.
    pub fn one() -> (r: Rat)
        ensures
            r == (Rat { num: 1i64, den: 1i64 }),
            r.wf(),
    {
        Rat { num: 1, den: 1 }
    }

    /// Whether the represented number is strictly positive.
    pub fn is_positive(&self) -> (r: bool)
        requires
            self.wf(),
        ensures
            r == self.spec_is_positive(),
    {
        self.num > 0
    }

    /// Clamps the represented number into `[0, 1]`.
    pub fn clamp_unit(&self) -> (r: Rat)
        requires
            self.wf(),
        ensures
            r == self.spec_clamp_unit(),
            r.wf(),
            0 <= r.num <= r.den,
    {
        if self.num < 0 {
            Rat { num: 0, den: 1 }
        } else if self.num > self.den {
            Rat { num: 1, den: 1 }
        } else {
            *self
        }
    }
}

} // verus!
