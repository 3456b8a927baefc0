//! Exact rational values: the resolution of a raw count and the physical
//! quantity that a count stands for.

use vstd::prelude::*;

verus! {

/// A mathematical fraction `num / den`.
pub struct Rational {
    pub num: int,
    pub den: int,
}

impl Rational {
    /// The number zero.
    pub open spec fn zero() -> Rational {
        Rational { num: 0, den: 1 }
    }

    /// The number one.
    pub open spec fn one() -> Rational {
        Rational { num: 1, den: 1 }
    }

    /// The denominator is positive.
    pub open spec fn valid(self) -> bool {
        self.den > 0
    }

    /// Both fractions denote the same number.
    pub open spec fn same(self, other: Rational) -> bool {
        self.num * other.den == other.num * self.den
    }

    /// This fraction denotes a smaller number than `other`.
    pub open spec fn below(self, other: Rational) -> bool {
        self.num * other.den < other.num * self.den
    }

    /// The fraction multiplied by the integer `k`.
    pub open spec fn times(self, k: int) -> Rational {
        Rational { num: self.num * k, den: self.den }
    }
}

/// Physical units per raw count, as the fraction `num / den`.
#[derive(Clone, Copy, Debug, PartialEq, Eq, Structural)]
pub struct Resolution {
    pub num: u32,
    pub den: u32,
}

/// A physical value, as the fraction `num / den`.
#[derive(Clone, Copy, Debug, PartialEq, Eq, Structural)]
pub struct Quantity {
    pub num: i64,
    pub den: i64,
}

impl View for Resolution {
    type V = Rational;

    open spec fn view(&self) -> Rational {
        Rational { num: self.num as int, den: self.den as int }
    }
}

impl View for Quantity {
    type V = Rational;

    open spec fn view(&self) -> Rational {
        Rational { num: self.num as int, den: self.den as int }
    }
}

impl Resolution {
    /// One unit per count: values scaled by it are the raw counts.
    pub fn unit() -> (r: Resolution)
        ensures
            r@ == Rational::one(),
    {
        Resolution { num: 1, den: 1 }
    }

    /// The physical value of `raw` counts at this resolution.
    pub fn scale(&self, raw: i16) -> (q: Quantity)
        ensures
            q@ == self@.times(raw as int),
    {
        assert(-32768 * 0xffff_ffff <= (raw as int) * (self.num as int) <= 32767 * 0xffff_ffff)
            by (nonlinear_arith)
            requires
                -32768 <= raw <= 32767,
                0 <= self.num <= 0xffff_ffff,
        ;
        assert((self.num as int) * (raw as int) == (raw as int) * (self.num as int))
            by (nonlinear_arith);
        Quantity { num: (raw as i64) * (self.num as i64), den: self.den as i64 }
    }
}

impl Quantity {
    /// The value zero.
    pub fn zero() -> (q: Quantity)
        ensures
            q@ == Rational::zero(),
    {
        Quantity { num: 0, den: 1 }
    }
}

} // verus!
