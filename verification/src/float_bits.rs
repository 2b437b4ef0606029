//! Comparing IEEE-754 double-precision values through their bit patterns.
//!
//! The measurements and settings of a master are doubles. The library does not
//! compute with them; it only compares them with its thresholds, and that
//! comparison is exact on the bit pattern (`f64::to_bits`): for values that are
//! not NaN, ordering the sign-and-magnitude reading of the pattern orders the
//! numbers, with `-0.0` equal to `0.0`; NaN compares with nothing.
use vstd::prelude::*;

verus! {

/// A double, held as its bit pattern (`f64::to_bits`).
#[derive(Clone, Copy)]
pub struct FloatBits {
    pub bits: u64,
}

/// `2^63`: the sign bit.
pub const SIGN_BIT: u64 = 0x8000_0000_0000_0000;

/// The pattern of positive infinity; above it (without sign), NaN.
pub const INFINITY_BITS: u64 = 0x7ff0_0000_0000_0000;

impl FloatBits {
    /// The pattern without its sign bit.
    pub open spec fn magnitude(self) -> int {
        (self.bits % SIGN_BIT) as int
    }

    pub open spec fn negative(self) -> bool {
        self.bits >= SIGN_BIT
    }

    /// `f64::is_nan`.
    pub open spec fn nan(self) -> bool {
        self.magnitude() > INFINITY_BITS
    }

    /// `f64::is_finite`.
    pub open spec fn finite(self) -> bool {
        self.magnitude() < INFINITY_BITS
    }

    /// The position of a value that is not NaN on the number line.
    pub open spec fn key(self) -> int {
        if self.negative() {
            -self.magnitude()
        } else {
            self.magnitude()
        }
    }

    /// `<` between doubles.
    pub open spec fn lt(self, other: FloatBits) -> bool {
        !self.nan() && !other.nan() && self.key() < other.key()
    }

    /// `<=` between doubles.
    pub open spec fn le(self, other: FloatBits) -> bool {
        !self.nan() && !other.nan() && self.key() <= other.key()
    }

    /// `f64::abs`: the pattern with its sign bit cleared.
    pub open spec fn abs_value(self) -> FloatBits {
        FloatBits { bits: (self.bits % SIGN_BIT) as u64 }
    }

    pub fn is_finite(self) -> (r: bool)
        ensures
            r == self.finite(),
    {
        self.bits % SIGN_BIT < INFINITY_BITS
    }

    pub fn is_nan(self) -> (r: bool)
        ensures
            r == self.nan(),
    {
        self.bits % SIGN_BIT > INFINITY_BITS
    }

    pub fn less_than(self, other: FloatBits) -> (r: bool)
        ensures
            r == self.lt(other),
    {
        if self.is_nan() || other.is_nan() {
            return false;
        }
        let a = self.bits % SIGN_BIT;
        let b = other.bits % SIGN_BIT;
        let an = self.bits >= SIGN_BIT;
        let bn = other.bits >= SIGN_BIT;
        if an && bn {
            b < a
        } else if an {
            !(a == 0 && b == 0)
        } else if bn {
            false
        } else {
            a < b
        }
    }

    pub fn less_or_equal(self, other: FloatBits) -> (r: bool)
        ensures
            r == self.le(other),
    {
        if self.is_nan() || other.is_nan() {
            return false;
        }
        !other.less_than(self)
    }

    pub fn abs(self) -> (r: FloatBits)
        ensures
            r == self.abs_value(),
    {
        FloatBits { bits: self.bits % SIGN_BIT }
    }
}

/// `0.0`
pub const ZERO: u64 = 0x0;

/// `1.0`
pub const ONE: u64 = 0x3ff0_0000_0000_0000;

/// `2.0`
pub const TWO: u64 = 0x4000_0000_0000_0000;

/// `-1.0`
pub const MINUS_ONE: u64 = 0xbff0_0000_0000_0000;

pub open spec fn float(bits: u64) -> FloatBits {
    FloatBits { bits }
}

} // verus!
