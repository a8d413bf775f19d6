//! Real-valued quantities (coordinates, elevations, property values).
//!
//! A quantity is held as the 64-bit pattern of an IEEE 754 double, so that it
//! passes through the library without loss. Ordering is defined on the
//! pattern: the sign is the top bit, the remaining 63 bits grow with the
//! absolute value, both zeros are equal, and a NaN compares false with
//! everything.

use vstd::prelude::*;

verus! {

/// The sign bit of a pattern.
pub const SIGN_BIT: u64 = 0x8000_0000_0000_0000;

/// The pattern of positive infinity; a larger magnitude is a NaN.
pub const INFINITY_BITS: u64 = 0x7ff0_0000_0000_0000;

/// A real-valued quantity, as the bit pattern of a double.
#[derive(Clone, Copy, Debug)]
pub struct Scalar {
    pub bits: u64,
}

impl Scalar {
    /// The pattern without its sign bit.
    pub open spec fn magnitude(self) -> int {
        if self.bits >= SIGN_BIT {
            self.bits - SIGN_BIT
        } else {
            self.bits as int
        }
    }

    /// Whether the sign bit is set.
    pub open spec fn negative(self) -> bool {
        self.bits >= SIGN_BIT
    }

    /// Whether the pattern is a NaN.
    pub open spec fn nan(self) -> bool {
        self.magnitude() > INFINITY_BITS
    }

    /// The place of a non-NaN pattern on the number line: patterns compare as
    /// their ranks do, and the two zeros share rank 0.
    pub open spec fn rank(self) -> int {
        if self.negative() {
            -self.magnitude()
        } else {
            self.magnitude()
        }
    }

    /// `self > other` as the numbers compare.
    pub open spec fn spec_gt(self, other: Scalar) -> bool {
        !self.nan() && !other.nan() && self.rank() > other.rank()
    }

    /// `self >= other` as the numbers compare.
    pub open spec fn spec_ge(self, other: Scalar) -> bool {
        !self.nan() && !other.nan() && self.rank() >= other.rank()
    }

    /// `self <= other` as the numbers compare.
    pub open spec fn spec_le(self, other: Scalar) -> bool {
        other.spec_ge(self)
    }

    /// `self < other` as the numbers compare.
    pub open spec fn spec_lt(self, other: Scalar) -> bool {
        other.spec_gt(self)
    }

    /// The quantity with the given bit pattern.
    pub fn from_bits(bits: u64) -> (s: Scalar)
        ensures
            s.bits == bits,
    {
        Scalar { bits }
    }

    /// The bit pattern of the quantity.
    pub fn to_bits(&self) -> (bits: u64)
        ensures
            bits == self.bits,
    {
        self.bits
    }

    /// Positive zero.
    pub fn zero() -> (s: Scalar)
        ensures
            s.bits == 0,
            s.rank() == 0,
            !s.nan(),
    {
        Scalar { bits: 0 }
    }

    fn abs_bits(&self) -> (m: u64)
        ensures
            m == self.magnitude(),
    {
        if self.bits >= SIGN_BIT {
            self.bits - SIGN_BIT
        } else {
            self.bits
        }
    }

    /// Whether the quantity is a NaN.
    pub fn is_nan(&self) -> (r: bool)
        ensures
            r == self.nan(),
    {
        self.abs_bits() > INFINITY_BITS
    }

    /// Whether `self` is strictly greater than `other`.
    pub fn gt(&self, other: &Scalar) -> (r: bool)
        ensures
            r == self.spec_gt(*other),
    {
        if self.is_nan() || other.is_nan() {
            return false;
        }
        let a = self.abs_bits();
        let b = other.abs_bits();
        let a_neg = self.bits >= SIGN_BIT;
        let b_neg = other.bits >= SIGN_BIT;
        if a_neg {
            b_neg && a < b
        } else if b_neg {
            a > 0 || b > 0
        } else {
            a > b
        }
    }

    /// Whether `self` is greater than or equal to `other`.
    pub fn ge(&self, other: &Scalar) -> (r: bool)
        ensures
            r == self.spec_ge(*other),
    {
        if self.is_nan() || other.is_nan() {
            return false;
        }
        let a = self.abs_bits();
        let b = other.abs_bits();
        let a_neg = self.bits >= SIGN_BIT;
        let b_neg = other.bits >= SIGN_BIT;
        if a_neg {
            if b_neg {
                a <= b
            } else {
                a == 0 && b == 0
            }
        } else if b_neg {
            true
        } else {
            a >= b
        }
    }

    /// Whether `self` is strictly less than `other`.
    pub fn lt(&self, other: &Scalar) -> (r: bool)
        ensures
            r == self.spec_lt(*other),
    {
        other.gt(self)
    }

    /// Whether `self` is less than or equal to `other`.
    pub fn le(&self, other: &Scalar) -> (r: bool)
        ensures
            r == self.spec_le(*other),
    {
        other.ge(self)
    }
}

/// Of two quantities that are not NaN, exactly one of `a > b` and `a <= b`
/// holds.
pub proof fn lemma_order_total(a: Scalar, b: Scalar)
    requires
        !a.nan(),
        !b.nan(),
    ensures
        a.spec_gt(b) != a.spec_le(b),
{
}

/// A NaN is neither greater than nor less than or equal to anything.
pub proof fn lemma_nan_unordered(a: Scalar, b: Scalar)
    requires
        a.nan() || b.nan(),
    ensures
        !a.spec_gt(b),
        !a.spec_ge(b),
        !a.spec_le(b),
        !a.spec_lt(b),
{
}

} // verus!
