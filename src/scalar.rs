use vstd::prelude::*;

verus! {

/// Mask of the sign bit of a binary32 bit pattern.
pub const SIGN_MASK: u32 = 0x8000_0000;

/// Mask of the exponent and fraction bits of a binary32 bit pattern.
pub const MAGNITUDE_MASK: u32 = 0x7fff_ffff;

/// Bit pattern of positive infinity; every magnitude above it is a NaN.
pub const INFINITY_BITS: u32 = 0x7f80_0000;

/// Bit pattern of one.
pub const ONE_BITS: u32 = 0x3f80_0000;

/// A real number as the tracer stores it: an IEEE 754 binary32 value, held by
/// its bit pattern. Comparisons, negation and absolute value are exact
/// operations on the pattern; arithmetic is done by the caller.
#[derive(Clone, Copy, Debug, PartialEq)]
pub struct Scalar {
    pub bits: u32,
}

/// Exponent and fraction bits: the distance from zero, in the order of the
/// binary32 format (larger pattern, larger magnitude).
pub open spec fn magnitude(s: Scalar) -> u32 {
    s.bits & MAGNITUDE_MASK
}

pub open spec fn is_negative_signed(s: Scalar) -> bool {
    s.bits & SIGN_MASK != 0
}

pub open spec fn is_nan_value(s: Scalar) -> bool {
    magnitude(s) > INFINITY_BITS
}

/// An integer whose order is the numeric order of non-NaN binary32 values:
/// the magnitude, negated for a set sign bit. Both zeros map to 0.
pub open spec fn order_key(s: Scalar) -> int {
    if is_negative_signed(s) {
        -(magnitude(s) as int)
    } else {
        magnitude(s) as int
    }
}

/// `a < b` of binary32 values: false whenever either is a NaN.
pub open spec fn less(a: Scalar, b: Scalar) -> bool {
    !is_nan_value(a) && !is_nan_value(b) && order_key(a) < order_key(b)
}

/// `a <= b` of binary32 values: false whenever either is a NaN.
pub open spec fn less_eq(a: Scalar, b: Scalar) -> bool {
    !is_nan_value(a) && !is_nan_value(b) && order_key(a) <= order_key(b)
}

pub open spec fn zero_value() -> Scalar {
    Scalar { bits: 0 }
}

pub open spec fn one_value() -> Scalar {
    Scalar { bits: ONE_BITS }
}

impl Scalar {
    pub fn from_bits(bits: u32) -> (r: Scalar)
        ensures
            r.bits == bits,
    {
        Scalar { bits }
    }

    pub fn to_bits(&self) -> (r: u32)
        ensures
            r == self.bits,
    {
        self.bits
    }

    /// Positive zero.
    pub fn zero() -> (r: Scalar)
        ensures
            r == zero_value(),
            order_key(r) == 0,
            !is_nan_value(r),
    {
        assert((0u32 & MAGNITUDE_MASK) == 0u32 && (0u32 & SIGN_MASK) == 0u32) by (bit_vector);
        Scalar { bits: 0 }
    }

    pub fn one() -> (r: Scalar)
        ensures
            r == one_value(),
            order_key(r) == ONE_BITS as int,
            !is_nan_value(r),
    {
        assert((ONE_BITS & MAGNITUDE_MASK) == ONE_BITS && (ONE_BITS & SIGN_MASK) == 0u32)
            by (bit_vector);
        Scalar { bits: ONE_BITS }
    }

    pub fn is_nan(&self) -> (r: bool)
        ensures
            r == is_nan_value(*self),
    {
        self.bits & MAGNITUDE_MASK > INFINITY_BITS
    }

    /// `self < other`.
    pub fn lt(&self, other: &Scalar) -> (r: bool)
        ensures
            r == less(*self, *other),
    {
        let a = self.bits & MAGNITUDE_MASK;
        let b = other.bits & MAGNITUDE_MASK;
        if a > INFINITY_BITS || b > INFINITY_BITS {
            return false;
        }
        let a_negative = self.bits & SIGN_MASK != 0;
        let b_negative = other.bits & SIGN_MASK != 0;
        if a_negative {
            if b_negative {
                b < a
            } else {
                a != 0 || b != 0
            }
        } else {
            if b_negative {
                false
            } else {
                a < b
            }
        }
    }

    /// `self > other`.
    pub fn gt(&self, other: &Scalar) -> (r: bool)
        ensures
            r == less(*other, *self),
    {
        other.lt(self)
    }

    /// `self <= other`.
    pub fn le(&self, other: &Scalar) -> (r: bool)
        ensures
            r == less_eq(*self, *other),
    {
        !self.is_nan() && !other.is_nan() && !other.lt(self)
    }

    /// `self >= other`.
    pub fn ge(&self, other: &Scalar) -> (r: bool)
        ensures
            r == less_eq(*other, *self),
    {
        other.le(self)
    }

    /// Negation: the sign bit flips, nothing else changes.
    pub fn neg(&self) -> (r: Scalar)
        ensures
            r.bits == self.bits ^ SIGN_MASK,
            magnitude(r) == magnitude(*self),
            is_nan_value(r) == is_nan_value(*self),
            order_key(r) == -order_key(*self),
    {
        let b = self.bits;
        let r = Scalar { bits: b ^ SIGN_MASK };
        assert((b ^ SIGN_MASK) & MAGNITUDE_MASK == b & MAGNITUDE_MASK) by (bit_vector);
        assert(((b ^ SIGN_MASK) & SIGN_MASK != 0) == (b & SIGN_MASK == 0)) by (bit_vector);
        r
    }

    /// Absolute value: the sign bit clears, nothing else changes.
    pub fn abs(&self) -> (r: Scalar)
        ensures
            r.bits == self.bits & MAGNITUDE_MASK,
            magnitude(r) == magnitude(*self),
            is_nan_value(r) == is_nan_value(*self),
            !is_negative_signed(r),
            order_key(r) == magnitude(*self) as int,
    {
        let b = self.bits;
        let r = Scalar { bits: b & MAGNITUDE_MASK };
        assert((b & MAGNITUDE_MASK) & MAGNITUDE_MASK == b & MAGNITUDE_MASK) by (bit_vector);
        assert((b & MAGNITUDE_MASK) & SIGN_MASK == 0) by (bit_vector);
        r
    }
}

} // verus!
