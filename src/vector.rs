use vstd::prelude::*;
use crate::scalar::{
    is_nan_value, less, less_eq, magnitude, one_value, order_key, zero_value, Scalar,
};

verus! {

/// Bit pattern of the near-zero threshold, 1e-8.
pub const NEAR_ZERO_BITS: u32 = 0x322b_cc77;

/// A triple of components, used as a point, a direction or an RGB color.
#[derive(Clone, Copy, Debug, PartialEq)]
pub struct Vector {
    pub data: [Scalar; 3],
}

pub open spec fn component(v: Vector, i: int) -> Scalar {
    v.data@[i]
}

/// A component counts as zero when its absolute value is below the threshold.
pub open spec fn component_near_zero(s: Scalar) -> bool {
    !is_nan_value(s) && magnitude(s) < NEAR_ZERO_BITS
}

pub open spec fn near_zero(v: Vector) -> bool {
    component_near_zero(component(v, 0)) && component_near_zero(component(v, 1))
        && component_near_zero(component(v, 2))
}

/// The component-wise negation: each sign bit flipped.
pub open spec fn negated(v: Vector) -> Vector {
    Vector {
        data: [
            Scalar { bits: component(v, 0).bits ^ 0x8000_0000u32 },
            Scalar { bits: component(v, 1).bits ^ 0x8000_0000u32 },
            Scalar { bits: component(v, 2).bits ^ 0x8000_0000u32 },
        ],
    }
}

pub open spec fn splat(s: Scalar) -> Vector {
    Vector { data: [s, s, s] }
}

/// A rejection sample with this squared length lies strictly inside the
/// unit ball (the sample is kept unless `squared_length >= 1`).
pub open spec fn inside_unit_ball(squared_length: Scalar) -> bool {
    !less_eq(one_value(), squared_length)
}

/// A sample that can be scaled to a point on the unit sphere: strictly inside
/// the unit ball, and not at its centre, so that it has a direction.
pub open spec fn sphere_sample_usable(squared_length: Scalar) -> bool {
    less(zero_value(), squared_length) && less(squared_length, one_value())
}

impl Vector {
    pub fn new(x: Scalar, y: Scalar, z: Scalar) -> (r: Vector)
        ensures
            r.data@ == seq![x, y, z],
    {
        let r = Vector { data: [x, y, z] };
        assert(r.data@ =~= seq![x, y, z]);
        r
    }

    /// The vector with the same value in every component.
    pub fn splat(s: Scalar) -> (r: Vector)
        ensures
            r == splat(s),
    {
        Vector { data: [s, s, s] }
    }

    /// The zero vector (black), every component positive zero.
    pub fn zero() -> (r: Vector)
        ensures
            r == splat(zero_value()),
    {
        Vector { data: [Scalar::zero(), Scalar::zero(), Scalar::zero()] }
    }

    pub fn x(&self) -> (r: Scalar)
        ensures
            r == component(*self, 0),
    {
        self.data[0]
    }

    pub fn y(&self) -> (r: Scalar)
        ensures
            r == component(*self, 1),
    {
        self.data[1]
    }

    pub fn z(&self) -> (r: Scalar)
        ensures
            r == component(*self, 2),
    {
        self.data[2]
    }

    pub fn r(&self) -> (r: Scalar)
        ensures
            r == component(*self, 0),
    {
        self.data[0]
    }

    pub fn g(&self) -> (r: Scalar)
        ensures
            r == component(*self, 1),
    {
        self.data[1]
    }

    pub fn b(&self) -> (r: Scalar)
        ensures
            r == component(*self, 2),
    {
        self.data[2]
    }

    /// Component-wise negation.
    pub fn neg(&self) -> (r: Vector)
        ensures
            r == negated(*self),
            forall|i: int|
                0 <= i < 3 ==> order_key(#[trigger] component(r, i)) == -order_key(
                    component(*self, i),
                ) && is_nan_value(component(r, i)) == is_nan_value(component(*self, i)),
    {
        let r = Vector { data: [self.data[0].neg(), self.data[1].neg(), self.data[2].neg()] };
        assert(r.data@ =~= negated(*self).data@);
        r
    }

    /// Whether every component lies strictly within the threshold of zero.
    pub fn is_near_zero(&self) -> (r: bool)
        ensures
            r == near_zero(*self),
    {
        let epsilon = Scalar::from_bits(NEAR_ZERO_BITS);
        assert(!is_nan_value(epsilon) && order_key(epsilon) == NEAR_ZERO_BITS as int) by {
            assert(NEAR_ZERO_BITS & 0x7fff_ffffu32 == NEAR_ZERO_BITS) by (bit_vector);
            assert(NEAR_ZERO_BITS & 0x8000_0000u32 == 0u32) by (bit_vector);
        }
        self.data[0].abs().lt(&epsilon) && self.data[1].abs().lt(&epsilon)
            && self.data[2].abs().lt(&epsilon)
    }
}

impl Default for Vector {
    fn default() -> (r: Vector)
        ensures
            r == splat(zero_value()),
    {
        Vector::zero()
    }
}

/// The decision of the unit-disc rejection sampler: a candidate whose squared
/// length is this value is kept.
pub fn is_inside_unit_ball(squared_length: Scalar) -> (r: bool)
    ensures
        r == inside_unit_ball(squared_length),
{
    !squared_length.ge(&Scalar::one())
}

/// The decision of the unit-sphere rejection sampler: a candidate whose
/// squared length is this value is kept, to be normalized.
pub fn is_usable_sphere_sample(squared_length: Scalar) -> (r: bool)
    ensures
        r == sphere_sample_usable(squared_length),
{
    Scalar::zero().lt(&squared_length) && squared_length.lt(&Scalar::one())
}

} // verus!
