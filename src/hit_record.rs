use vstd::prelude::*;
use crate::material::Material;
use crate::scalar::{less, zero_value, Scalar};
use crate::vector::{negated, Vector};

verus! {

/// What a successful intersection test reports. The normal always points
/// against the ray that was cast.
#[derive(Clone, Copy, Debug, PartialEq)]
pub struct HitRecord {
    pub origin: Vector,
    pub normal: Vector,
    pub t: Scalar,
    pub is_front_face: bool,
    pub material: Material,
}

/// The ray meets the outer side of the surface: its direction has a negative
/// dot product with the outward normal.
pub open spec fn front_facing(direction_dot_outward: Scalar) -> bool {
    less(direction_dot_outward, zero_value())
}

/// The normal against the ray: the outward normal on the front face, its
/// negation on the back face.
pub open spec fn normal_against_ray(direction_dot_outward: Scalar, outward_normal: Vector) -> Vector {
    if front_facing(direction_dot_outward) {
        outward_normal
    } else {
        negated(outward_normal)
    }
}

/// Which face the ray hit, and the normal turned against the ray, given the
/// dot product of the ray's direction with the outward normal.
pub fn get_face_and_normal_against_ray(direction_dot_outward: Scalar, outward_normal: Vector) -> (r: (
    bool,
    Vector,
))
    ensures
        r.0 == front_facing(direction_dot_outward),
        r.1 == normal_against_ray(direction_dot_outward, outward_normal),
{
    let is_front_face = direction_dot_outward.lt(&Scalar::zero());
    let normal = if is_front_face {
        outward_normal
    } else {
        outward_normal.neg()
    };
    (is_front_face, normal)
}

} // verus!
