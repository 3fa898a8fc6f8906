use vstd::prelude::*;
use crate::hit_record::{
    front_facing, get_face_and_normal_against_ray, normal_against_ray, HitRecord,
};
use crate::material::Material;
use crate::scalar::{is_nan_value, less, less_eq, order_key, zero_value, Scalar};
use crate::vector::{negated, Vector};

verus! {

/// A sphere. A negative radius keeps the surface and turns its normals
/// inward, which models a hollow shell.
#[derive(Clone, Copy, Debug, PartialEq)]
pub struct Sphere {
    pub centre: Vector,
    pub radius: Scalar,
    pub material: Material,
}

/// `t_min <= t <= t_max`; never for a NaN.
pub open spec fn within(t: Scalar, t_min: Scalar, t_max: Scalar) -> bool {
    less_eq(t_min, t) && less_eq(t, t_max)
}

/// The root of the ray-sphere quadratic that a hit uses: none for a negative
/// discriminant, else the nearer root if it is in range, else the farther one
/// if it is, else none.
pub open spec fn chosen_root(
    discriminant: Scalar,
    near_root: Scalar,
    far_root: Scalar,
    t_min: Scalar,
    t_max: Scalar,
) -> Option<Scalar> {
    if less(discriminant, zero_value()) {
        None
    } else if within(near_root, t_min, t_max) {
        Some(near_root)
    } else if within(far_root, t_min, t_max) {
        Some(far_root)
    } else {
        None
    }
}

impl Sphere {
    /// Picks the ray parameter of the hit from the quadratic's discriminant
    /// and its two roots `(-half_b -/+ sqrt(discriminant)) / a`.
    pub fn choose_root(
        discriminant: Scalar,
        near_root: Scalar,
        far_root: Scalar,
        t_min: Scalar,
        t_max: Scalar,
    ) -> (r: Option<Scalar>)
        ensures
            r == chosen_root(discriminant, near_root, far_root, t_min, t_max),
    {
        if discriminant.lt(&Scalar::zero()) {
            return None;
        }
        if t_min.le(&near_root) && near_root.le(&t_max) {
            Some(near_root)
        } else if t_min.le(&far_root) && far_root.le(&t_max) {
            Some(far_root)
        } else {
            None
        }
    }

    /// The record of a hit at parameter `t` and point `position`, where the
    /// outward normal is `outward_normal` and the dot product of the ray's
    /// direction with it is `direction_dot_outward`.
    pub fn record_hit(
        &self,
        t: Scalar,
        position: Vector,
        outward_normal: Vector,
        direction_dot_outward: Scalar,
    ) -> (r: HitRecord)
        ensures
            r.origin == position,
            r.t == t,
            r.is_front_face == front_facing(direction_dot_outward),
            r.normal == normal_against_ray(direction_dot_outward, outward_normal),
            r.material == self.material,
    {
        let (is_front_face, normal) = get_face_and_normal_against_ray(
            direction_dot_outward,
            outward_normal,
        );
        HitRecord { origin: position, normal, t, is_front_face, material: self.material }
    }
}

/// A ray that grazes the sphere has a zero discriminant, of either sign, and
/// one double root: it hits there exactly when that root is in range.
pub proof fn tangent_ray_hits_once(discriminant: Scalar, root: Scalar, t_min: Scalar, t_max: Scalar)
    requires
        !is_nan_value(discriminant),
        order_key(discriminant) == 0,
    ensures
        chosen_root(discriminant, root, root, t_min, t_max) == (if within(root, t_min, t_max) {
            Some(root)
        } else {
            None
        }),
{
    assert((0u32 & 0x7fff_ffffu32) == 0u32 && (0u32 & 0x8000_0000u32) == 0u32) by (bit_vector);
}

/// A ray that enters the sphere within range hits the near root on the front
/// face, and the normal reported is the outward one.
pub proof fn entering_ray_hits_front_face(
    discriminant: Scalar,
    near_root: Scalar,
    far_root: Scalar,
    t_min: Scalar,
    t_max: Scalar,
    direction_dot_outward: Scalar,
    outward_normal: Vector,
)
    requires
        !less(discriminant, zero_value()),
        within(near_root, t_min, t_max),
        less(direction_dot_outward, zero_value()),
    ensures
        chosen_root(discriminant, near_root, far_root, t_min, t_max) == Some(near_root),
        front_facing(direction_dot_outward),
        normal_against_ray(direction_dot_outward, outward_normal) == outward_normal,
{
}

/// A ray that starts inside the sphere, so that only the far root is in
/// range, hits the far root on the back face, and the normal reported is the
/// negated outward one.
pub proof fn ray_from_inside_hits_back_face(
    discriminant: Scalar,
    near_root: Scalar,
    far_root: Scalar,
    t_min: Scalar,
    t_max: Scalar,
    direction_dot_outward: Scalar,
    outward_normal: Vector,
)
    requires
        !less(discriminant, zero_value()),
        !within(near_root, t_min, t_max),
        within(far_root, t_min, t_max),
        !less(direction_dot_outward, zero_value()),
    ensures
        chosen_root(discriminant, near_root, far_root, t_min, t_max) == Some(far_root),
        !front_facing(direction_dot_outward),
        normal_against_ray(direction_dot_outward, outward_normal) == negated(outward_normal),
{
}

} // verus!
