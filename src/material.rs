use vstd::prelude::*;
use crate::hit_record::HitRecord;
use crate::ray::Ray;
use crate::scalar::{less, one_value, Scalar};
use crate::vector::{near_zero, splat, Vector};

verus! {

/// A Lambertian surface: scatters in a random direction around the normal.
#[derive(Clone, Copy, Debug, PartialEq)]
pub struct DiffuseMaterial {
    pub albedo: Vector,
}

/// A mirror, roughened by `fuzziness` (expected within [0, 1]).
#[derive(Clone, Copy, Debug, PartialEq)]
pub struct MetalMaterial {
    pub albedo: Vector,
    pub fuzziness: Scalar,
}

/// A colorless refractive surface such as glass.
#[derive(Clone, Copy, Debug, PartialEq)]
pub struct DielectricMaterial {
    pub refraction_index: Scalar,
}

/// What a surface does with a ray that hits it.
#[derive(Clone, Copy, Debug, PartialEq)]
pub enum Material {
    Diffuse(DiffuseMaterial),
    Metal(MetalMaterial),
    Dielectric(DielectricMaterial),
}

/// The direction a diffuse bounce takes: the candidate, unless it has
/// cancelled out to nearly zero, in which case the normal.
pub open spec fn diffuse_direction(normal: Vector, candidate: Vector) -> Vector {
    if near_zero(candidate) {
        normal
    } else {
        candidate
    }
}

/// A fuzzed mirror direction leaves the surface only when it points to the
/// normal's side.
pub open spec fn metal_leaves_surface(direction_dot_normal: Scalar) -> bool {
    less(crate::scalar::zero_value(), direction_dot_normal)
}

/// Glass reflects when refraction is impossible (total internal reflection)
/// or when the uniform draw falls below the reflectance.
pub open spec fn dielectric_reflects(ratio_times_sine: Scalar, reflectance: Scalar, draw: Scalar) -> bool {
    less(one_value(), ratio_times_sine) || less(draw, reflectance)
}

impl DiffuseMaterial {
    /// Scatters from the hit point. `candidate` is the hit normal plus a random
    /// point on the unit sphere. A diffuse surface never absorbs.
    pub fn scatter(&self, hit_record: &HitRecord, candidate: Vector) -> (r: Option<(Vector, Ray)>)
        ensures
            r == Some(
                (
                    self.albedo,
                    Ray {
                        origin: hit_record.origin,
                        direction: diffuse_direction(hit_record.normal, candidate),
                    },
                ),
            ),
    {
        let direction = if candidate.is_near_zero() {
            hit_record.normal
        } else {
            candidate
        };
        Some((self.albedo, Ray::new(hit_record.origin, direction)))
    }
}

impl MetalMaterial {
    /// Scatters from the hit point along `direction`, the mirror direction
    /// plus `fuzziness` times a random point on the unit sphere, whose dot
    /// product with the hit normal is `direction_dot_normal`. Absorbs the ray
    /// when that direction does not leave the surface.
    pub fn scatter(&self, hit_record: &HitRecord, direction: Vector, direction_dot_normal: Scalar) -> (r:
        Option<(Vector, Ray)>)
        ensures
            r == (if metal_leaves_surface(direction_dot_normal) {
                Some((self.albedo, Ray { origin: hit_record.origin, direction }))
            } else {
                None
            }),
    {
        if direction_dot_normal.gt(&Scalar::zero()) {
            Some((self.albedo, Ray::new(hit_record.origin, direction)))
        } else {
            None
        }
    }
}

impl DielectricMaterial {
    /// The ratio of refraction indices along the ray: `inverse_index`
    /// (one over the material's index) when entering through the front face,
    /// the material's own index when leaving it.
    pub fn refraction_ratio(&self, hit_record: &HitRecord, inverse_index: Scalar) -> (r: Scalar)
        ensures
            r == (if hit_record.is_front_face {
                inverse_index
            } else {
                self.refraction_index
            }),
    {
        if hit_record.is_front_face {
            inverse_index
        } else {
            self.refraction_index
        }
    }

    /// Whether the ray reflects rather than refracts, given the refraction
    /// ratio times the sine of the incidence angle, the Schlick reflectance
    /// and a uniform draw from [0, 1).
    pub fn reflects(ratio_times_sine: Scalar, reflectance: Scalar, draw: Scalar) -> (r: bool)
        ensures
            r == dielectric_reflects(ratio_times_sine, reflectance, draw),
    {
        ratio_times_sine.gt(&Scalar::one()) || reflectance.gt(&draw)
    }

    /// Scatters from the hit point along `direction` (reflected or refracted,
    /// as `reflects` decided). Glass absorbs nothing: the attenuation is white.
    pub fn scatter(&self, hit_record: &HitRecord, direction: Vector) -> (r: Option<(Vector, Ray)>)
        ensures
            r == Some((splat(one_value()), Ray { origin: hit_record.origin, direction })),
    {
        Some((Vector::splat(Scalar::one()), Ray::new(hit_record.origin, direction)))
    }
}

} // verus!
