use ray_tracer::hit_record::HitRecord;
use ray_tracer::material::{DielectricMaterial, DiffuseMaterial, Material, MetalMaterial};
use ray_tracer::scalar::Scalar;
use ray_tracer::vector::Vector;

fn s(x: f32) -> Scalar {
    Scalar::from_bits(x.to_bits())
}

fn v(x: f32, y: f32, z: f32) -> Vector {
    Vector::new(s(x), s(y), s(z))
}

fn record(front: bool, material: Material) -> HitRecord {
    HitRecord { origin: v(1.0, 2.0, 3.0), normal: v(0.0, 1.0, 0.0), t: s(2.0), is_front_face: front, material }
}

/// Schlick's approximation, as a renderer computes it.
fn reflectance(cosine: f32, ratio: f32) -> f32 {
    let mut r0 = (1.0 - ratio) / (1.0 + ratio);
    r0 = r0 * r0;
    r0 + (1.0 - r0) * (1.0 - cosine).powf(5.0)
}

#[test]
fn diffuse_keeps_albedo_and_hit_point() {
    let m = DiffuseMaterial { albedo: v(0.8, 0.3, 0.1) };
    let hit = record(true, Material::Diffuse(m));
    let (attenuation, ray) = m.scatter(&hit, v(0.3, 1.2, -0.4)).unwrap();
    assert_eq!(attenuation, v(0.8, 0.3, 0.1));
    assert_eq!(ray.origin, v(1.0, 2.0, 3.0));
    assert_eq!(ray.direction, v(0.3, 1.2, -0.4));
}

#[test]
fn diffuse_falls_back_to_normal_when_direction_cancels() {
    let m = DiffuseMaterial { albedo: v(0.5, 0.5, 0.5) };
    let hit = record(true, Material::Diffuse(m));
    let (attenuation, ray) = m.scatter(&hit, v(1e-9, 0.0, -1e-9)).unwrap();
    assert_eq!(attenuation, v(0.5, 0.5, 0.5));
    assert_eq!(ray.origin, hit.origin);
    assert_eq!(ray.direction, v(0.0, 1.0, 0.0));
}

#[test]
fn metal_reflects_when_leaving_the_surface() {
    let m = MetalMaterial { albedo: v(0.7, 0.6, 0.5), fuzziness: s(0.0) };
    let hit = record(true, Material::Metal(m));
    let (attenuation, ray) = m.scatter(&hit, v(1.0, 1.0, 0.0), s(1.0)).unwrap();
    assert_eq!(attenuation, v(0.7, 0.6, 0.5));
    assert_eq!(ray.origin, hit.origin);
    assert_eq!(ray.direction, v(1.0, 1.0, 0.0));
}

#[test]
fn metal_absorbs_when_fuzz_points_into_the_surface() {
    let m = MetalMaterial { albedo: v(0.7, 0.6, 0.5), fuzziness: s(0.5) };
    let hit = record(true, Material::Metal(m));
    assert_eq!(m.scatter(&hit, v(1.0, -0.1, 0.0), s(-0.1)), None);
    assert_eq!(m.scatter(&hit, v(1.0, 0.0, 0.0), s(0.0)), None);
}

#[test]
fn dielectric_ratio_depends_on_face() {
    let m = DielectricMaterial { refraction_index: s(1.5) };
    let front = record(true, Material::Dielectric(m));
    let back = record(false, Material::Dielectric(m));
    assert_eq!(m.refraction_ratio(&front, s(1.0 / 1.5)), s(1.0 / 1.5));
    assert_eq!(m.refraction_ratio(&back, s(1.0 / 1.5)), s(1.5));
}

#[test]
fn dielectric_total_internal_reflection() {
    assert!(DielectricMaterial::reflects(s(1.2), s(0.0), s(0.99)));
}

#[test]
fn dielectric_draw_against_reflectance() {
    assert!(DielectricMaterial::reflects(s(0.5), s(0.3), s(0.2)));
    assert!(!DielectricMaterial::reflects(s(0.5), s(0.3), s(0.4)));
    assert!(!DielectricMaterial::reflects(s(1.0), s(0.3), s(0.3)));
}

#[test]
fn dielectric_is_colorless() {
    let m = DielectricMaterial { refraction_index: s(1.5) };
    let hit = record(false, Material::Dielectric(m));
    let (attenuation, ray) = m.scatter(&hit, v(0.0, -1.0, 0.0)).unwrap();
    assert_eq!(attenuation, v(1.0, 1.0, 1.0));
    assert_eq!(ray.origin, hit.origin);
    assert_eq!(ray.direction, v(0.0, -1.0, 0.0));
}

#[test]
fn schlick_reflectance_bounds() {
    let ratio = 1.0 / 1.5f32;
    let r0 = ((1.0 - ratio) / (1.0 + ratio)) * ((1.0 - ratio) / (1.0 + ratio));
    assert_eq!(reflectance(1.0, ratio), r0);
    assert!((reflectance(0.0, ratio) - 1.0).abs() < 1e-6);
    assert!(reflectance(0.5, ratio) > r0 && reflectance(0.5, ratio) < 1.0);
    // At normal incidence glass mostly refracts; at grazing incidence it reflects.
    assert!(!DielectricMaterial::reflects(s(0.0), s(reflectance(1.0, ratio)), s(0.5)));
    assert!(DielectricMaterial::reflects(s(0.0), s(reflectance(0.0, ratio)), s(0.99)));
}
