use ray_tracer::pixel::channel_byte;
use ray_tracer::scalar::Scalar;
use ray_tracer::vector::{is_inside_unit_ball, is_usable_sphere_sample, Vector};

fn s(x: f32) -> Scalar {
    Scalar::from_bits(x.to_bits())
}

fn samples() -> Vec<f32> {
    vec![
        0.0,
        -0.0,
        1.0,
        -1.0,
        0.5,
        -0.5,
        1e-8,
        -1e-8,
        1e-40,
        -1e-40,
        3.75,
        -3.75,
        1000.0,
        -1000.0,
        f32::MAX,
        f32::MIN,
        f32::INFINITY,
        f32::NEG_INFINITY,
        f32::NAN,
        -f32::NAN,
    ]
}

#[test]
fn comparisons_agree_with_native_order() {
    for &a in samples().iter() {
        for &b in samples().iter() {
            assert_eq!(s(a).lt(&s(b)), a < b, "{} < {}", a, b);
            assert_eq!(s(a).gt(&s(b)), a > b, "{} > {}", a, b);
            assert_eq!(s(a).le(&s(b)), a <= b, "{} <= {}", a, b);
            assert_eq!(s(a).ge(&s(b)), a >= b, "{} >= {}", a, b);
        }
    }
}

#[test]
fn zeros_of_both_signs_are_equal() {
    assert!(!s(-0.0).lt(&s(0.0)));
    assert!(!s(0.0).lt(&s(-0.0)));
    assert!(s(-0.0).le(&s(0.0)));
}

#[test]
fn nan_is_unordered() {
    assert!(s(f32::NAN).is_nan());
    assert!(!s(f32::INFINITY).is_nan());
    assert!(!s(f32::NAN).le(&s(f32::NAN)));
}

#[test]
fn negation_and_absolute_value_match_native() {
    for &a in samples().iter() {
        assert_eq!(s(a).neg().to_bits(), (-a).to_bits());
        assert_eq!(s(a).abs().to_bits(), a.abs().to_bits());
    }
    assert_eq!(s(2.5).neg(), s(-2.5));
}

#[test]
fn constants_are_zero_and_one() {
    assert_eq!(Scalar::zero().to_bits(), 0.0f32.to_bits());
    assert_eq!(Scalar::one().to_bits(), 1.0f32.to_bits());
}

#[test]
fn channel_byte_truncates_and_saturates() {
    assert_eq!(channel_byte(s(0.0)), 0);
    assert_eq!(channel_byte(s(0.99)), 0);
    assert_eq!(channel_byte(s(1.0)), 1);
    assert_eq!(channel_byte(s(127.9)), 127);
    assert_eq!(channel_byte(s(255.99)), 255);
    assert_eq!(channel_byte(s(256.0)), 255);
    assert_eq!(channel_byte(s(1.0e9)), 255);
    assert_eq!(channel_byte(s(-3.0)), 0);
    assert_eq!(channel_byte(s(f32::NAN)), 0);
    assert_eq!(channel_byte(s(f32::INFINITY)), 255);
}

#[test]
fn channel_byte_matches_native_cast() {
    let mut x: f32 = -2.0;
    while x < 300.0 {
        assert_eq!(channel_byte(s(x)), x as u8, "{}", x);
        x += 0.173;
    }
    for &a in samples().iter() {
        assert_eq!(channel_byte(s(a)), a as u8, "{}", a);
    }
}

#[test]
fn gamma_corrected_half_grey_is_written_as_186() {
    let value = 0.5f32.powf(1.0 / 2.2) * 255.99;
    assert_eq!(channel_byte(s(value)), 186);
}

#[test]
fn near_zero_threshold() {
    let tiny = Vector::new(s(1e-9), s(-1e-9), s(0.0));
    assert!(tiny.is_near_zero());
    let edge = Vector::new(s(1e-8), s(0.0), s(0.0));
    assert!(!edge.is_near_zero());
    let unit = Vector::new(s(0.0), s(1.0), s(0.0));
    assert!(!unit.is_near_zero());
    let nan = Vector::new(s(f32::NAN), s(0.0), s(0.0));
    assert!(!nan.is_near_zero());
}

#[test]
fn vector_accessors_and_negation() {
    let v = Vector::new(s(1.0), s(-2.0), s(3.0));
    assert_eq!(v.x(), s(1.0));
    assert_eq!(v.y(), s(-2.0));
    assert_eq!(v.z(), s(3.0));
    assert_eq!(v.r(), v.x());
    assert_eq!(v.g(), v.y());
    assert_eq!(v.b(), v.z());
    assert_eq!(v.neg(), Vector::new(s(-1.0), s(2.0), s(-3.0)));
    assert_eq!(Vector::default(), Vector::new(s(0.0), s(0.0), s(0.0)));
    assert_eq!(Vector::zero(), Vector::splat(s(0.0)));
}

#[test]
fn rejection_sampler_keeps_points_inside_the_ball() {
    assert!(is_inside_unit_ball(s(0.0)));
    assert!(is_inside_unit_ball(s(0.999)));
    assert!(!is_inside_unit_ball(s(1.0)));
    assert!(!is_inside_unit_ball(s(2.5)));
}

#[test]
fn sphere_sampler_rejects_the_centre() {
    assert!(!is_usable_sphere_sample(s(0.0)));
    assert!(!is_usable_sphere_sample(s(-0.0)));
    assert!(!is_usable_sphere_sample(s(f32::NAN)));
    assert!(is_usable_sphere_sample(s(1e-30)));
    assert!(is_usable_sphere_sample(s(0.5)));
    assert!(!is_usable_sphere_sample(s(1.0)));
    assert!(!is_usable_sphere_sample(s(3.0)));
}
