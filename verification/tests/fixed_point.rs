//! Exact expectations for the fixed-point scalar and vector layers.

use raytracer::fixed::{FX_ONE, add_fx, sub_fx, mul_fx, div_fx, sqrt_fx};
use raytracer::rgb::Rgb;
use raytracer::vec3::{Vec3, cross, dot};

#[test]
fn fx_one_is_two_to_the_sixteen() {
    assert_eq!(FX_ONE, 65536);
}

#[test]
fn mul_positive() {
    // 1.5 * 1.5 == 2.25
    assert_eq!(mul_fx(98304, 98304), 147456);
}

#[test]
fn mul_truncates_toward_zero() {
    // (1/65536)^2 truncates to 0, on both sides of zero.
    assert_eq!(mul_fx(1, 1), 0);
    assert_eq!(mul_fx(-1, 1), 0);
    // -1.5 * 1.5 == -2.25 exactly.
    assert_eq!(mul_fx(-98304, 98304), -147456);
}

#[test]
fn mul_saturates() {
    assert_eq!(mul_fx(i64::MAX, i64::MAX), i64::MAX);
    assert_eq!(mul_fx(i64::MAX, i64::MIN), i64::MIN);
}

#[test]
fn div_thirds() {
    // 1 / 3 == 0.333... truncated.
    assert_eq!(div_fx(FX_ONE, 3 * FX_ONE), 21845);
    assert_eq!(div_fx(-FX_ONE, 3 * FX_ONE), -21845);
}

#[test]
fn div_by_zero_is_zero() {
    assert_eq!(div_fx(12345, 0), 0);
}

#[test]
fn add_sub_saturate() {
    assert_eq!(add_fx(i64::MAX, 1), i64::MAX);
    assert_eq!(sub_fx(i64::MIN, 1), i64::MIN);
    assert_eq!(add_fx(3 * FX_ONE, -FX_ONE), 2 * FX_ONE);
}

#[test]
fn sqrt_exact_squares() {
    assert_eq!(sqrt_fx(4 * FX_ONE), 2 * FX_ONE);
    assert_eq!(sqrt_fx(FX_ONE), FX_ONE);
    assert_eq!(sqrt_fx(0), 0);
    assert_eq!(sqrt_fx(-FX_ONE), 0);
}

#[test]
fn sqrt_two() {
    // sqrt(2) == 1.41421... => floor(sqrt(2) * 65536) == 92681
    assert_eq!(sqrt_fx(2 * FX_ONE), 92681);
}

#[test]
fn vector_componentwise_ops() {
    let a = Vec3 { x: FX_ONE, y: 2 * FX_ONE, z: -FX_ONE };
    let b = Vec3 { x: 3 * FX_ONE, y: -FX_ONE, z: FX_ONE };
    assert_eq!(a.add(b), Vec3 { x: 4 * FX_ONE, y: FX_ONE, z: 0 });
    assert_eq!(a.sub(b), Vec3 { x: -2 * FX_ONE, y: 3 * FX_ONE, z: -2 * FX_ONE });
    assert_eq!(a.mul(b), Vec3 { x: 3 * FX_ONE, y: -2 * FX_ONE, z: -FX_ONE });
    assert_eq!(a.scale(2 * FX_ONE), Vec3 { x: 2 * FX_ONE, y: 4 * FX_ONE, z: -2 * FX_ONE });
    assert_eq!(a.div(b), Vec3 { x: 21845, y: -2 * FX_ONE, z: -FX_ONE });
}

#[test]
fn vector_assign_ops() {
    let mut a = Vec3 { x: FX_ONE, y: 0, z: 0 };
    a.add_assign(Vec3 { x: FX_ONE, y: FX_ONE, z: 0 });
    assert_eq!(a, Vec3 { x: 2 * FX_ONE, y: FX_ONE, z: 0 });
    a.sub_assign(Vec3 { x: FX_ONE, y: 0, z: 0 });
    assert_eq!(a, Vec3 { x: FX_ONE, y: FX_ONE, z: 0 });
    a.mul_assign(Vec3 { x: 3 * FX_ONE, y: 2 * FX_ONE, z: FX_ONE });
    assert_eq!(a, Vec3 { x: 3 * FX_ONE, y: 2 * FX_ONE, z: 0 });
    a.div_assign(Vec3 { x: 3 * FX_ONE, y: FX_ONE, z: FX_ONE });
    assert_eq!(a, Vec3 { x: FX_ONE, y: 2 * FX_ONE, z: 0 });
}

#[test]
fn dot_and_cross() {
    let a = Vec3 { x: FX_ONE, y: 0, z: 0 };
    let b = Vec3 { x: 0, y: FX_ONE, z: 0 };
    assert_eq!(dot(a, b), 0);
    assert_eq!(dot(a, a), FX_ONE);
    assert_eq!(cross(a, b), Vec3 { x: 0, y: 0, z: FX_ONE });
    assert_eq!(cross(b, a), Vec3 { x: 0, y: 0, z: -FX_ONE });
}

#[test]
fn squared_len_and_len() {
    // A 3-4-5 triangle, exactly representable.
    let v = Vec3 { x: 3 * FX_ONE, y: 4 * FX_ONE, z: 0 };
    assert_eq!(v.squared_len(), 25 * FX_ONE);
    assert_eq!(v.len(), 5 * FX_ONE);
}

#[test]
fn to_unit_three_four_five() {
    let v = Vec3 { x: 3 * FX_ONE, y: 4 * FX_ONE, z: 0 };
    // 0.6 and 0.8, truncated toward zero.
    assert_eq!(v.to_unit(), Vec3 { x: 39321, y: 52428, z: 0 });
}

#[test]
fn to_unit_has_length_near_one() {
    let v = Vec3 { x: 3 * FX_ONE, y: 4 * FX_ONE, z: 7 * FX_ONE };
    let u = v.to_unit();
    let len = u.len();
    assert!(len >= FX_ONE - 16 && len <= FX_ONE + 16);
}

#[test]
fn index_components() {
    let v = Vec3 { x: 7, y: 8, z: 9 };
    assert_eq!(v.index(0), 7);
    assert_eq!(v.index(1), 8);
    assert_eq!(v.index(2), 9);
}

#[test]
fn rgb_vector_round_trip() {
    let v = Vec3 { x: 1, y: 2, z: 3 };
    let c = Rgb::from(v);
    assert_eq!(c, Rgb { r: 1, g: 2, b: 3 });
    assert_eq!(Vec3::from(c), v);
}

#[test]
fn gamma_of_quarter_is_half() {
    let c = Rgb { r: 16384, g: 16384, b: 16384 };
    let g = c.gamma_correct();
    assert_eq!(g, Rgb { r: 32768, g: 32768, b: 32768 });
}

#[test]
fn quantize_middle_and_clamps() {
    // 0.5 * 255.99 == 127.995, truncated to 127.
    let g = Rgb { r: 32768, g: 32768, b: 32768 };
    assert_eq!(g.quantize(), (127, 127, 127));
    // Values beyond [0, 1] clamp to the 8-bit range.
    let over = Rgb { r: 2 * 65536, g: -65536, b: 65536 };
    assert_eq!(over.quantize(), (255, 0, 255));
}
