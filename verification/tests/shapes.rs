use baryon_math::scalar::Scalar;
use baryon_math::{Vec2, Vec3, Vec4};
use std::cmp::Ordering;

fn s(v: f32) -> Scalar {
    Scalar::from_bits(v.to_bits())
}

fn v2(x: f32, y: f32) -> Vec2 {
    Vec2::new(s(x), s(y))
}

fn v3(x: f32, y: f32, z: f32) -> Vec3 {
    Vec3::new(s(x), s(y), s(z))
}

fn v4(x: f32, y: f32, z: f32, w: f32) -> Vec4 {
    Vec4::new(s(x), s(y), s(z), s(w))
}

fn bits2(v: Vec2) -> [u32; 2] {
    [v.x.bits, v.y.bits]
}

fn bits3(v: Vec3) -> [u32; 3] {
    [v.x.bits, v.y.bits, v.z.bits]
}

fn bits4(v: Vec4) -> [u32; 4] {
    [v.x.bits, v.y.bits, v.z.bits, v.w.bits]
}

const ONE: u32 = 0x3f80_0000;

#[test]
fn new_keeps_components_in_order() {
    assert_eq!(bits2(v2(1.0, 2.0)), [1.0f32.to_bits(), 2.0f32.to_bits()]);
    assert_eq!(bits3(v3(1.0, 2.0, 3.0)), [1.0f32.to_bits(), 2.0f32.to_bits(), 3.0f32.to_bits()]);
    assert_eq!(
        bits4(v4(1.0, 2.0, 3.0, f32::INFINITY)),
        [1.0f32.to_bits(), 2.0f32.to_bits(), 3.0f32.to_bits(), f32::INFINITY.to_bits()]
    );
}

#[test]
fn zero_and_default_are_all_zero() {
    assert_eq!(bits2(Vec2::zero()), [0, 0]);
    assert_eq!(bits3(Vec3::zero()), [0, 0, 0]);
    assert_eq!(bits4(Vec4::zero()), [0, 0, 0, 0]);
    assert_eq!(bits2(Vec2::default()), [0, 0]);
    assert_eq!(bits3(Vec3::default()), [0, 0, 0]);
    assert_eq!(bits4(Vec4::default()), [0, 0, 0, 0]);
    assert!(Vec3::default() == v3(0.0, 0.0, 0.0));
}

#[test]
fn one_is_all_ones() {
    assert_eq!(bits2(Vec2::one()), [ONE, ONE]);
    assert_eq!(bits3(Vec3::one()), [ONE, ONE, ONE]);
    assert_eq!(bits4(Vec4::one()), [ONE, ONE, ONE, ONE]);
    assert!(Vec4::one() == v4(1.0, 1.0, 1.0, 1.0));
}

#[test]
fn unit_vectors_have_one_along_their_axis() {
    assert_eq!(bits2(Vec2::unit_x()), [ONE, 0]);
    assert_eq!(bits2(Vec2::unit_y()), [0, ONE]);
    assert_eq!(bits3(Vec3::unit_x()), [ONE, 0, 0]);
    assert_eq!(bits3(Vec3::unit_y()), [0, ONE, 0]);
    assert_eq!(bits3(Vec3::unit_z()), [0, 0, ONE]);
    assert_eq!(bits4(Vec4::unit_x()), [ONE, 0, 0, 0]);
    assert_eq!(bits4(Vec4::unit_y()), [0, ONE, 0, 0]);
    assert_eq!(bits4(Vec4::unit_z()), [0, 0, ONE, 0]);
    assert_eq!(bits4(Vec4::unit_w()), [0, 0, 0, ONE]);
    assert!(Vec3::unit_y() == v3(0.0, 1.0, 0.0));
}

#[test]
fn negation_of_a_vec2() {
    assert!(-v2(3.0, -3.0) == v2(-3.0, 3.0));
    assert_eq!(bits2(-v2(3.0, -3.0)), bits2(v2(-3.0, 3.0)));
}

#[test]
fn negation_of_every_shape() {
    assert_eq!(bits3(-v3(1.0, -2.0, 0.0)), bits3(v3(-1.0, 2.0, -0.0)));
    assert_eq!(
        bits4(-v4(1.0, -2.0, f32::INFINITY, -0.0)),
        bits4(v4(-1.0, 2.0, f32::NEG_INFINITY, 0.0))
    );
    assert_eq!(bits4(-(-v4(1.0, 2.0, 3.0, 4.0))), bits4(v4(1.0, 2.0, 3.0, 4.0)));
    let n = -Vec2::new(Scalar::from_bits(0x7fc0_0001), s(1.0));
    assert_eq!(bits2(n), [0xffc0_0001, (-1.0f32).to_bits()]);
}

#[test]
fn nan_vector_is_not_equal_to_itself() {
    assert!(!(v2(f32::NAN, 1.0) == v2(f32::NAN, 1.0)));
    assert!(v2(f32::NAN, 1.0) != v2(f32::NAN, 1.0));
    let a = v3(1.0, f32::NAN, 2.0);
    assert!(!(a == a));
    let b = v4(1.0, 2.0, 3.0, f32::NAN);
    assert!(!(b == b));
    assert!(!(b == v4(1.0, 2.0, 3.0, 4.0)));
    assert!(!(v4(1.0, 2.0, 3.0, 4.0) == b));
}

#[test]
fn equality_is_componentwise_and_numeric() {
    assert!(v2(1.0, 2.0) == v2(1.0, 2.0));
    assert!(v2(1.0, 2.0) != v2(2.0, 1.0));
    assert!(v3(0.0, -0.0, 0.0) == v3(-0.0, 0.0, -0.0));
    assert!(v3(1.0, 2.0, 3.0) != v3(1.0, 2.0, 4.0));
    assert!(v4(1.0, 2.0, 3.0, 4.0) == v4(1.0, 2.0, 3.0, 4.0));
    assert!(v4(1.0, 2.0, 3.0, 4.0) != v4(0.0, 2.0, 3.0, 4.0));
}

#[test]
fn order_goes_by_the_first_unequal_component() {
    assert_eq!(v2(1.0, 5.0).partial_cmp(&v2(2.0, 0.0)), Some(Ordering::Less));
    assert_eq!(v2(1.0, 5.0).partial_cmp(&v2(1.0, 0.0)), Some(Ordering::Greater));
    assert_eq!(v2(1.0, 5.0).partial_cmp(&v2(1.0, 5.0)), Some(Ordering::Equal));
    assert_eq!(v3(1.0, 2.0, 3.0).partial_cmp(&v3(1.0, 2.0, 4.0)), Some(Ordering::Less));
    assert_eq!(v3(1.0, 3.0, 3.0).partial_cmp(&v3(1.0, 2.0, 4.0)), Some(Ordering::Greater));
    assert_eq!(v4(0.0, 0.0, 0.0, -1.0).partial_cmp(&v4(-0.0, 0.0, 0.0, 1.0)), Some(Ordering::Less));
    assert_eq!(v4(1.0, 2.0, 3.0, 4.0).partial_cmp(&v4(1.0, 2.0, 3.0, 4.0)), Some(Ordering::Equal));
    assert!(v2(1.0, 5.0) < v2(2.0, 0.0));
    assert!(v3(1.0, 3.0, 3.0) >= v3(1.0, 2.0, 4.0));
}

#[test]
fn order_with_nan_is_decided_before_it_or_not_at_all() {
    assert_eq!(v2(f32::NAN, 1.0).partial_cmp(&v2(0.0, 1.0)), None);
    assert_eq!(v2(1.0, f32::NAN).partial_cmp(&v2(2.0, 1.0)), Some(Ordering::Less));
    assert_eq!(v2(1.0, f32::NAN).partial_cmp(&v2(1.0, 1.0)), None);
    assert_eq!(v3(1.0, 2.0, f32::NAN).partial_cmp(&v3(1.0, 2.0, 0.0)), None);
    assert_eq!(v4(1.0, 2.0, 3.0, f32::NAN).partial_cmp(&v4(1.0, 2.0, 4.0, 0.0)), Some(Ordering::Less));
    assert!(!(v2(f32::NAN, 1.0) < v2(0.0, 1.0)));
    assert!(!(v2(f32::NAN, 1.0) >= v2(0.0, 1.0)));
}

#[test]
fn order_agrees_with_tuples_of_floats() {
    let values: [f32; 6] = [f32::NEG_INFINITY, -1.0, -0.0, 0.0, 2.0, f32::NAN];
    for a in values {
        for b in values {
            for c in values {
                for d in values {
                    assert_eq!(v2(a, b).partial_cmp(&v2(c, d)), (a, b).partial_cmp(&(c, d)));
                    assert_eq!(v2(a, b) == v2(c, d), (a, b) == (c, d));
                    assert_eq!(
                        v3(a, b, 1.0).partial_cmp(&v3(c, d, 1.0)),
                        (a, b, 1.0f32).partial_cmp(&(c, d, 1.0f32))
                    );
                    assert_eq!(
                        v4(0.0, a, b, 1.0).partial_cmp(&v4(0.0, c, d, 2.0)),
                        (0.0f32, a, b, 1.0f32).partial_cmp(&(0.0f32, c, d, 2.0f32))
                    );
                }
            }
        }
    }
}
