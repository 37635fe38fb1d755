use baryon_math::scalar::{Scalar, INFINITY_BITS, ONE_BITS, SIGN_BIT};
use std::cmp::Ordering;

fn s(v: f32) -> Scalar {
    Scalar::from_bits(v.to_bits())
}

fn f(v: Scalar) -> f32 {
    f32::from_bits(v.to_bits())
}

#[test]
fn scalar_keeps_its_encoding() {
    assert_eq!(Scalar::from_bits(0x4049_0fdb).to_bits(), 0x4049_0fdb);
    assert_eq!(Scalar::from_bits(0x4049_0fdb).bits, 0x4049_0fdb);
    assert_eq!(f(s(2.5)), 2.5);
}

#[test]
fn scalar_constants_are_zero_and_one() {
    assert_eq!(Scalar::zero().to_bits(), 0);
    assert_eq!(f(Scalar::zero()), 0.0);
    assert_eq!(Scalar::one().to_bits(), ONE_BITS);
    assert_eq!(f(Scalar::one()), 1.0);
    assert_eq!(Scalar::default().to_bits(), 0);
    assert_eq!(ONE_BITS, 1.0f32.to_bits());
    assert_eq!(INFINITY_BITS, f32::INFINITY.to_bits());
    assert_eq!(SIGN_BIT, (-0.0f32).to_bits());
}

#[test]
fn scalar_nan_is_recognised() {
    assert!(s(f32::NAN).is_nan_value());
    assert!(Scalar::from_bits(0x7f80_0001).is_nan_value());
    assert!(Scalar::from_bits(0xffff_ffff).is_nan_value());
    assert!(!s(f32::INFINITY).is_nan_value());
    assert!(!s(f32::NEG_INFINITY).is_nan_value());
    assert!(!s(0.0).is_nan_value());
    assert!(!s(f32::MAX).is_nan_value());
}

#[test]
fn scalar_negation_flips_the_sign_bit_only() {
    assert_eq!((-s(3.0)).to_bits(), (-3.0f32).to_bits());
    assert_eq!((-s(-3.0)).to_bits(), 3.0f32.to_bits());
    assert_eq!((-s(0.0)).to_bits(), (-0.0f32).to_bits());
    assert_eq!((-s(f32::INFINITY)).to_bits(), f32::NEG_INFINITY.to_bits());
    assert_eq!((-Scalar::from_bits(0x7fc0_1234)).to_bits(), 0xffc0_1234);
    assert_eq!((-(-s(1.25))).to_bits(), 1.25f32.to_bits());
}

#[test]
fn scalar_equality_is_numeric() {
    assert!(s(1.5) == s(1.5));
    assert!(s(1.5) != s(-1.5));
    assert!(s(0.0) == s(-0.0));
    assert!(s(f32::NAN) != s(f32::NAN));
    assert!(s(f32::NAN) != s(1.0));
    assert!(s(f32::INFINITY) == s(f32::INFINITY));
    assert!(s(f32::INFINITY) != s(f32::NEG_INFINITY));
}

#[test]
fn scalar_order_is_that_of_the_numbers() {
    let values: [f32; 11] = [
        f32::NEG_INFINITY,
        f32::MIN,
        -2.5,
        -1.0e-40,
        -0.0,
        0.0,
        1.0e-40,
        1.0,
        f32::MAX,
        f32::INFINITY,
        f32::NAN,
    ];
    for a in values {
        for b in values {
            assert_eq!(s(a).partial_cmp(&s(b)), a.partial_cmp(&b));
            assert_eq!(s(a) == s(b), a == b);
            assert_eq!(s(a) < s(b), a < b);
            assert_eq!(s(a) >= s(b), a >= b);
        }
    }
    assert_eq!(s(1.0).partial_cmp(&s(2.0)), Some(Ordering::Less));
    assert_eq!(s(-1.0).partial_cmp(&s(-2.0)), Some(Ordering::Greater));
    assert_eq!(s(-0.0).partial_cmp(&s(0.0)), Some(Ordering::Equal));
    assert_eq!(s(f32::NAN).partial_cmp(&s(0.0)), None);
}
