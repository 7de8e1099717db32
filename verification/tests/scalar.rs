use pathtracer::scalar::Scalar;

fn s(x: f32) -> Scalar {
    Scalar::from_bits(x.to_bits())
}

fn samples() -> Vec<f32> {
    let mut v = vec![
        0.0f32,
        -0.0,
        1.0,
        -1.0,
        0.5,
        1.33,
        1.5,
        2.0,
        1.0e-30,
        -1.0e-30,
        1.0e-20,
        1.0e30,
        f32::MIN_POSITIVE,
        -f32::MIN_POSITIVE,
        f32::MAX,
        f32::MIN,
        f32::INFINITY,
        f32::NEG_INFINITY,
        f32::NAN,
        -f32::NAN,
    ];
    for bits in [
        1u32,
        2,
        3,
        0x007f_ffff,
        0x0080_0001,
        0x0c7f_ffff,
        0x0c80_0000,
        0x1a00_0000,
        0x1a00_0001,
        0x1a80_0000,
        0x1fff_ffff,
        0x2000_0000,
        0x2000_0001,
        0x3380_0000,
        0x3400_0000,
        0x3f00_0000,
        0x3f00_0001,
    ] {
        v.push(f32::from_bits(bits));
        v.push(f32::from_bits(bits | 0x8000_0000));
    }
    v
}

#[test]
fn one_is_encoded_as_one() {
    assert_eq!(Scalar::one().to_bits(), 1.0f32.to_bits());
    assert_eq!(Scalar::zero().to_bits(), 0.0f32.to_bits());
    assert_eq!(Scalar::from_bits(7).to_bits(), 7);
}

#[test]
fn classification_agrees_with_hardware() {
    for a in samples() {
        assert_eq!(s(a).is_nan(), a.is_nan(), "{a}");
        assert_eq!(s(a).is_zero(), a == 0.0, "{a}");
        assert_eq!(s(a).is_positive(), a > 0.0, "{a}");
        assert_eq!(s(a).is_negative(), a < 0.0, "{a}");
    }
}

#[test]
fn order_agrees_with_hardware() {
    for a in samples() {
        for b in samples() {
            assert_eq!(s(a).lt(&s(b)), a < b, "{a} < {b}");
            assert_eq!(s(a).eq_value(&s(b)), a == b, "{a} == {b}");
        }
    }
}

#[test]
fn sign_changes_agree_with_hardware() {
    for a in samples() {
        assert_eq!(s(a).abs().to_bits(), a.abs().to_bits());
        assert_eq!(s(a).neg().to_bits(), (-a).to_bits());
        assert_eq!(s(a).neg().neg(), s(a));
    }
}

#[test]
fn product_sign_agrees_with_hardware() {
    for a in samples() {
        for b in samples() {
            assert_eq!(s(a).product_is_positive(&s(b)), a * b > 0.0, "{a:e} * {b:e}");
        }
    }
}

#[test]
fn product_sign_at_the_rounding_boundary() {
    // 2^-149 * 0.5 is exactly half the least positive number and rounds to zero.
    let least = Scalar::from_bits(1);
    assert!(!least.product_is_positive(&s(0.5)));
    // One step above 0.5 the product rounds up to the least positive number.
    assert!(least.product_is_positive(&Scalar::from_bits(0x3f00_0001)));
    assert!(least.product_is_positive(&s(1.0)));
    // Both factors positive, and still no positive product.
    assert!(!s(1.0e-30).product_is_positive(&s(1.0e-30)));
    assert!(s(1.0e-20).product_is_positive(&s(1.0e-20)));
    // Infinities.
    assert!(s(f32::INFINITY).product_is_positive(&s(1.0e-40)));
    assert!(!s(f32::INFINITY).product_is_positive(&s(0.0)));
    assert!(s(f32::NEG_INFINITY).product_is_positive(&s(-3.0)));
}
