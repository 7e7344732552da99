use raytracer::scalar::Scalar;

fn s(x: f64) -> Scalar {
    Scalar::from_bits(x.to_bits())
}

fn samples() -> Vec<f64> {
    vec![
        0.0,
        -0.0,
        1.0,
        -1.0,
        0.001,
        1000.0,
        1e-8,
        -1e-8,
        0.5,
        0.999,
        2.5e-320,
        -2.5e-320,
        f64::MIN_POSITIVE,
        f64::MAX,
        f64::MIN,
        f64::EPSILON,
        f64::INFINITY,
        f64::NEG_INFINITY,
        f64::NAN,
        -f64::NAN,
        f64::from_bits(0x7ff0_0000_0000_0001),
        f64::from_bits(0xffff_ffff_ffff_ffff),
        3.0000000000000004,
        3.0,
        -3.0000000000000004,
    ]
}

#[test]
fn lt_is_the_order_of_doubles() {
    for a in samples() {
        for b in samples() {
            assert_eq!(s(a).lt(s(b)), a < b, "{a:?} < {b:?}");
        }
    }
}

#[test]
fn le_is_the_order_of_doubles() {
    for a in samples() {
        for b in samples() {
            assert_eq!(s(a).le(s(b)), a <= b, "{a:?} <= {b:?}");
        }
    }
}

#[test]
fn is_nan_finds_every_nan() {
    for a in samples() {
        assert_eq!(s(a).is_nan(), a.is_nan(), "{a:?}");
    }
}

#[test]
fn neg_flips_the_sign() {
    for a in samples() {
        assert_eq!(s(a).neg().to_bits(), (-a).to_bits(), "{a:?}");
    }
    assert_eq!(s(0.0).neg().to_bits(), 0x8000_0000_0000_0000);
}

#[test]
fn abs_clears_the_sign() {
    for a in samples() {
        assert_eq!(s(a).abs().to_bits(), a.abs().to_bits(), "{a:?}");
    }
}

#[test]
fn zero_and_one_are_the_doubles() {
    assert_eq!(f64::from_bits(Scalar::zero().to_bits()), 0.0);
    assert_eq!(Scalar::zero().to_bits(), 0);
    assert_eq!(f64::from_bits(Scalar::one().to_bits()), 1.0);
}

#[test]
fn both_zeros_compare_equal() {
    assert!(!s(0.0).lt(s(-0.0)));
    assert!(!s(-0.0).lt(s(0.0)));
    assert!(s(0.0).le(s(-0.0)));
    assert!(s(-0.0).le(s(0.0)));
    assert_ne!(s(0.0), s(-0.0));
}

fn numbers() -> Vec<f64> {
    let mut all = samples();
    all.extend([
        0.25,
        0.999,
        0.9990000000000001,
        0.9989999999999999,
        0.00390625,
        0.003906249999999999,
        0.0078125,
        1.5,
        1.9999999999999998,
        2.0,
        255.99999999999997,
        256.0,
        400.0,
        224.99999999999997,
        225.0,
        225.00000000000003,
        4294967295.0,
        4294967295.5,
        4294967296.0,
        4294967294.9999995,
        1e10,
        1e300,
        4503599627370496.0,
        9007199254740991.0,
        -0.25,
        -225.0,
        -1e300,
    ]);
    all
}

#[test]
fn to_u32_is_the_cast() {
    for a in numbers() {
        assert_eq!(s(a).to_u32(), a as u32, "{a:?}");
    }
    assert_eq!(s(400.0 / (16.0 / 9.0)).to_u32(), 225);
    assert_eq!(s(f64::NAN).to_u32(), 0);
    assert_eq!(s(-7.5).to_u32(), 0);
    assert_eq!(s(7.99).to_u32(), 7);
    assert_eq!(s(1e10).to_u32(), u32::MAX);
    assert_eq!(s(f64::INFINITY).to_u32(), u32::MAX);
}

#[test]
fn clamp_is_the_clamp_of_doubles() {
    for a in numbers() {
        let clamped = s(a).clamp(s(0.0), s(0.999));
        assert_eq!(clamped.to_bits(), a.clamp(0.0, 0.999).to_bits(), "{a:?}");
        let clamped = s(a).clamp(s(-2.0), s(-2.0));
        assert_eq!(clamped.to_bits(), a.clamp(-2.0, -2.0).to_bits(), "{a:?}");
    }
}
