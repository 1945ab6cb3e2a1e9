use raytracer::scalar::Scalar;
use raytracer::scalar::EPSILON_BITS;
use raytracer::scalar::INFINITY_BITS;
use raytracer::scalar::SIGN_BIT;

fn s(x: f64) -> Scalar {
    Scalar::from_bits(x.to_bits())
}

fn samples() -> Vec<f64> {
    vec![
        f64::NEG_INFINITY,
        f64::MIN,
        -1.5,
        -1.0,
        -0.001,
        -f64::MIN_POSITIVE,
        -5e-324,
        -0.0,
        0.0,
        5e-324,
        f64::MIN_POSITIVE,
        0.001,
        0.0010000000000000002,
        0.5,
        1.0,
        1.5,
        f64::MAX,
        f64::INFINITY,
        f64::NAN,
        -f64::NAN,
    ]
}

#[test]
fn order_of_patterns_is_order_of_numbers() {
    for a in samples() {
        for b in samples() {
            assert_eq!(s(a).lt(s(b)), a < b, "{} < {}", a, b);
            assert_eq!(s(a).gt(s(b)), a > b, "{} > {}", a, b);
        }
    }
}

#[test]
fn nan_is_told_apart() {
    for a in samples() {
        assert_eq!(s(a).is_nan(), a.is_nan());
    }
    assert!(Scalar::from_bits(0x7FF0_0000_0000_0001).is_nan());
    assert!(Scalar::from_bits(0xFFFF_FFFF_FFFF_FFFF).is_nan());
    assert!(!Scalar::from_bits(INFINITY_BITS).is_nan());
    assert!(!Scalar::from_bits(SIGN_BIT + INFINITY_BITS).is_nan());
}

#[test]
fn nan_compares_with_nothing() {
    let nan = s(f64::NAN);
    for a in samples() {
        assert!(!nan.lt(s(a)));
        assert!(!nan.gt(s(a)));
        assert!(!s(a).lt(nan));
        assert!(!s(a).gt(nan));
    }
}

#[test]
fn the_two_zeros_are_equal_in_order() {
    let plus = s(0.0);
    let minus = s(-0.0);
    assert_ne!(plus, minus);
    assert!(!plus.lt(minus));
    assert!(!minus.lt(plus));
    assert!(!plus.gt(minus));
    assert!(!minus.gt(plus));
    assert_eq!(minus.to_bits(), SIGN_BIT);
}

#[test]
fn constants_are_the_patterns_they_are_named_for() {
    assert_eq!(EPSILON_BITS, 0.001f64.to_bits());
    assert_eq!(INFINITY_BITS, f64::INFINITY.to_bits());
    assert_eq!(SIGN_BIT, (-0.0f64).to_bits());
}

#[test]
fn bits_go_in_and_come_out_unchanged() {
    for a in samples() {
        assert_eq!(s(a).to_bits(), a.to_bits());
        assert_eq!(s(a).bits, a.to_bits());
    }
    assert_eq!(Scalar::from_bits(42), Scalar { bits: 42 });
}
