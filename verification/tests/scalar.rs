use agsi_core::Scalar;

fn num(x: f64) -> Scalar {
    Scalar::from_bits(x.to_bits())
}

fn samples() -> Vec<f64> {
    vec![
        0.0,
        -0.0,
        1.0,
        -1.0,
        0.5,
        -0.5,
        5.0,
        10.0,
        100.0,
        -100.0,
        1e-310,
        -1e-310,
        f64::MIN_POSITIVE,
        f64::MAX,
        f64::MIN,
        f64::EPSILON,
        f64::INFINITY,
        f64::NEG_INFINITY,
        f64::NAN,
        -f64::NAN,
        f64::from_bits(0x7ff0_0000_0000_0001),
        f64::from_bits(0xfff8_0000_0000_0000),
        1e300,
        -1e300,
        123456.789,
    ]
}

#[test]
fn ordering_agrees_with_the_ordering_of_doubles() {
    for a in samples() {
        for b in samples() {
            assert_eq!(num(a).gt(&num(b)), a > b, "{} > {}", a, b);
            assert_eq!(num(a).ge(&num(b)), a >= b, "{} >= {}", a, b);
            assert_eq!(num(a).lt(&num(b)), a < b, "{} < {}", a, b);
            assert_eq!(num(a).le(&num(b)), a <= b, "{} <= {}", a, b);
        }
    }
}

#[test]
fn nan_is_recognised() {
    for a in samples() {
        assert_eq!(num(a).is_nan(), a.is_nan(), "{}", a);
    }
}

#[test]
fn the_two_zeros_compare_equal() {
    let plus = num(0.0);
    let minus = num(-0.0);
    assert!(plus.to_bits() != minus.to_bits());
    assert!(plus.ge(&minus) && minus.ge(&plus));
    assert!(!plus.gt(&minus) && !minus.gt(&plus));
    assert_eq!(Scalar::zero().to_bits(), 0);
}

#[test]
fn nan_compares_false_with_everything() {
    let nan = num(f64::NAN);
    for a in samples() {
        assert!(!nan.gt(&num(a)) && !nan.ge(&num(a)) && !nan.lt(&num(a)) && !nan.le(&num(a)));
        assert!(!num(a).gt(&nan) && !num(a).ge(&nan) && !num(a).lt(&nan) && !num(a).le(&nan));
    }
}

#[test]
fn bits_pass_through_unchanged() {
    for a in samples() {
        assert_eq!(num(a).to_bits(), a.to_bits());
    }
    assert_eq!(Scalar::from_bits(0x4059_0000_0000_0000).to_bits(), 100.0f64.to_bits());
}
