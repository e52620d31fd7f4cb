use rust_exchange::amount::Amount;

fn amt(x: f64) -> Amount {
    Amount::from_bits(x.to_bits())
}

fn samples() -> Vec<f64> {
    vec![
        0.0,
        -0.0,
        1.0,
        -1.0,
        0.5,
        5000.0,
        4999.999,
        5000.000001,
        -5000.0,
        1e-310,
        -1e-310,
        f64::MIN_POSITIVE,
        f64::MAX,
        f64::MIN,
        f64::INFINITY,
        f64::NEG_INFINITY,
        f64::NAN,
        -f64::NAN,
        66500.0,
        142.0,
    ]
}

#[test]
fn comparisons_agree_with_f64() {
    for a in samples() {
        for b in samples() {
            assert_eq!(amt(a).exceeds(&amt(b)), a > b, "{} > {}", a, b);
            assert_eq!(amt(a).at_most(&amt(b)), a <= b, "{} <= {}", a, b);
        }
    }
}

#[test]
fn nan_is_detected() {
    assert!(amt(f64::NAN).nan());
    assert!(!amt(f64::INFINITY).nan());
    assert!(!amt(0.0).nan());
}

#[test]
fn zeros_are_equal() {
    assert!(amt(0.0).at_most(&amt(-0.0)));
    assert!(amt(-0.0).at_most(&amt(0.0)));
    assert!(!amt(0.0).exceeds(&amt(-0.0)));
}

#[test]
fn bits_round_trip() {
    let a = amt(3450.0);
    assert_eq!(f64::from_bits(a.to_bits()), 3450.0);
}
