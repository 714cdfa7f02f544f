use sprout::scalar::{
    eq_bits, gt_bits, is_infinite_bits, is_nan_bits, DEFAULT_GRAD_THRESHOLD_BITS,
    NEG_INFINITY_BITS, ONE_BITS, ZERO_BITS,
};

fn interesting_values() -> Vec<f64> {
    vec![
        0.0,
        -0.0,
        1.0,
        -1.0,
        0.5,
        -0.5,
        2.5,
        1e300,
        -1e300,
        1e-310, // subnormal
        -1e-310,
        f64::MAX,
        f64::MIN,
        f64::MIN_POSITIVE,
        f64::INFINITY,
        f64::NEG_INFINITY,
        f64::NAN,
        -f64::NAN,
        0.2,
        7.25,
    ]
}

#[test]
fn gt_bits_matches_double_comparison() {
    let vals = interesting_values();
    for &a in &vals {
        for &b in &vals {
            assert_eq!(
                gt_bits(a.to_bits(), b.to_bits()),
                a > b,
                "gt mismatch for {a} > {b}"
            );
        }
    }
}

#[test]
fn eq_bits_matches_double_equality() {
    let vals = interesting_values();
    for &a in &vals {
        for &b in &vals {
            assert_eq!(
                eq_bits(a.to_bits(), b.to_bits()),
                a == b,
                "eq mismatch for {a} == {b}"
            );
        }
    }
}

#[test]
fn named_bit_patterns_are_the_doubles_they_claim() {
    assert_eq!(ZERO_BITS, 0.0f64.to_bits());
    assert_eq!(ONE_BITS, 1.0f64.to_bits());
    assert_eq!(NEG_INFINITY_BITS, f64::NEG_INFINITY.to_bits());
    assert_eq!(DEFAULT_GRAD_THRESHOLD_BITS, 0.2f64.to_bits());
}

#[test]
fn negative_zero_wins_ties_seen_first() {
    // -0.0 and 0.0 are equal doubles, so a later +0.0 is not strictly
    // greater and the earlier -0.0 is kept.
    assert!(!gt_bits(0.0f64.to_bits(), (-0.0f64).to_bits()));
    assert!(!gt_bits((-0.0f64).to_bits(), 0.0f64.to_bits()));
    assert!(eq_bits((-0.0f64).to_bits(), 0.0f64.to_bits()));
}

#[test]
fn nan_and_infinity_deciders_match_the_doubles() {
    for &a in &interesting_values() {
        assert_eq!(is_nan_bits(a.to_bits()), a.is_nan(), "nan mismatch for {a}");
        assert_eq!(
            is_infinite_bits(a.to_bits()),
            a.is_infinite(),
            "infinity mismatch for {a}"
        );
    }
}
