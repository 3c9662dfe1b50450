use arb_detector::number::Real;

const SAMPLES: [f64; 15] = [
    f64::NEG_INFINITY,
    -4400.5,
    -1.0,
    -5e-324,
    -0.0,
    0.0,
    5e-324,
    2.2250738585072014e-308,
    0.1,
    1.0,
    5.0,
    4400.0,
    1.7976931348623157e308,
    f64::INFINITY,
    f64::NAN,
];

fn number(x: f64) -> Real {
    Real { bits: x.to_bits() }
}

#[test]
fn comparisons_agree_with_the_machine() {
    for a in SAMPLES {
        for b in SAMPLES {
            assert_eq!(number(a).is_below(&number(b)), a < b, "{} < {}", a, b);
            assert_eq!(number(a).is_at_most(&number(b)), a <= b, "{} <= {}", a, b);
        }
    }
}

#[test]
fn nan_compares_with_nothing() {
    for nan in [f64::NAN, -f64::NAN] {
        for x in SAMPLES {
            assert!(!number(nan).is_below(&number(x)));
            assert!(!number(x).is_below(&number(nan)));
            assert!(!number(nan).is_at_most(&number(x)));
            assert!(!number(x).is_at_most(&number(nan)));
        }
    }
}

#[test]
fn the_two_zeros_are_equal() {
    assert!(number(-0.0).is_at_most(&number(0.0)));
    assert!(number(0.0).is_at_most(&number(-0.0)));
    assert!(!number(-0.0).is_below(&number(0.0)));
    assert_eq!(Real::zero(), number(0.0));
}
