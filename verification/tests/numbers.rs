use kanoniv_plan::number::{
    bits_less_than, EIGHT_TENTHS, INFINITY_BITS, NINE_TENTHS, SIGN_BIT,
};
use kanoniv_plan::Measure;

fn measure(x: f64) -> Measure {
    Measure { bits: x.to_bits(), shortest: format!("{}", x), two_places: format!("{:.2}", x) }
}

#[test]
fn constants_are_the_patterns_of_their_values() {
    assert_eq!(EIGHT_TENTHS, 0.8f64.to_bits());
    assert_eq!(NINE_TENTHS, 0.9f64.to_bits());
    assert_eq!(INFINITY_BITS, f64::INFINITY.to_bits());
    assert_eq!(SIGN_BIT, (-0.0f64).to_bits());
}

#[test]
fn comparison_on_patterns_agrees_with_the_values() {
    let samples = [
        0.0,
        -0.0,
        0.8,
        0.9,
        0.7999999999999999,
        0.8000000000000002,
        0.9000000000000001,
        0.8999999999999999,
        1.0,
        -1.0,
        -0.8,
        0.6,
        0.95,
        5e-324,
        -5e-324,
        f64::MAX,
        f64::MIN,
        f64::MIN_POSITIVE,
        f64::INFINITY,
        f64::NEG_INFINITY,
        f64::NAN,
        -f64::NAN,
        1e300,
        -1e-300,
        123456.789,
    ];
    for a in samples {
        for b in samples {
            assert_eq!(bits_less_than(a.to_bits(), b.to_bits()), a < b, "{} < {}", a, b);
        }
    }
}

#[test]
fn zero_measure_is_positive_zero() {
    let zero = Measure::zero();
    assert_eq!(zero.bits, 0.0f64.to_bits());
    assert_eq!(zero.shortest, format!("{}", 0.0f64));
    assert_eq!(zero.two_places, format!("{:.2}", 0.0f64));
}

#[test]
fn below_eight_tenths_is_strict() {
    assert!(measure(0.6).below_eight_tenths());
    assert!(measure(0.7999999999999999).below_eight_tenths());
    assert!(!measure(0.8).below_eight_tenths());
    assert!(!measure(0.85).below_eight_tenths());
    assert!(measure(-3.0).below_eight_tenths());
    assert!(measure(0.0).below_eight_tenths());
    assert!(measure(-0.0).below_eight_tenths());
    assert!(!measure(f64::NAN).below_eight_tenths());
    assert!(measure(f64::NEG_INFINITY).below_eight_tenths());
    assert!(!measure(f64::INFINITY).below_eight_tenths());
}

#[test]
fn above_nine_tenths_is_strict() {
    assert!(measure(0.95).above_nine_tenths());
    assert!(measure(0.9000000000000001).above_nine_tenths());
    assert!(!measure(0.9).above_nine_tenths());
    assert!(!measure(0.5).above_nine_tenths());
    assert!(!measure(-1.0).above_nine_tenths());
    assert!(measure(1.0).above_nine_tenths());
    assert!(!measure(f64::NAN).above_nine_tenths());
    assert!(measure(f64::INFINITY).above_nine_tenths());
}
