use arb_detector::amount::Amount;
use arb_detector::digits::decimal_u64;
use arb_detector::format::{build_token_u256, format_amount, u256_to_decimal};

fn amount(n: u128) -> Amount {
    Amount { limbs: [n as u64, (n >> 64) as u64, 0, 0] }
}

const MAX: Amount = Amount { limbs: [u64::MAX; 4] };
const MAX_TEXT: &str =
    "115792089237316195423570985008687907853269984665640564039457584007913129639935";

#[test]
fn numerals_have_no_leading_zeros() {
    assert_eq!(decimal_u64(0), "0");
    assert_eq!(decimal_u64(7), "7");
    assert_eq!(decimal_u64(10), "10");
    assert_eq!(decimal_u64(1203), "1203");
    assert_eq!(decimal_u64(u64::MAX), "18446744073709551615");
}

#[test]
fn amounts_without_decimals_are_plain_numerals() {
    assert_eq!(format_amount(amount(0), 0), "0");
    assert_eq!(format_amount(amount(1200), 0), "1200");
    assert_eq!(u256_to_decimal(amount(1200), 0), "1200");
    assert_eq!(format_amount(MAX, 0), MAX_TEXT);
}

#[test]
fn short_amounts_are_all_fraction() {
    assert_eq!(format_amount(amount(1), 6), "0.000001");
    assert_eq!(format_amount(amount(120), 6), "0.00012");
    assert_eq!(format_amount(amount(999_999), 6), "0.999999");
    assert_eq!(u256_to_decimal(amount(1), 6), "0.000001");
    assert_eq!(u256_to_decimal(amount(120), 6), "0.000120");
}

#[test]
fn zero_is_written_as_zero() {
    assert_eq!(format_amount(amount(0), 6), "0");
    assert_eq!(format_amount(amount(0), 18), "0");
    assert_eq!(u256_to_decimal(amount(0), 6), "0.000000");
    assert_eq!(u256_to_decimal(amount(0), 18), "0.000000000000000000");
}

#[test]
fn long_amounts_have_a_whole_part() {
    assert_eq!(format_amount(amount(1_000_000), 6), "1");
    assert_eq!(format_amount(amount(1_500_000), 6), "1.5");
    assert_eq!(format_amount(amount(10_000_001), 6), "10.000001");
    assert_eq!(u256_to_decimal(amount(4_425_000_000), 6), "4425.000000");
    assert_eq!(u256_to_decimal(amount(1_500_000), 6), "1.500000");
}

#[test]
fn the_largest_amount_is_written_exactly() {
    assert_eq!(
        u256_to_decimal(MAX, 18),
        "115792089237316195423570985008687907853269984665640564039457.584007913129639935"
    );
    assert_eq!(u256_to_decimal(MAX, 78), format!("0.{}", MAX_TEXT));
    assert_eq!(format_amount(MAX, 80), format!("0.00{}", MAX_TEXT));
}

#[test]
fn texts_read_as_the_number_they_stand_for() {
    assert_eq!(u256_to_decimal(amount(4_425_000_000), 6).parse::<f64>(), Ok(4425.0));
    assert_eq!(u256_to_decimal(amount(1), 18).parse::<f64>(), Ok(1e-18));
    assert_eq!(format_amount(amount(250_000), 6).parse::<f64>(), Ok(0.25));
}

#[test]
fn token_amounts_are_built_from_their_parts() {
    assert_eq!(build_token_u256(1, 0, 18), amount(1_000_000_000_000_000_000));
    assert_eq!(build_token_u256(1, 500_000_000_000_000_000, 18), amount(1_500_000_000_000_000_000));
    assert_eq!(build_token_u256(0, 42, 18), amount(42));
    assert_eq!(build_token_u256(12, 34, 0), amount(46));
    // A fraction that was rounded up to a whole token carries over.
    assert_eq!(build_token_u256(2, 1_000_000, 6), amount(3_000_000));
}

#[test]
fn token_amounts_beyond_128_bits() {
    // (2^128 - 1) * 10^18 = 0xde0b6b3a763ffff_ffffffffffffffff_f21f494c589c0000
    let a = build_token_u256(u128::MAX, 0, 18);
    assert_eq!(a.limbs, [0xf21f494c589c0000, 0xffffffffffffffff, 0x0de0b6b3a763ffff, 0]);
}

#[test]
fn built_amounts_show_their_parts() {
    let a = build_token_u256(4400, 25, 6);
    assert_eq!(u256_to_decimal(a, 6), "4400.000025");
    assert_eq!(format_amount(a, 6), "4400.000025");
}

#[test]
fn different_amounts_have_different_texts() {
    for n in 0..2000u128 {
        assert_ne!(format_amount(amount(n), 3), format_amount(amount(n + 1), 3));
        assert_ne!(u256_to_decimal(amount(n), 3), u256_to_decimal(amount(n + 1), 3));
    }
}

#[test]
fn narrow_amounts_fit_in_64_bits() {
    assert!(amount(u64::MAX as u128).fits_u64());
    assert_eq!(amount(u64::MAX as u128).as_u64(), u64::MAX);
    assert!(!amount(u64::MAX as u128 + 1).fits_u64());
    assert!(!Amount { limbs: [0, 0, 0, 1] }.fits_u64());
    assert_eq!(Amount::zero().as_u64(), 0);
}
