use arb_detector::address::Address;
use arb_detector::config::{
    address_or_zero, db_file, estimate_from, max_iterations, parse_u64, poll_interval_seconds, test_mode,
};

const QUICKSWAP: &str = "0xa5E0829CaCEd8fFDD4De3c43696c57F7D7A678ff";

fn quickswap() -> Address {
    Address {
        bytes: [
            0xa5, 0xe0, 0x82, 0x9c, 0xac, 0xed, 0x8f, 0xfd, 0xd4, 0xde, 0x3c, 0x43, 0x69, 0x6c, 0x57, 0xf7,
            0xd7, 0xa6, 0x78, 0xff,
        ],
    }
}

#[test]
fn integers_are_read_as_the_standard_library_reads_them() {
    let texts = [
        "", "+", "-", "0", "+0", "-0", "-1", "5", "05", "0005", "+7", "++7", " 7", "7 ", "1_000", "12a", "3.0",
        "18446744073709551615", "18446744073709551616", "18446744073709551620", "99999999999999999999",
        "000000000000000000000000001", "184467440737095516150", "184467440737095516150x", "\u{0665}", "1\u{0665}",
    ];
    for text in texts {
        assert_eq!(parse_u64(text), text.parse::<u64>().ok(), "{:?}", text);
    }
}

#[test]
fn the_poll_interval_has_a_default() {
    assert_eq!(poll_interval_seconds(Some("12")), 12);
    assert_eq!(poll_interval_seconds(Some("0")), 0);
    assert_eq!(poll_interval_seconds(Some("soon")), 5);
    assert_eq!(poll_interval_seconds(None), 5);
}

#[test]
fn a_limit_of_zero_is_none() {
    assert_eq!(max_iterations(Some("3")), Some(3));
    assert_eq!(max_iterations(Some("0")), None);
    assert_eq!(max_iterations(Some("many")), None);
    assert_eq!(max_iterations(None), None);
}

#[test]
fn test_mode_is_on_for_true_alone() {
    assert!(test_mode(Some("true")));
    assert!(!test_mode(Some("false")));
    assert!(!test_mode(Some("True")));
    assert!(!test_mode(Some("1")));
    assert!(!test_mode(Some("")));
    assert!(!test_mode(None));
}

#[test]
fn addresses_are_read_from_hexadecimal() {
    assert_eq!(Address::parse(QUICKSWAP), Ok(quickswap()));
    assert_eq!(Address::parse(&QUICKSWAP[2..]), Ok(quickswap()));
    assert_eq!(Address::parse("0x00"), Err("Invalid input length".to_string()));
    assert!(Address::parse("").is_err());
    assert!(Address::parse("0xzzE0829CaCEd8fFDD4De3c43696c57F7D7A678ff").is_err());
    assert!(Address::parse(&format!("{}00", QUICKSWAP)).is_err());
    assert!(Address::parse(&format!("{}0", QUICKSWAP)).is_err());
    assert!(Address::parse(&format!("{}x", QUICKSWAP)).is_err());
    assert!(Address::parse(&format!("0x{}", QUICKSWAP)).is_err());
    assert!(Address::parse(&QUICKSWAP.replace("0x", "0X")).is_err());
    assert!(Address::parse(&format!("{}\u{e9}", QUICKSWAP)).is_err());
}

#[test]
fn blanks_in_addresses_are_skipped() {
    assert_eq!(Address::parse("0x a5E0829CaCEd8f\tFDD4De3c43696\nc57F7D7A678f\r\nf "), Ok(quickswap()));
    assert_eq!(Address::parse(&format!("{}  ", QUICKSWAP)), Ok(quickswap()));
    assert_eq!(Address::parse(&format!(" {}", &QUICKSWAP[2..])), Ok(quickswap()));
    // Blanks before the prefix keep it from being one.
    assert!(Address::parse(&format!(" {}", QUICKSWAP)).is_err());
    assert!(Address::parse(&QUICKSWAP.replace('D', "\u{a0}")).is_err());
}

#[test]
fn the_estimating_account_defaults_to_zero() {
    assert_eq!(estimate_from(Some(QUICKSWAP)), quickswap());
    assert_eq!(estimate_from(Some("nobody")), Address { bytes: [0; 20] });
    assert_eq!(estimate_from(None), Address::zero());
    assert_eq!(address_or_zero(Ok(quickswap())), quickswap());
    assert_eq!(address_or_zero(Err("unread".to_string())), Address::zero());
}

#[test]
fn the_database_file_has_a_default() {
    assert_eq!(db_file(Some("here.db".to_string())), "here.db");
    assert_eq!(db_file(Some(String::new())), "");
    assert_eq!(db_file(None), "opportunities.sqlite3");
}
