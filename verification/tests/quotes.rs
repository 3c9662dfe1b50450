use arb_detector::amount::Amount;
use arb_detector::quote::{mock_fetch_amounts, settle_fetch, Dex, FetchOutcome};

fn amount(n: u128) -> Amount {
    Amount { limbs: [n as u64, (n >> 64) as u64, 0, 0] }
}

#[test]
fn an_answer_is_passed_on() {
    let amounts = vec![amount(1), amount(2)];
    assert_eq!(settle_fetch(FetchOutcome::Amounts(amounts.clone()), 2000), Ok(amounts));
}

#[test]
fn a_failed_call_tells_why() {
    let r = settle_fetch(FetchOutcome::CallError("reverted".to_string()), 2000);
    assert_eq!(r, Err("Contract call error: reverted".to_string()));
}

#[test]
fn a_late_answer_tells_how_long_was_waited() {
    let r = settle_fetch(FetchOutcome::TimedOut, 2000);
    assert_eq!(r, Err("Request timed out after 2000ms".to_string()));
}

#[test]
fn a_mock_quote_sells_one_token() {
    let amounts = mock_fetch_amounts(4_425_000_000);
    assert_eq!(amounts, vec![amount(1_000_000_000_000_000_000), amount(4_425_000_000)]);
    assert_eq!(mock_fetch_amounts(u128::MAX)[1], amount(u128::MAX));
}

#[test]
fn exchanges_have_names() {
    assert_eq!(Dex::First.name(), "DEX1");
    assert_eq!(Dex::Second.name(), "DEX2");
}
