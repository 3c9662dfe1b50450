use arb_detector::address::Address;
use arb_detector::amount::Amount;
use arb_detector::clock::Instant;
use arb_detector::detect::{
    should_log, Costed, LastRow, Pending, Plan, Previous, Quoted, Settings, Sided, Verdict,
};
use arb_detector::gas::GasCost;
use arb_detector::number::Real;
use arb_detector::quote::Dex;
use arb_detector::record::{gas_notes, SqlValue, INSERT_SQL, LAST_ROW_SQL, SCHEMA_SQL};

const DEX1: Address = Address { bytes: [1; 20] };
const DEX2: Address = Address { bytes: [2; 20] };
const WETH: Address = Address { bytes: [3; 20] };
const USDC: Address = Address { bytes: [4; 20] };
const WMATIC: Address = Address { bytes: [5; 20] };
const FROM: Address = Address { bytes: [6; 20] };

const NOON: Instant = Instant { secs: 1_700_000_000, nanos: 250_000_000 };

fn amount(n: u128) -> Amount {
    Amount { limbs: [n as u64, (n >> 64) as u64, 0, 0] }
}

fn number(x: f64) -> Real {
    Real { bits: x.to_bits() }
}

fn settings(test: bool) -> Settings {
    Settings {
        dex1: DEX1,
        dex2: DEX2,
        weth: WETH,
        usdc: USDC,
        wmatic: WMATIC,
        estimate_from: FROM,
        trade_size_weth: number(1.5),
        slippage_tol: number(0.005),
        min_profit_usdc: number(5.0),
        fallback_gas_usdc: number(12.0),
        test_mode: test,
        test_base: number(4400.0),
        test_spread: number(50.0),
    }
}

fn later(t: Instant, secs: i64, nanos: u32) -> Instant {
    let total = t.nanos + nanos;
    Instant { secs: t.secs + secs + (total / 1_000_000_000) as i64, nanos: total % 1_000_000_000 }
}

fn mock_quotes(first: u128, second: u128) -> Quoted {
    match settings(true).detect_once(1, 500_000_000_000_000_000) {
        Plan::Mock(run) => run.mocked(first, second),
        Plan::Live(_) => panic!("routers asked in test mode"),
    }
}

fn sides() -> Sided {
    mock_quotes(4_425_000_000, 4_375_000_000).sided(number(4425.0), number(4375.0))
}

fn costed() -> Costed {
    sides().costed(Ok(GasCost { usdc: number(0.5), gas: Some(150_000) }))
}

/// The row of an opportunity that earned `net`.
fn last_row(ts: &str, net: f64) -> LastRow {
    assert!(!(net + 0.1 < net));
    LastRow::new(ts.to_string(), number(net), number(net + 0.1))
}

fn pending(net: f64) -> Pending {
    match costed().judged(number(50.0), number(net), None, NOON) {
        Verdict::Log(p) => p,
        _ => panic!("not logged"),
    }
}

#[test]
fn test_mode_makes_quotes_up() {
    let q = mock_quotes(4_425_000_000, 4_375_000_000);
    assert_eq!(q.first_text, "4425.000000");
    assert_eq!(q.second_text, "4375.000000");
    assert_eq!(q.amount_in, amount(1_500_000_000_000_000_000));
}

#[test]
fn live_mode_asks_both_routers() {
    match settings(false).detect_once(1, 500_000_000_000_000_000) {
        Plan::Live(run) => {
            assert_eq!(run.first.router, DEX1);
            assert_eq!(run.second.router, DEX2);
            for request in [&run.first, &run.second] {
                assert_eq!(request.amount_in, amount(1_500_000_000_000_000_000));
                assert_eq!(request.path, vec![WETH, USDC]);
                assert_eq!(request.timeout_ms, 2000);
            }
            let reply = Ok((vec![amount(1), amount(4_400_000_001)], vec![amount(1), amount(17)]));
            match run.fetched(reply) {
                Ok(q) => {
                    assert_eq!(q.first_text, "4400.000001");
                    assert_eq!(q.second_text, "0.000017");
                }
                Err(m) => panic!("{}", m),
            }
        }
        Plan::Mock(_) => panic!("quotes made up in live mode"),
    }
}

#[test]
fn a_failed_fetch_ends_the_detection() {
    match settings(false).detect_once(1, 0) {
        Plan::Live(run) => {
            let r = run.fetched(Err("Request timed out after 2000ms".to_string()));
            assert_eq!(r.err().unwrap(), "dual fetch failed: Request timed out after 2000ms");
        }
        Plan::Mock(_) => panic!("quotes made up in live mode"),
    }
}

#[test]
fn bought_where_less_comes_out() {
    let s = sides();
    assert_eq!((s.buy, s.sell), (Dex::Second, Dex::First));
    assert_eq!((s.buy_out, s.sell_out), (number(4375.0), number(4425.0)));
    assert_eq!(s.buy_router, DEX2);
    let s = mock_quotes(1, 2).sided(number(1.0), number(2.0));
    assert_eq!((s.buy, s.sell), (Dex::First, Dex::Second));
    assert_eq!((s.buy_out, s.sell_out), (number(1.0), number(2.0)));
    assert_eq!(s.buy_router, DEX1);
}

#[test]
fn equal_outputs_buy_on_the_second_exchange() {
    let s = mock_quotes(2, 2).sided(number(2.0), number(2.0));
    assert_eq!((s.buy, s.sell), (Dex::Second, Dex::First));
    assert_eq!(s.buy_router, DEX2);
}

#[test]
fn gas_is_priced_on_the_side_to_buy_on() {
    let job = sides().gas_job();
    assert_eq!(job.router, DEX2);
    assert_eq!(job.amount_in, amount(1_500_000_000_000_000_000));
    assert_eq!((job.weth, job.usdc, job.wmatic), (WETH, USDC, WMATIC));
    assert_eq!(job.from, FROM);
}

#[test]
fn a_failed_estimate_falls_back() {
    let c = sides().costed(Err("estimate_gas failed: reverted".to_string()));
    assert_eq!(c.gas, GasCost { usdc: number(12.0), gas: None });
    assert_eq!(
        c.warning.unwrap(),
        "Gas estimate failed (falling back): estimate_gas failed: reverted"
    );
    let c = costed();
    assert_eq!(c.gas, GasCost { usdc: number(0.5), gas: Some(150_000) });
    assert!(c.warning.is_none());
}

#[test]
fn the_minimum_profit_decides() {
    assert!(matches!(costed().judged(number(50.0), number(5.0), None, NOON), Verdict::Log(_)));
    assert!(matches!(costed().judged(number(50.0), number(4.999), None, NOON), Verdict::Unprofitable));
    assert!(matches!(costed().judged(number(50.0), number(-3.0), None, NOON), Verdict::Unprofitable));
    assert!(matches!(costed().judged(number(50.0), number(f64::NAN), None, NOON), Verdict::Unprofitable));
}

#[test]
fn the_first_opportunity_is_logged() {
    assert!(should_log(number(7.0), None, NOON));
}

#[test]
fn a_repeat_waits_for_the_cooldown() {
    let previous = Some(Previous { bar: number(7.1), logged_at: Some(NOON) });
    assert!(!should_log(number(7.0), previous, NOON));
    assert!(!should_log(number(7.0), previous, later(NOON, 60, 0)));
    assert!(!should_log(number(7.0), previous, later(NOON, 60, 999_999_999)));
    assert!(should_log(number(7.0), previous, later(NOON, 61, 0)));
    // A clock that was set back holds back as well.
    assert!(!should_log(number(7.0), previous, later(NOON, -5000, 0)));
}

#[test]
fn a_better_opportunity_does_not_wait() {
    let previous = Some(Previous { bar: number(7.1), logged_at: Some(NOON) });
    assert!(should_log(number(7.2), previous, NOON));
    assert!(!should_log(number(7.1), previous, NOON));
    assert!(!should_log(number(f64::NAN), previous, NOON));
}

#[test]
fn a_time_that_cannot_be_read_holds_nothing_back() {
    let previous = Some(Previous { bar: number(7.1), logged_at: None });
    assert!(should_log(number(7.0), previous, NOON));
    let last = last_row("yesterday", 7.0);
    assert!(matches!(costed().judged(number(50.0), number(7.0), Some(last), NOON), Verdict::Log(_)));
}

#[test]
fn leap_seconds_count_where_they_are_seen() {
    // 2015-06-30T23:59:59 and the leap second that follows it.
    let before = Instant { secs: 1_435_708_799, nanos: 0 };
    let leap = Instant { secs: 1_435_708_799, nanos: 1_500_000_000 };
    let at = |t: Instant| Some(Previous { bar: number(9.0), logged_at: Some(t) });
    // A day boundary between the two hides the second: 60.5 s remain of the 61.
    assert!(!should_log(number(1.0), at(leap), Instant { secs: 1_435_708_861, nanos: 0 }));
    assert!(should_log(number(1.0), at(leap), Instant { secs: 1_435_708_862, nanos: 0 }));
    // An hour earlier the leap second is seen from the same day.
    let leap = Instant { secs: 1_435_705_199, nanos: 1_500_000_000 };
    assert!(!should_log(number(1.0), at(leap), Instant { secs: 1_435_705_259, nanos: 500_000_000 - 1 }));
    assert!(should_log(number(1.0), at(leap), Instant { secs: 1_435_705_260, nanos: 500_000_000 }));
    assert!(!should_log(number(1.0), at(before), Instant { secs: 1_435_708_799, nanos: 1_999_999_999 }));
}

#[test]
fn rows_are_read_in_any_zone() {
    let row = |ts: &str| Some(last_row(ts, 8.9));
    let judge = |ts: &str, now: Instant| costed().judged(number(50.0), number(7.0), row(ts), now);
    // 1700000000 is 2023-11-14T22:13:20Z.
    let soon = Instant { secs: 1_700_000_060, nanos: 0 };
    let late = Instant { secs: 1_700_000_061, nanos: 0 };
    for ts in ["2023-11-14T22:13:20Z", "2023-11-14T22:13:20+00:00", "2023-11-15T03:43:20+05:30"] {
        assert!(matches!(judge(ts, soon), Verdict::Suppressed), "{}", ts);
        assert!(matches!(judge(ts, late), Verdict::Log(_)), "{}", ts);
    }
    assert!(matches!(judge("2023-11-14 22:13", soon), Verdict::Log(_)));
}

#[test]
fn a_logged_row_starts_a_cooldown() {
    let o = pending(7.0).recorded(NOON);
    let row = || Some(last_row(&o.ts, 7.0));
    let judge = |net: f64, now: Instant| costed().judged(number(50.0), number(net), row(), now);
    assert!(matches!(judge(7.0, NOON), Verdict::Suppressed));
    assert!(matches!(judge(7.0, later(NOON, 60, 999_999_999)), Verdict::Suppressed));
    assert!(matches!(judge(7.0, later(NOON, 61, 0)), Verdict::Log(_)));
    assert!(matches!(judge(7.2, NOON), Verdict::Log(_)));
    assert!(matches!(judge(4.0, NOON), Verdict::Unprofitable));
}

#[test]
fn records_tell_their_time() {
    assert_eq!(pending(7.0).recorded(NOON).ts, "2023-11-14T22:13:20.250+00:00");
    let whole = Instant { secs: 0, nanos: 0 };
    assert_eq!(pending(7.0).recorded(whole).ts, "1970-01-01T00:00:00+00:00");
    let leap = Instant { secs: 1_435_708_799, nanos: 1_000_000_001 };
    assert_eq!(pending(7.0).recorded(leap).ts, "2015-06-30T23:59:60.000000001+00:00");
}

#[test]
fn the_calendar_has_ends() {
    let first = Instant { secs: -8_334_601_228_800, nanos: 0 };
    let last = Instant { secs: 8_210_266_876_799, nanos: 1_999_999_999 };
    assert!(first.is_in_range());
    assert!(last.is_in_range());
    assert_eq!(pending(7.0).recorded(first).ts, "-262143-01-01T00:00:00+00:00");
    assert_eq!(pending(7.0).recorded(last).ts, "+262142-12-31T23:59:60.999999999+00:00");
    assert!(!Instant { secs: first.secs - 1, nanos: 0 }.is_in_range());
    assert!(!Instant { secs: last.secs + 1, nanos: 0 }.is_in_range());
    assert!(!Instant { secs: 0, nanos: 2_000_000_000 }.is_in_range());
    assert!(!Instant { secs: 0, nanos: 1_000_000_000 }.is_in_range());
    assert!(Instant { secs: -1, nanos: 1_000_000_000 }.is_in_range());
    // Beyond what RFC 3339 can write, a row does not read back and holds nothing back.
    let ts = pending(7.0).recorded(last).ts;
    let row = Some(last_row(&ts, 8.9));
    assert!(matches!(costed().judged(number(50.0), number(7.0), row, last), Verdict::Log(_)));
}

#[test]
fn years_that_rfc_3339_can_write_read_back() {
    for secs in [-62_167_219_200, 253_402_300_799] {
        let at = Instant { secs, nanos: 0 };
        let row = Some(last_row(&pending(7.0).recorded(at).ts, 8.9));
        assert!(matches!(costed().judged(number(50.0), number(7.0), row, at), Verdict::Suppressed));
    }
}

#[test]
fn records_tell_their_detection() {
    let o = pending(7.0).recorded(NOON);
    assert_eq!((o.dex_buy, o.dex_sell), (Dex::Second, Dex::First));
    assert_eq!((o.price_buy, o.price_sell), (number(4375.0), number(4425.0)));
    assert_eq!(o.trade_size_weth, number(1.5));
    assert_eq!((o.gross, o.gas_usdc, o.net), (number(50.0), number(0.5), number(7.0)));
    assert_eq!(o.tx_gas, Some(150_000));
    assert_eq!(o.notes, Some("gas_est=Some(150000)".to_string()));
}

#[test]
fn notes_are_the_debug_form_of_the_gas() {
    for gas in [None, Some(0), Some(21_000), Some(u64::MAX)] {
        assert_eq!(gas_notes(gas), format!("gas_est={:?}", gas));
    }
}

#[test]
fn rows_follow_the_columns() {
    let row = pending(7.0).recorded(NOON).row();
    assert_eq!(row.len(), 11);
    assert!(matches!(&row[0], SqlValue::Text(s) if s == "2023-11-14T22:13:20.250+00:00"));
    assert!(matches!(&row[1], SqlValue::Text(s) if s == "DEX2"));
    assert!(matches!(&row[2], SqlValue::Number(x) if *x == number(4375.0)));
    assert!(matches!(&row[3], SqlValue::Text(s) if s == "DEX1"));
    assert!(matches!(&row[4], SqlValue::Number(x) if *x == number(4425.0)));
    assert!(matches!(&row[5], SqlValue::Number(x) if *x == number(1.5)));
    assert!(matches!(&row[6], SqlValue::Number(x) if *x == number(50.0)));
    assert!(matches!(&row[7], SqlValue::Number(x) if *x == number(0.5)));
    assert!(matches!(&row[8], SqlValue::Number(x) if *x == number(7.0)));
    assert!(matches!(&row[9], SqlValue::Count(150_000)));
    assert!(matches!(&row[10], SqlValue::Text(s) if s == "gas_est=Some(150000)"));
}

#[test]
fn unknown_gas_is_null() {
    let c = sides().costed(Err("no node".to_string()));
    match c.judged(number(50.0), number(7.0), None, NOON) {
        Verdict::Log(p) => {
            let o = p.recorded(NOON);
            assert_eq!(o.gas_usdc, number(12.0));
            let row = o.row();
            assert!(matches!(&row[9], SqlValue::Null));
            assert!(matches!(&row[10], SqlValue::Text(s) if s == "gas_est=None"));
        }
        _ => panic!("not logged"),
    }
}

#[test]
fn the_statements_work_on_a_database() {
    let conn = rusqlite::Connection::open_in_memory().unwrap();
    conn.execute_batch(SCHEMA_SQL).unwrap();
    conn.execute_batch(SCHEMA_SQL).unwrap();
    for net in [7.0, 8.5] {
        let values = pending(net).recorded(NOON).row();
        let values = values.into_iter().map(|v| match v {
            SqlValue::Text(s) => rusqlite::types::Value::Text(s),
            SqlValue::Number(x) => rusqlite::types::Value::Real(f64::from_bits(x.bits)),
            SqlValue::Count(n) => rusqlite::types::Value::Integer(n as i64),
            SqlValue::Null => rusqlite::types::Value::Null,
        });
        assert_eq!(conn.execute(INSERT_SQL, rusqlite::params_from_iter(values)).unwrap(), 1);
    }
    let (ts, net): (String, f64) =
        conn.query_row(LAST_ROW_SQL, [], |row| Ok((row.get(0)?, row.get(1)?))).unwrap();
    assert_eq!(ts, "2023-11-14T22:13:20.250+00:00");
    assert_eq!(net, 8.5);
    let (buy, size, gas): (String, f64, i64) = conn
        .query_row("SELECT dex_buy, trade_size_weth, tx_estimated_gas FROM opportunities", [], |row| {
            Ok((row.get(0)?, row.get(1)?, row.get(2)?))
        })
        .unwrap();
    assert_eq!((buy.as_str(), size, gas), ("DEX2", 1.5, 150_000));
}

#[test]
fn a_repeat_within_the_cooldown_logs_nothing() {
    for net in [5.0, 7.0, 1e300, f64::INFINITY] {
        let o = pending(net).recorded(NOON);
        for secs in [0, 1, 59, 60] {
            let last = last_row(&o.ts, net);
            let verdict = costed().judged(number(50.0), number(net), Some(last), later(NOON, secs, 0));
            assert!(matches!(verdict, Verdict::Suppressed));
        }
    }
}

#[test]
fn turning_the_spread_round_exchanges_the_sides() {
    let gas = || Ok(GasCost { usdc: number(0.5), gas: Some(150_000) });
    let a = mock_quotes(4_425_000_000, 4_375_000_000);
    let b = mock_quotes(4_375_000_000, 4_425_000_000);
    assert_eq!((&a.first_text, &a.second_text), (&b.second_text, &b.first_text));
    let a = a.sided(number(4425.0), number(4375.0));
    let b = b.sided(number(4375.0), number(4425.0));
    assert_eq!((a.buy, a.sell), (Dex::Second, Dex::First));
    assert_eq!((b.buy, b.sell), (Dex::First, Dex::Second));
    assert_eq!((a.buy_router, b.buy_router), (DEX2, DEX1));
    let record = |s: Sided| match s.costed(gas()).judged(number(50.0), number(7.0), None, NOON) {
        Verdict::Log(p) => p.recorded(NOON),
        _ => panic!("not logged"),
    };
    let (a, b) = (record(a), record(b));
    assert_eq!((a.dex_buy, a.dex_sell), (b.dex_sell, b.dex_buy));
    assert_eq!((a.price_buy, a.price_sell), (b.price_buy, b.price_sell));
    assert_eq!((a.gross, a.gas_usdc, a.net), (b.gross, b.gas_usdc, b.net));
    assert_eq!((a.ts, a.tx_gas, a.notes), (b.ts, b.tx_gas, b.notes));
}
