use arb_detector::address::Address;
use arb_detector::amount::Amount;
use arb_detector::gas::{
    gas_cost_wei, swap_deadline, EstimateReply, GasCost, GasEstimated, GasJob, GasPriced, GasStep,
};
use arb_detector::number::Real;

const ROUTER: Address = Address { bytes: [1; 20] };
const WETH: Address = Address { bytes: [2; 20] };
const USDC: Address = Address { bytes: [3; 20] };
const WMATIC: Address = Address { bytes: [4; 20] };
const FROM: Address = Address { bytes: [5; 20] };

fn amount(n: u128) -> Amount {
    Amount { limbs: [n as u64, (n >> 64) as u64, 0, 0] }
}

fn number(x: f64) -> Real {
    Real { bits: x.to_bits() }
}

fn job() -> GasJob {
    GasJob {
        router: ROUTER,
        amount_in: amount(1_000_000_000_000_000_000),
        weth: WETH,
        usdc: USDC,
        wmatic: WMATIC,
        from: FROM,
    }
}

fn estimated(gas: Amount) -> GasEstimated {
    match job().estimated(EstimateReply::Estimated(gas)) {
        Ok(e) => e,
        Err(m) => panic!("{}", m),
    }
}

fn priced(gas: Amount, price: Amount) -> GasPriced {
    match estimated(gas).priced(Ok(price)) {
        Ok(p) => p,
        Err(m) => panic!("{}", m),
    }
}

#[test]
fn the_swap_is_valid_for_five_minutes() {
    assert_eq!(swap_deadline(1_700_000_000), 1_700_000_300);
    assert_eq!(swap_deadline(-300), 0);
    assert_eq!(swap_deadline(-301), u64::MAX);
    assert_eq!(swap_deadline(i64::MIN), (i64::MIN + 300) as u64);
}

#[test]
fn the_estimated_call_is_the_trade() {
    let call = job().swap_call(1_700_000_000);
    assert_eq!(call.router, ROUTER);
    assert_eq!(call.from, FROM);
    assert_eq!(call.to, FROM);
    assert_eq!(call.amount_in, amount(1_000_000_000_000_000_000));
    assert_eq!(call.amount_out_min, Amount::zero());
    assert_eq!(call.path, vec![WETH, USDC]);
    assert_eq!(call.deadline, amount(1_700_000_300));
}

#[test]
fn a_failed_estimate_tells_why() {
    let refused = job().estimated(EstimateReply::Failed("execution reverted".to_string()));
    assert_eq!(refused.err().unwrap(), "estimate_gas failed: execution reverted");
    let unencoded = job().estimated(EstimateReply::NoCalldata);
    assert_eq!(unencoded.err().unwrap(), "Failed to build calldata");
}

#[test]
fn a_failed_price_is_passed_on() {
    let r = estimated(amount(150_000)).priced(Err("no connection".to_string()));
    assert_eq!(r.err().unwrap(), "no connection");
}

#[test]
fn cost_is_gas_times_price() {
    assert_eq!(gas_cost_wei(&amount(150_000), &amount(30_000_000_000)), amount(4_500_000_000_000_000));
    assert_eq!(gas_cost_wei(&amount(150_000), &Amount::zero()), Amount::zero());
    let wide = gas_cost_wei(&amount(u128::MAX), &amount(2));
    assert_eq!(wide.limbs, [u64::MAX - 1, u64::MAX, 1, 0]);
}

#[test]
fn cost_beyond_256_bits_counts_as_nothing() {
    let huge = Amount { limbs: [0, 0, 1, 0] };
    assert_eq!(gas_cost_wei(&huge, &huge), Amount::zero());
    // The largest product that still fits, and the first one that does not.
    let max = Amount { limbs: [u64::MAX; 4] };
    assert_eq!(gas_cost_wei(&max, &amount(1)), max);
    assert_eq!(gas_cost_wei(&max, &amount(2)), Amount::zero());
}

#[test]
fn cost_is_written_in_matic() {
    let p = priced(amount(150_000), amount(30_000_000_000));
    assert_eq!(p.cost_wei, amount(4_500_000_000_000_000));
    assert_eq!(p.cost_text, "0.004500000000000000");
    assert_eq!(p.estimate, amount(150_000));
}

#[test]
fn costly_gas_is_quoted_in_usdc() {
    let p = priced(amount(150_000), amount(30_000_000_000));
    let q = match p.settled(0, 4_500_000_000_000_000) {
        GasStep::Quote(q) => q,
        GasStep::Done(_) => panic!("no quote"),
    };
    assert_eq!(q.amount_in, amount(4_500_000_000_000_000));
    assert_eq!(q.path, vec![WMATIC, USDC]);
    let d = match q.quoted(Ok(vec![amount(4_500_000_000_000_000), amount(2_340)])) {
        Ok(d) => d,
        Err(m) => panic!("{}", m),
    };
    assert_eq!(d.usdc_text, "0.002340");
    let cost = d.finished(number(0.00234));
    assert_eq!(cost, GasCost { usdc: number(0.00234), gas: Some(150_000) });
}

#[test]
fn a_failed_quote_is_passed_on() {
    let step = priced(amount(1), amount(1)).settled(0, 1);
    match step {
        GasStep::Quote(q) => {
            assert_eq!(q.quoted(Err("no pool".to_string())).err().unwrap(), "no pool");
        }
        GasStep::Done(_) => panic!("no quote"),
    }
}

#[test]
fn no_wei_ends_the_estimate() {
    let huge = Amount { limbs: [0, 0, 1, 0] };
    for (gas, price) in [
        (amount(150_000), Amount::zero()),
        (Amount::zero(), amount(30_000_000_000)),
        (amount(1 << 63), Amount { limbs: [0, 0, 0, 2] }),
    ] {
        match priced(gas, price).settled(0, 0) {
            GasStep::Done(cost) => {
                assert_eq!(cost, GasCost { usdc: number(0.0), gas: Some(gas.as_u64()) });
            }
            GasStep::Quote(_) => panic!("a quote for nothing"),
        }
    }
    assert!(priced(huge, huge).cost_wei.is_zero());
}

#[test]
fn any_wei_is_quoted() {
    match priced(amount(1), amount(1)).settled(0, 1) {
        GasStep::Quote(q) => {
            assert_eq!(q.amount_in, amount(1));
            assert_eq!(q.path, vec![WMATIC, USDC]);
        }
        GasStep::Done(_) => panic!("no quote"),
    }
    // The largest product that still fits.
    match priced(amount(1), Amount { limbs: [u64::MAX; 4] }).settled(3, 2) {
        GasStep::Quote(q) => assert_eq!(q.amount_in, amount(3_000_000_000_000_000_002)),
        GasStep::Done(_) => panic!("no quote"),
    }
}

#[test]
fn the_cost_in_wei_and_its_text_agree_on_zero() {
    let max = Amount { limbs: [u64::MAX; 4] };
    for price in [Amount::zero(), amount(1), amount(2), amount(1 << 70), amount(u128::MAX), max] {
        let p = priced(amount(1), price);
        let read: f64 = p.cost_text.parse().unwrap();
        assert_eq!(read <= 0.0, p.cost_wei.is_zero());
        assert_eq!(matches!(p.settled(0, 1), GasStep::Done(_)), read <= 0.0);
    }
}
