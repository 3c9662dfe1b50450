//! What a swap costs in gas, priced in USDC.
//!
//! The estimate alternates between the node and the library. Each state below holds what is
//! known so far; a method takes the next reply and gives the next state, or the end.

use crate::address::{swap_path, Address};
use crate::amount::{
    amount_limit, law_amount_limit, u256_checked_mul, u256_from_u128, Amount,
};
use crate::digits::pow10;
use crate::format::{build_token_u256, fixed_text, law_common_tokens_fit, u256_to_decimal};
use crate::number::Real;
use crate::text::joined;
use vstd::arithmetic::power2::*;
use vstd::prelude::*;
use vstd::string::*;

verus! {

/// The decimals of MATIC, of WETH and of their wrapped forms.
pub const NATIVE_DECIMALS: usize = 18;

/// The decimals of USDC.
pub const USDC_DECIMALS: usize = 6;

/// How long, in seconds, the swap that is estimated would stay valid.
pub const DEADLINE_SECS: i64 = 300;

/// A swap whose gas is to be priced.
pub struct GasJob {
    pub router: Address,
    pub amount_in: Amount,
    pub weth: Address,
    pub usdc: Address,
    pub wmatic: Address,
    pub from: Address,
}

/// The call of `swapExactTokensForTokens` that the node is asked to estimate. It is never sent.
pub struct SwapCall {
    pub router: Address,
    pub from: Address,
    pub amount_in: Amount,
    pub amount_out_min: Amount,
    pub path: Vec<Address>,
    pub to: Address,
    pub deadline: Amount,
}

/// What came of asking for the gas of a call.
pub enum EstimateReply {
    /// The call could not be encoded.
    NoCalldata,
    /// The node refused, with this message.
    Failed(String),
    /// The gas.
    Estimated(Amount),
}

/// What a swap costs in gas: in USDC, and in units of gas.
#[derive(Clone, Copy, Debug, PartialEq, Eq)]
pub struct GasCost {
    pub usdc: Real,
    pub gas: Option<u64>,
}

/// The gas is known; its price is awaited.
pub struct GasEstimated {
    pub wmatic: Address,
    pub usdc: Address,
    pub estimate: Amount,
}

/// The cost in wei is known; `cost_text` is that cost in MATIC, to be read as a number.
pub struct GasPriced {
    pub wmatic: Address,
    pub usdc: Address,
    pub estimate: Amount,
    pub cost_wei: Amount,
    pub cost_text: String,
}

/// The cost in MATIC is known; the router is asked what `amount_in` is worth along `path`.
pub struct GasQuote {
    pub estimate: Amount,
    pub amount_in: Amount,
    pub path: Vec<Address>,
}

/// The worth is known; `usdc_text` is the cost in USDC, to be read as a number.
pub struct GasQuoted {
    pub estimate: Amount,
    pub usdc_text: String,
}

/// What follows from the cost in MATIC.
pub enum GasStep {
    /// Gas costs nothing.
    Done(GasCost),
    /// The cost is to be turned into USDC.
    Quote(GasQuote),
}

/// The moment, in seconds since the start of 1970, until which a swap at `now` would be valid,
/// as an unsigned 64-bit integer. A moment before 1970 wraps round.
pub fn swap_deadline(now: i64) -> (r: u64)
    requires
        now + DEADLINE_SECS <= i64::MAX,
    ensures
        now + DEADLINE_SECS >= 0 ==> r == now + DEADLINE_SECS,
        now + DEADLINE_SECS < 0 ==> r == now + DEADLINE_SECS + 0x1_0000_0000_0000_0000,
        now + 300 >= 0 ==> r == now + 300,
        now + 300 < 0 ==> r == now + 300 + 0x1_0000_0000_0000_0000,
{
    let t: i64 = now + DEADLINE_SECS;
    assert(t >= 0 ==> t as u64 == t) by (bit_vector);
    assert(t < 0 ==> t as u64 == t + 0x1_0000_0000_0000_0000) by (bit_vector);
    t as u64
}

/// What gas costs in wei; nothing where the product does not fit in 256 bits.
pub open spec fn wei_cost(gas: nat, price: nat) -> nat {
    if gas * price < amount_limit() {
        gas * price
    } else {
        0
    }
}

/// What `gas` units of gas cost in wei at `price`; zero where that does not fit in 256 bits.
pub fn gas_cost_wei(gas: &Amount, price: &Amount) -> (r: Amount)
    ensures
        r@ == wei_cost(gas@, price@),
        gas@ * price@ < 0x1_0000_0000_0000_0000_0000_0000_0000_0000_0000_0000_0000_0000_0000_0000_0000_0000
            ==> r@ == gas@ * price@,
        gas@ * price@ >= 0x1_0000_0000_0000_0000_0000_0000_0000_0000_0000_0000_0000_0000_0000_0000_0000_0000
            ==> r@ == 0,
{
    match u256_checked_mul(gas, price) {
        Some(cost) => cost,
        None => Amount::zero(),
    }
}

impl GasJob {
    /// The call whose gas the node is asked for.
    pub fn swap_call(&self, now: i64) -> (r: SwapCall)
        requires
            now + DEADLINE_SECS <= i64::MAX,
        ensures
            r.router == self.router,
            r.from == self.from,
            r.amount_in == self.amount_in,
            r.amount_out_min@ == 0,
            r.path@ == seq![self.weth, self.usdc],
            r.to == self.from,
            now + DEADLINE_SECS >= 0 ==> r.deadline@ == now + DEADLINE_SECS,
            now + DEADLINE_SECS < 0 ==> r.deadline@ == now + DEADLINE_SECS
                + 0x1_0000_0000_0000_0000,
            now + 300 >= 0 ==> r.deadline@ == now + 300,
            now + 300 < 0 ==> r.deadline@ == now + 300 + 0x1_0000_0000_0000_0000,
    {
        let deadline: u64 = swap_deadline(now);
        SwapCall {
            router: self.router,
            from: self.from,
            amount_in: self.amount_in,
            amount_out_min: Amount::zero(),
            path: swap_path(self.weth, self.usdc),
            to: self.from,
            deadline: u256_from_u128(deadline as u128),
        }
    }

    /// Whether `next` knows the gas of the call.
    pub open spec fn expects(self, gas: Amount, next: GasEstimated) -> bool {
        &&& next.wmatic == self.wmatic
        &&& next.usdc == self.usdc
        &&& next.estimate == gas
    }

    /// Takes the gas of the call.
    pub fn estimated(self, reply: EstimateReply) -> (r: Result<GasEstimated, String>)
        ensures
            match reply {
                EstimateReply::NoCalldata => r matches Err(e) && e@
                    == "Failed to build calldata"@,
                EstimateReply::Failed(m) => r matches Err(e) && e@ == "estimate_gas failed: "@
                    + m@,
                EstimateReply::Estimated(gas) => r matches Ok(next) && self.expects(gas, next),
            },
            reply matches EstimateReply::Estimated(gas) ==> (r matches Ok(next) && next.estimate
                == gas && next.wmatic == self.wmatic && next.usdc == self.usdc),
    {
        match reply {
            EstimateReply::NoCalldata => Err(String::from_str("Failed to build calldata")),
            EstimateReply::Failed(m) => Err(joined("estimate_gas failed: ", m.as_str())),
            EstimateReply::Estimated(gas) => Ok(
                GasEstimated { wmatic: self.wmatic, usdc: self.usdc, estimate: gas },
            ),
        }
    }
}

impl GasEstimated {
    /// Whether `next` knows what the gas costs at `price`.
    pub open spec fn costs(self, price: Amount, next: GasPriced) -> bool {
        &&& next.wmatic == self.wmatic
        &&& next.usdc == self.usdc
        &&& next.estimate == self.estimate
        &&& next.cost_wei@ == wei_cost(self.estimate@, price@)
        &&& next.cost_text@ == fixed_text(next.cost_wei@, NATIVE_DECIMALS as nat)
    }

    /// Takes the price of gas, in wei.
    pub fn priced(self, reply: Result<Amount, String>) -> (r: Result<GasPriced, String>)
        ensures
            match reply {
                Ok(price) => r matches Ok(next) && self.costs(price, next),
                Err(m) => r matches Err(e) && e@ == m@,
            },
            reply matches Ok(price) ==> (r matches Ok(next) && next.estimate == self.estimate
                && next.wmatic == self.wmatic && next.usdc == self.usdc && next.cost_wei@ == (
            if self.estimate@ * price@ < amount_limit() {
                self.estimate@ * price@
            } else {
                0
            }) && next.cost_text@ == fixed_text(next.cost_wei@, 18)),
    {
        match reply {
            Ok(price) => {
                let cost_wei = gas_cost_wei(&self.estimate, &price);
                Ok(
                    GasPriced {
                        wmatic: self.wmatic,
                        usdc: self.usdc,
                        estimate: self.estimate,
                        cost_wei,
                        cost_text: u256_to_decimal(cost_wei, NATIVE_DECIMALS),
                    },
                )
            },
            Err(m) => Err(m),
        }
    }
}

impl GasPriced {
    /// Whether `step` follows from the cost in wei.
    pub open spec fn settles(self, whole: u128, frac_units: u128, step: GasStep) -> bool {
        match step {
            GasStep::Done(done) => {
                &&& self.cost_wei@ == 0
                &&& done.usdc.bits == 0
                &&& done.gas matches Some(g)
                &&& g as nat == self.estimate@
            },
            GasStep::Quote(next) => {
                &&& self.cost_wei@ != 0
                &&& next.estimate == self.estimate
                &&& next.amount_in@ == whole * pow10(NATIVE_DECIMALS as nat) + frac_units
                &&& next.path@ == seq![self.wmatic, self.usdc]
            },
        }
    }

    /// Takes the cost in MATIC, split into whole tokens and further units. Gas that costs no wei
    /// ends the estimate; it must then fit in 64 bits. Any other cost is to be quoted.
    pub fn settled(self, whole: u128, frac_units: u128) -> (r: GasStep)
        requires
            self.cost_wei@ == 0 ==> self.estimate@ <= u64::MAX,
        ensures
            self.settles(whole, frac_units, r),
            r is Done <==> self.cost_wei@ == 0,
            r matches GasStep::Done(done) ==> done.usdc.bits == 0 && (done.gas matches Some(g)
                && g == self.estimate@),
            r matches GasStep::Quote(next) ==> next.estimate == self.estimate && next.path@
                == seq![self.wmatic, self.usdc] && next.amount_in@ == whole
                * 1_000_000_000_000_000_000 + frac_units,
    {
        if self.cost_wei.is_zero() {
            GasStep::Done(GasCost { usdc: Real::zero(), gas: Some(self.estimate.as_u64()) })
        } else {
            proof {
                law_common_tokens_fit(whole, frac_units, NATIVE_DECIMALS as nat);
                reveal_with_fuel(pow10, 19);
            }
            GasStep::Quote(
                GasQuote {
                    estimate: self.estimate,
                    amount_in: build_token_u256(whole, frac_units, NATIVE_DECIMALS),
                    path: swap_path(self.wmatic, self.usdc),
                },
            )
        }
    }
}

impl GasQuote {
    /// Whether `next` knows what comes out of the path.
    pub open spec fn is_worth(self, amounts: Seq<Amount>, next: GasQuoted) -> bool {
        &&& next.estimate == self.estimate
        &&& next.usdc_text@ == fixed_text(amounts[1]@, USDC_DECIMALS as nat)
    }

    /// Takes the amounts along the path. The second one is what comes out.
    pub fn quoted(self, reply: Result<Vec<Amount>, String>) -> (r: Result<GasQuoted, String>)
        requires
            reply matches Ok(amounts) ==> amounts@.len() >= 2,
        ensures
            match reply {
                Ok(amounts) => r matches Ok(next) && self.is_worth(amounts@, next),
                Err(m) => r matches Err(e) && e@ == m@,
            },
            reply matches Ok(amounts) ==> (r matches Ok(next) && next.estimate == self.estimate
                && next.usdc_text@ == fixed_text(amounts@[1]@, 6)),
    {
        match reply {
            Ok(amounts) => Ok(
                GasQuoted {
                    estimate: self.estimate,
                    usdc_text: u256_to_decimal(amounts[1], USDC_DECIMALS),
                },
            ),
            Err(m) => Err(m),
        }
    }
}

impl GasQuoted {
    /// Whether `cost` is the end of the estimate.
    pub open spec fn ends_in(self, usdc: Real, cost: GasCost) -> bool {
        &&& cost.usdc == usdc
        &&& cost.gas matches Some(g)
        &&& g as nat == self.estimate@
    }

    /// Takes the cost in USDC, as the number that `usdc_text` is read as. The gas must fit in
    /// 64 bits.
    pub fn finished(self, usdc: Real) -> (r: GasCost)
        requires
            self.estimate@ <= u64::MAX,
        ensures
            self.ends_in(usdc, r),
            r.usdc == usdc,
            r.gas matches Some(g) && g == self.estimate@,
    {
        GasCost { usdc, gas: Some(self.estimate.as_u64()) }
    }
}

/// Gas costs nothing exactly where the node's gas or its price is zero, or where their product
/// does not fit in 256 bits.
pub proof fn law_when_gas_costs_nothing(e: GasEstimated, price: Amount, p: GasPriced)
    requires
        e.costs(price, p),
    ensures
        p.cost_wei@ == 0 <==> e.estimate@ * price@ == 0 || e.estimate@ * price@ >= amount_limit(),
        e.estimate@ * price@ == 0 <==> e.estimate@ == 0 || price@ == 0,
{
    let gas = e.estimate@;
    let unit = price@;
    assert(gas * unit == 0 <==> gas == 0 || unit == 0) by (nonlinear_arith);
}

/// Where the node's gas or its price is zero, or their product does not fit in 256 bits, the
/// estimate ends without a quote, and nowhere else. It then reports the node's gas at no cost.
pub proof fn law_free_gas_needs_no_quote(
    job: GasJob,
    gas: Amount,
    e: GasEstimated,
    price: Amount,
    p: GasPriced,
    whole: u128,
    frac_units: u128,
    step: GasStep,
)
    requires
        job.expects(gas, e),
        e.costs(price, p),
        p.settles(whole, frac_units, step),
    ensures
        step is Done <==> gas@ * price@ == 0 || gas@ * price@ >= amount_limit(),
        step matches GasStep::Done(done) ==> done.usdc.bits == 0 && (done.gas matches Some(g)
            && g as nat == gas@),
        step is Quote ==> p.cost_wei@ == gas@ * price@,
{
    law_when_gas_costs_nothing(e, price, p);
}

/// An estimate that runs to its end reports the node's gas, at the price that the router gave:
/// the cost in MATIC was asked for along the path from WMATIC to USDC, and what came out is what
/// was read.
pub proof fn law_gas_is_priced_by_the_router(
    job: GasJob,
    gas: Amount,
    e: GasEstimated,
    price: Amount,
    p: GasPriced,
    whole: u128,
    frac_units: u128,
    q: GasQuote,
    amounts: Seq<Amount>,
    d: GasQuoted,
    usdc: Real,
    end: GasCost,
)
    requires
        job.expects(gas, e),
        e.costs(price, p),
        p.settles(whole, frac_units, GasStep::Quote(q)),
        q.is_worth(amounts, d),
        d.ends_in(usdc, end),
    ensures
        end.usdc == usdc,
        end.gas matches Some(g) && g as nat == gas@,
        p.cost_text@ == fixed_text(wei_cost(gas@, price@), NATIVE_DECIMALS as nat),
        q.amount_in@ == whole * pow10(NATIVE_DECIMALS as nat) + frac_units,
        q.path@ == seq![job.wmatic, job.usdc],
        d.usdc_text@ == fixed_text(amounts[1]@, USDC_DECIMALS as nat),
{
}

/// What gas costs in wei is the product of the gas and its price. A product that 256 bits cannot
/// hold counts as nothing; no other product but zero does.
pub proof fn law_cost_is_the_product(gas: nat, price: nat)
    ensures
        gas * price < pow2(256) ==> wei_cost(gas, price) == gas * price,
        gas * price >= pow2(256) ==> wei_cost(gas, price) == 0,
        wei_cost(gas, price) == wei_cost(price, gas),
        wei_cost(gas, 0) == 0,
        gas < pow2(256) ==> wei_cost(gas, 1) == gas,
{
    law_amount_limit();
    assert(gas * price == price * gas) by (nonlinear_arith);
    assert(gas * 0 == 0 && gas * 1 == gas);
}

/// Where the cost fits, one more unit of gas costs one price more, and a price that is higher by
/// one costs one wei more for each unit of gas.
pub proof fn law_gas_is_charged_by_the_unit(gas: nat, price: nat)
    ensures
        (gas + 1) * price < pow2(256) ==> wei_cost(gas + 1, price) == wei_cost(gas, price) + price,
        gas * (price + 1) < pow2(256) ==> wei_cost(gas, price + 1) == wei_cost(gas, price) + gas,
{
    law_amount_limit();
    assert((gas + 1) * price == gas * price + price) by (nonlinear_arith);
    assert(gas * (price + 1) == gas * price + gas) by (nonlinear_arith);
}

/// From the job to the cost in wei nothing of the job is lost and nothing is added: the addresses
/// are those of the job, the gas is the node's, the cost is the product of the gas and its price,
/// and the text shows that cost with eighteen decimals.
pub proof fn law_cost_tells_the_node(
    job: GasJob,
    gas: Amount,
    e: GasEstimated,
    price: Amount,
    p: GasPriced,
)
    requires
        job.expects(gas, e),
        e.costs(price, p),
    ensures
        e.wmatic == job.wmatic,
        e.usdc == job.usdc,
        e.estimate == gas,
        p.wmatic == job.wmatic,
        p.usdc == job.usdc,
        p.estimate == gas,
        gas@ * price@ < pow2(256) ==> p.cost_wei@ == gas@ * price@,
        gas@ * price@ >= pow2(256) ==> p.cost_wei@ == 0,
        p.cost_text@ == fixed_text(p.cost_wei@, 18),
{
    law_cost_is_the_product(gas@, price@);
}

/// What follows from a cost in wei: nothing more to ask exactly where it is zero, and the node's
/// gas at no cost then; else the question what that much MATIC is worth in USDC, for the amount
/// that was handed in.
pub proof fn law_a_cost_is_settled(p: GasPriced, whole: u128, frac_units: u128, step: GasStep)
    requires
        p.settles(whole, frac_units, step),
    ensures
        step is Done <==> p.cost_wei@ == 0,
        step matches GasStep::Done(done) ==> done.usdc.bits == 0 && (done.gas matches Some(g) && g
            == p.estimate@),
        step matches GasStep::Quote(q) ==> q.estimate == p.estimate && q.amount_in@ == whole
            * 1_000_000_000_000_000_000 + frac_units && q.path@.len() == 2 && q.path@[0]
            == p.wmatic && q.path@[1] == p.usdc,
{
    reveal_with_fuel(pow10, 19);
}

/// What comes out of the path is what the cost is read from, with six decimals, and the end
/// reports the number that was read, beside the gas that was asked about.
pub proof fn law_worth_is_what_comes_out(
    q: GasQuote,
    amounts: Seq<Amount>,
    d: GasQuoted,
    usdc: Real,
    end: GasCost,
)
    requires
        q.is_worth(amounts, d),
        d.ends_in(usdc, end),
    ensures
        d.estimate == q.estimate,
        d.usdc_text@ == fixed_text(amounts[1]@, 6),
        end.usdc == usdc,
        end.gas matches Some(g) && g == q.estimate@,
{
}

} // verus!
