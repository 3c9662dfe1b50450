//! Quotes: what each exchange would pay for an amount.

use crate::address::Address;
use crate::amount::{u256_exp10, u256_from_u128, Amount};
use crate::digits::{decimal, decimal_u64, pow10};
use crate::format::law_common_tokens_fit;
use crate::gas::NATIVE_DECIMALS;
use crate::text::joined;
use vstd::prelude::*;
use vstd::string::*;

verus! {

/// How long a router has for its answer, in milliseconds.
pub const FETCH_TIMEOUT_MS: u64 = 2000;

/// One of the two exchanges.
#[derive(Clone, Copy, Debug, PartialEq, Eq)]
pub enum Dex {
    First,
    Second,
}

impl Dex {
    /// The name of the exchange in reports and records.
    pub open spec fn spec_name(self) -> Seq<char> {
        match self {
            Dex::First => "DEX1"@,
            Dex::Second => "DEX2"@,
        }
    }

    /// The name of the exchange in reports and records.
    pub fn name(&self) -> (r: &'static str)
        ensures
            r@ == self.spec_name(),
            self is First ==> r@ == "DEX1"@,
            self is Second ==> r@ == "DEX2"@,
    {
        match self {
            Dex::First => "DEX1",
            Dex::Second => "DEX2",
        }
    }
}

/// A question to a router: what `amount_in` is worth along `path`, to be answered in time.
pub struct QuoteRequest {
    pub router: Address,
    pub amount_in: Amount,
    pub path: Vec<Address>,
    pub timeout_ms: u64,
}

/// What came of a question to a router.
pub enum FetchOutcome {
    /// The amounts along the path.
    Amounts(Vec<Amount>),
    /// The call failed, with this message.
    CallError(String),
    /// No answer in time.
    TimedOut,
}

/// The amounts of a quote, or the message of the failure.
pub fn settle_fetch(outcome: FetchOutcome, timeout_ms: u64) -> (r: Result<Vec<Amount>, String>)
    ensures
        match outcome {
            FetchOutcome::Amounts(amounts) => r matches Ok(a) && a@ == amounts@,
            FetchOutcome::CallError(m) => r matches Err(e) && e@ == "Contract call error: "@ + m@,
            FetchOutcome::TimedOut => r matches Err(e) && e@ == "Request timed out after "@
                + decimal(timeout_ms as nat) + "ms"@,
        },
{
    match outcome {
        FetchOutcome::Amounts(amounts) => Ok(amounts),
        FetchOutcome::CallError(m) => Err(joined("Contract call error: ", m.as_str())),
        FetchOutcome::TimedOut => {
            let number = decimal_u64(timeout_ms);
            Err(joined("Request timed out after ", number.as_str()).concat("ms"))
        },
    }
}

/// The made-up quote of a test run: one token in, `output_units` out.
pub fn mock_fetch_amounts(output_units: u128) -> (r: Vec<Amount>)
    ensures
        r@.len() == 2,
        r@[0]@ == pow10(NATIVE_DECIMALS as nat),
        r@[0]@ == 1_000_000_000_000_000_000,
        r@[1]@ == output_units as nat,
{
    proof {
        law_common_tokens_fit(0, 0, NATIVE_DECIMALS as nat);
        reveal_with_fuel(pow10, 19);
    }
    let mut amounts: Vec<Amount> = Vec::new();
    amounts.push(u256_exp10(NATIVE_DECIMALS));
    amounts.push(u256_from_u128(output_units));
    amounts
}

/// The two exchanges have different names.
pub proof fn law_names_tell_the_exchanges_apart(a: Dex, b: Dex)
    requires
        a.spec_name() == b.spec_name(),
    ensures
        a == b,
{
    reveal_strlit("DEX1");
    reveal_strlit("DEX2");
    assert("DEX1"@[3] == '1');
    assert("DEX2"@[3] == '2');
}

} // verus!
