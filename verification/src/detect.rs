//! One detection: two quotes, a side to buy on and a side to sell on, what it costs, and whether
//! the outcome is logged.
//!
//! A detection alternates between the outside world and the library. Each state below holds what
//! is known so far; a method takes the next reply and gives the next state, or the end.

use crate::address::{swap_path, Address};
use crate::amount::Amount;
use crate::clock::{
    chrono_parse_rfc3339, chrono_seconds_between, chrono_to_rfc3339, law_seconds_are_cut,
    law_whole_seconds, nanos_between, rfc3339_instant, rfc3339_text, seconds_between, Instant,
    NANOS, YEAR_0, YEAR_9999_END,
};
use crate::digits::pow10;
use crate::format::{
    build_token_u256, fixed_text, law_common_tokens_fit, law_texts_are_unambiguous,
    u256_to_decimal,
};
use crate::gas::{GasCost, GasJob, NATIVE_DECIMALS, USDC_DECIMALS};
use crate::number::Real;
use crate::quote::{mock_fetch_amounts, Dex, QuoteRequest, FETCH_TIMEOUT_MS};
use crate::record::{
    gas_note, gas_notes, law_row_gives_the_fields_back, Opportunity, SqlValueView,
};
use crate::text::joined;
use vstd::prelude::*;
use vstd::string::*;

verus! {

/// How many seconds a logged opportunity holds back one that is no better.
pub const COOLDOWN_SECS: i64 = 60;

/// What every detection of a run has in common.
#[derive(Clone, Copy)]
pub struct Settings {
    pub dex1: Address,
    pub dex2: Address,
    pub weth: Address,
    pub usdc: Address,
    pub wmatic: Address,
    pub estimate_from: Address,
    pub trade_size_weth: Real,
    pub slippage_tol: Real,
    pub min_profit_usdc: Real,
    pub fallback_gas_usdc: Real,
    pub test_mode: bool,
    pub test_base: Real,
    pub test_spread: Real,
}

/// Where the quotes of a detection come from.
pub enum Plan {
    Mock(MockRun),
    Live(LiveRun),
}

/// The quotes are made up from the base price and the spread in the settings.
pub struct MockRun {
    pub settings: Settings,
    pub amount_in: Amount,
}

/// The quotes are asked of the two routers.
pub struct LiveRun {
    pub settings: Settings,
    pub amount_in: Amount,
    pub first: QuoteRequest,
    pub second: QuoteRequest,
}

/// Both quotes are known; the two texts are to be read as numbers.
pub struct Quoted {
    pub settings: Settings,
    pub amount_in: Amount,
    pub first_text: String,
    pub second_text: String,
}

/// It is known where to buy and where to sell; the gas of the swap is to be priced.
pub struct Sided {
    pub settings: Settings,
    pub amount_in: Amount,
    pub buy: Dex,
    pub sell: Dex,
    pub buy_out: Real,
    pub sell_out: Real,
    pub buy_router: Address,
}

/// The price of the gas is settled; profits are to be computed, and the row that was logged last
/// is to be read.
pub struct Costed {
    pub sided: Sided,
    pub gas: GasCost,
    pub warning: Option<String>,
}

/// The row that was logged last.
pub struct LastRow {
    /// Its time, as text.
    pub ts: String,
    /// Its net profit.
    pub net: Real,
    /// The net profit above which a new opportunity counts as better. The caller forms it: the
    /// net profit of the row, plus 0.1 USDC, added in double precision.
    pub bar: Real,
}

/// The row that was logged last, its time read. A time that cannot be read holds nothing back.
/// `bar` is that of `LastRow`.
#[derive(Clone, Copy)]
pub struct Previous {
    pub bar: Real,
    pub logged_at: Option<Instant>,
}

/// What a detection comes to.
pub enum Verdict {
    /// Log it.
    Log(Pending),
    /// Profitable, but no better than what was logged a moment ago.
    Suppressed,
    /// Not profitable enough.
    Unprofitable,
}

/// An opportunity that is to be logged.
pub struct Pending {
    pub sided: Sided,
    pub gas: GasCost,
    pub gross: Real,
    pub net: Real,
}

impl Settings {
    /// Starts a detection for a trade of `whole` tokens of WETH and `frac_units` further units.
    pub fn detect_once(self, whole: u128, frac_units: u128) -> (r: Plan)
        ensures
            match r {
                Plan::Mock(run) => {
                    &&& self.test_mode
                    &&& run.settings == self
                    &&& run.amount_in@ == whole * pow10(NATIVE_DECIMALS as nat) + frac_units
                },
                Plan::Live(run) => {
                    &&& !self.test_mode
                    &&& run.settings == self
                    &&& run.amount_in@ == whole * pow10(NATIVE_DECIMALS as nat) + frac_units
                    &&& run.asks(self.dex1, run.first)
                    &&& run.asks(self.dex2, run.second)
                },
            },
            r is Mock <==> self.test_mode,
            r matches Plan::Mock(run) ==> run.settings == self && run.amount_in@ == whole
                * 1_000_000_000_000_000_000 + frac_units,
            r matches Plan::Live(run) ==> {
                &&& run.settings == self
                &&& run.amount_in@ == whole * 1_000_000_000_000_000_000 + frac_units
                &&& run.first.router == self.dex1
                &&& run.first.amount_in@ == whole * 1_000_000_000_000_000_000 + frac_units
                &&& run.first.path@ == seq![self.weth, self.usdc]
                &&& run.first.timeout_ms == 2000
                &&& run.second.router == self.dex2
                &&& run.second.amount_in@ == whole * 1_000_000_000_000_000_000 + frac_units
                &&& run.second.path@ == seq![self.weth, self.usdc]
                &&& run.second.timeout_ms == 2000
            },
    {
        proof {
            law_common_tokens_fit(whole, frac_units, NATIVE_DECIMALS as nat);
            reveal_with_fuel(pow10, 19);
        }
        let amount_in = build_token_u256(whole, frac_units, NATIVE_DECIMALS);
        if self.test_mode {
            Plan::Mock(MockRun { settings: self, amount_in })
        } else {
            Plan::Live(
                LiveRun {
                    settings: self,
                    amount_in,
                    first: QuoteRequest {
                        router: self.dex1,
                        amount_in,
                        path: swap_path(self.weth, self.usdc),
                        timeout_ms: FETCH_TIMEOUT_MS,
                    },
                    second: QuoteRequest {
                        router: self.dex2,
                        amount_in,
                        path: swap_path(self.weth, self.usdc),
                        timeout_ms: FETCH_TIMEOUT_MS,
                    },
                },
            )
        }
    }
}

impl MockRun {
    /// Takes the made-up outputs of the two exchanges, in units of USDC.
    pub fn mocked(self, first_units: u128, second_units: u128) -> (r: Quoted)
        ensures
            r.settings == self.settings,
            r.amount_in == self.amount_in,
            r.tells(first_units as nat, second_units as nat),
            r.first_text@ == fixed_text(first_units as nat, 6),
            r.second_text@ == fixed_text(second_units as nat, 6),
    {
        let r1 = mock_fetch_amounts(first_units);
        let r2 = mock_fetch_amounts(second_units);
        Quoted::from_amounts(self.settings, self.amount_in, &r1, &r2)
    }
}

impl LiveRun {
    /// Whether `request` asks `router` what the trade is worth in USDC.
    pub open spec fn asks(self, router: Address, request: QuoteRequest) -> bool {
        &&& request.router == router
        &&& request.amount_in == self.amount_in
        &&& request.path@ == seq![self.settings.weth, self.settings.usdc]
        &&& request.timeout_ms == FETCH_TIMEOUT_MS
    }

    /// Takes both quotes, or the message of the one that failed first. The second amount of a
    /// quote is what comes out.
    pub fn fetched(self, reply: Result<(Vec<Amount>, Vec<Amount>), String>) -> (r: Result<
        Quoted,
        String,
    >)
        requires
            reply matches Ok((r1, r2)) ==> r1@.len() >= 2 && r2@.len() >= 2,
        ensures
            match reply {
                Ok((r1, r2)) => {
                    &&& r matches Ok(next)
                    &&& next.settings == self.settings
                    &&& next.amount_in == self.amount_in
                    &&& next.tells(r1@[1]@, r2@[1]@)
                },
                Err(m) => r matches Err(e) && e@ == "dual fetch failed: "@ + m@,
            },
            reply matches Ok((r1, r2)) ==> (r matches Ok(next) && next.settings == self.settings
                && next.amount_in == self.amount_in && next.first_text@ == fixed_text(r1@[1]@, 6)
                && next.second_text@ == fixed_text(r2@[1]@, 6)),
    {
        match reply {
            Ok((r1, r2)) => Ok(Quoted::from_amounts(self.settings, self.amount_in, &r1, &r2)),
            Err(m) => Err(joined("dual fetch failed: ", m.as_str())),
        }
    }
}

impl Quoted {
    /// Whether the texts are those of these two outputs, in units of USDC.
    pub open spec fn tells(self, first: nat, second: nat) -> bool {
        &&& self.first_text@ == fixed_text(first, USDC_DECIMALS as nat)
        &&& self.second_text@ == fixed_text(second, USDC_DECIMALS as nat)
    }

    fn from_amounts(
        settings: Settings,
        amount_in: Amount,
        r1: &Vec<Amount>,
        r2: &Vec<Amount>,
    ) -> (r: Quoted)
        requires
            r1@.len() >= 2,
            r2@.len() >= 2,
        ensures
            r.settings == settings,
            r.amount_in == amount_in,
            r.tells(r1@[1]@, r2@[1]@),
            r.first_text@ == fixed_text(r1@[1]@, 6),
            r.second_text@ == fixed_text(r2@[1]@, 6),
    {
        Quoted {
            settings,
            amount_in,
            first_text: u256_to_decimal(r1[1], USDC_DECIMALS),
            second_text: u256_to_decimal(r2[1], USDC_DECIMALS),
        }
    }

    /// Whether `next` is the choice of sides for these outputs: buy where the output is smaller,
    /// and on the second exchange where neither is.
    pub open spec fn chooses(self, out1: Real, out2: Real, next: Sided) -> bool {
        &&& next.settings == self.settings
        &&& next.amount_in == self.amount_in
        &&& if out1.below(out2) {
            &&& next.buy == Dex::First
            &&& next.sell == Dex::Second
            &&& next.buy_out == out1
            &&& next.sell_out == out2
            &&& next.buy_router == self.settings.dex1
        } else {
            &&& next.buy == Dex::Second
            &&& next.sell == Dex::First
            &&& next.buy_out == out2
            &&& next.sell_out == out1
            &&& next.buy_router == self.settings.dex2
        }
    }

    /// Takes the two outputs, as the numbers that the texts are read as, and chooses sides.
    pub fn sided(self, out1: Real, out2: Real) -> (r: Sided)
        ensures
            self.chooses(out1, out2, r),
            r.settings == self.settings,
            r.amount_in == self.amount_in,
            r.buy is First <==> out1.below(out2),
            r.sell is First <==> !out1.below(out2),
            r.buy is First ==> r.buy_out == out1 && r.sell_out == out2 && r.buy_router
                == self.settings.dex1,
            r.buy is Second ==> r.buy_out == out2 && r.sell_out == out1 && r.buy_router
                == self.settings.dex2,
    {
        if out1.is_below(&out2) {
            Sided {
                settings: self.settings,
                amount_in: self.amount_in,
                buy: Dex::First,
                sell: Dex::Second,
                buy_out: out1,
                sell_out: out2,
                buy_router: self.settings.dex1,
            }
        } else {
            Sided {
                settings: self.settings,
                amount_in: self.amount_in,
                buy: Dex::Second,
                sell: Dex::First,
                buy_out: out2,
                sell_out: out1,
                buy_router: self.settings.dex2,
            }
        }
    }
}

impl Sided {
    /// The swap whose gas is to be priced: on the side to buy on.
    pub fn gas_job(&self) -> (r: GasJob)
        ensures
            r.router == self.buy_router,
            r.amount_in == self.amount_in,
            r.weth == self.settings.weth,
            r.usdc == self.settings.usdc,
            r.wmatic == self.settings.wmatic,
            r.from == self.settings.estimate_from,
    {
        GasJob {
            router: self.buy_router,
            amount_in: self.amount_in,
            weth: self.settings.weth,
            usdc: self.settings.usdc,
            wmatic: self.settings.wmatic,
            from: self.settings.estimate_from,
        }
    }

    /// Whether `next` is charged what the gas costs, or the fallback where no cost is known.
    pub open spec fn charges(self, gas: Result<GasCost, String>, next: Costed) -> bool {
        &&& next.sided == self
        &&& match gas {
            Ok(cost) => next.gas == cost && next.warning is None,
            Err(m) => {
                &&& next.gas.usdc == self.settings.fallback_gas_usdc
                &&& next.gas.gas is None
                &&& next.warning matches Some(w)
                &&& w@ == "Gas estimate failed (falling back): "@ + m@
            },
        }
    }

    /// Takes the cost of the gas, or the message of the failed estimate.
    pub fn costed(self, gas: Result<GasCost, String>) -> (r: Costed)
        ensures
            self.charges(gas, r),
            r.sided == self,
            gas matches Ok(cost) ==> r.gas == cost && r.warning is None,
            gas matches Err(m) ==> r.gas.usdc == self.settings.fallback_gas_usdc && r.gas.gas
                is None && (r.warning matches Some(w) && w@
                == "Gas estimate failed (falling back): "@ + m@),
    {
        match gas {
            Ok(cost) => Costed { sided: self, gas: cost, warning: None },
            Err(m) => {
                let fallback = GasCost { usdc: self.settings.fallback_gas_usdc, gas: None };
                let warning = joined("Gas estimate failed (falling back): ", m.as_str());
                Costed { sided: self, gas: fallback, warning: Some(warning) }
            },
        }
    }
}

/// Whether an opportunity of net profit `net` is held back by what was logged before: it is no
/// better, and the cooldown is not over.
pub open spec fn held_back(net: Real, previous: Option<Previous>, now: Instant) -> bool {
    &&& previous matches Some(p)
    &&& p.logged_at matches Some(then)
    &&& !p.bar.below(net)
    &&& seconds_between(now, then) <= COOLDOWN_SECS
}

impl LastRow {
    /// What repeats the row is no better than the row.
    pub open spec fn well_formed(self) -> bool {
        !self.bar.below(self.net)
    }

    /// The row with this time, net profit and bar.
    pub fn new(ts: String, net: Real, bar: Real) -> (r: LastRow)
        requires
            !bar.below(net),
        ensures
            r.well_formed(),
            r.ts@ == ts@,
            r.net == net,
            r.bar == bar,
    {
        LastRow { ts, net, bar }
    }
}

/// What the row that was logged last amounts to once its time is read.
pub open spec fn previous_of(last: Option<LastRow>) -> Option<Previous> {
    match last {
        Some(row) => Some(
            Previous {
                bar: row.bar,
                logged_at: match rfc3339_instant(row.ts@) {
                    Some((secs, nanos)) => Some(Instant { secs, nanos }),
                    None => None,
                },
            },
        ),
        None => None,
    }
}

/// Whether an opportunity of net profit `net` is not held back by what was logged before.
pub fn should_log(net: Real, previous: Option<Previous>, now: Instant) -> (r: bool)
    requires
        now.in_range(),
        previous matches Some(p) ==> (p.logged_at matches Some(then) ==> then.in_range()),
    ensures
        r <==> !held_back(net, previous, now),
        r <==> (match previous {
            Some(p) => match p.logged_at {
                Some(then) => p.bar.below(net) || seconds_between(now, then) > 60,
                None => true,
            },
            None => true,
        }),
{
    match previous {
        Some(p) => match p.logged_at {
            Some(then) => {
                let secs: i64 = chrono_seconds_between(now, then);
                p.bar.is_below(&net) || secs > COOLDOWN_SECS
            },
            None => true,
        },
        None => true,
    }
}

impl Costed {
    /// Whether `verdict` is what the profits come to.
    pub open spec fn comes_to(
        self,
        gross: Real,
        net: Real,
        previous: Option<Previous>,
        now: Instant,
        verdict: Verdict,
    ) -> bool {
        let profitable = self.sided.settings.min_profit_usdc.at_most(net);
        match verdict {
            Verdict::Log(p) => {
                &&& profitable
                &&& !held_back(net, previous, now)
                &&& p.sided == self.sided
                &&& p.gas == self.gas
                &&& p.gross == gross
                &&& p.net == net
            },
            Verdict::Suppressed => profitable && held_back(net, previous, now),
            Verdict::Unprofitable => !profitable,
        }
    }

    /// Takes the profits, and the row that was logged last with its time read.
    pub fn judged_against(
        self,
        gross: Real,
        net: Real,
        previous: Option<Previous>,
        now: Instant,
    ) -> (r: Verdict)
        requires
            now.in_range(),
            previous matches Some(p) ==> (p.logged_at matches Some(then) ==> then.in_range()),
        ensures
            self.comes_to(gross, net, previous, now, r),
            r is Unprofitable <==> !self.sided.settings.min_profit_usdc.at_most(net),
            r is Log <==> self.sided.settings.min_profit_usdc.at_most(net) && (match previous {
                Some(p) => match p.logged_at {
                    Some(then) => p.bar.below(net) || seconds_between(now, then) > 60,
                    None => true,
                },
                None => true,
            }),
            r matches Verdict::Log(p) ==> p.sided == self.sided && p.gas == self.gas && p.gross
                == gross && p.net == net,
    {
        let log: bool = should_log(net, previous, now);
        if self.sided.settings.min_profit_usdc.is_at_most(&net) {
            if log {
                Verdict::Log(Pending { sided: self.sided, gas: self.gas, gross, net })
            } else {
                Verdict::Suppressed
            }
        } else {
            Verdict::Unprofitable
        }
    }

    /// Takes the profits, and the row that was logged last, where there is one.
    pub fn judged(self, gross: Real, net: Real, last: Option<LastRow>, now: Instant) -> (r: Verdict)
        requires
            now.in_range(),
        ensures
            self.comes_to(gross, net, previous_of(last), now, r),
            r is Unprofitable <==> !self.sided.settings.min_profit_usdc.at_most(net),
            r is Log <==> self.sided.settings.min_profit_usdc.at_most(net) && (match last {
                Some(row) => match rfc3339_instant(row.ts@) {
                    Some((secs, nanos)) => row.bar.below(net) || seconds_between(
                        now,
                        Instant { secs, nanos },
                    ) > 60,
                    None => true,
                },
                None => true,
            }),
            r matches Verdict::Log(p) ==> p.sided == self.sided && p.gas == self.gas && p.gross
                == gross && p.net == net,
    {
        let previous = match last {
            Some(row) => Some(
                Previous { bar: row.bar, logged_at: chrono_parse_rfc3339(row.ts.as_str()) },
            ),
            None => None,
        };
        assert(previous == previous_of(last));
        self.judged_against(gross, net, previous, now)
    }
}

impl Pending {
    /// Whether `o` is the record of the opportunity, made at `now`.
    pub open spec fn is_recorded_by(self, now: Instant, o: Opportunity) -> bool {
        &&& o.ts@ == rfc3339_text(now.secs, now.nanos)
        &&& o.dex_buy == self.sided.buy
        &&& o.price_buy == self.sided.buy_out
        &&& o.dex_sell == self.sided.sell
        &&& o.price_sell == self.sided.sell_out
        &&& o.trade_size_weth == self.sided.settings.trade_size_weth
        &&& o.gross == self.gross
        &&& o.gas_usdc == self.gas.usdc
        &&& o.net == self.net
        &&& o.tx_gas == self.gas.gas
        &&& o.notes matches Some(notes)
        &&& notes@ == gas_note(self.gas.gas)
    }

    /// The record of the opportunity, made at `now`.
    pub fn recorded(self, now: Instant) -> (r: Opportunity)
        requires
            now.in_range(),
        ensures
            self.is_recorded_by(now, r),
            r.ts@ == rfc3339_text(now.secs, now.nanos),
            r.dex_buy == self.sided.buy,
            r.price_buy == self.sided.buy_out,
            r.dex_sell == self.sided.sell,
            r.price_sell == self.sided.sell_out,
            r.trade_size_weth == self.sided.settings.trade_size_weth,
            r.gross == self.gross,
            r.gas_usdc == self.gas.usdc,
            r.net == self.net,
            r.tx_gas == self.gas.gas,
            r.notes matches Some(notes) && notes@ == gas_note(self.gas.gas),
            YEAR_0 <= now.secs <= YEAR_9999_END ==> rfc3339_instant(r.ts@) == Some(
                (now.secs, now.nanos),
            ),
    {
        Opportunity {
            ts: chrono_to_rfc3339(now),
            dex_buy: self.sided.buy,
            price_buy: self.sided.buy_out,
            dex_sell: self.sided.sell,
            price_sell: self.sided.sell_out,
            trade_size_weth: self.sided.settings.trade_size_weth,
            gross: self.gross,
            gas_usdc: self.gas.usdc,
            net: self.net,
            tx_gas: self.gas.gas,
            notes: Some(gas_notes(self.gas.gas)),
        }
    }
}

/// The two sides of a trade are the two exchanges, each with its own output, and where both
/// outputs are numbers nothing is bought for more than it is sold for.
pub proof fn law_buy_is_the_cheaper_side(q: Quoted, out1: Real, out2: Real, s: Sided)
    requires
        q.chooses(out1, out2, s),
    ensures
        s.buy != s.sell,
        s.buy == Dex::First ==> s.buy_out == out1 && s.sell_out == out2 && s.buy_router
            == q.settings.dex1,
        s.buy == Dex::Second ==> s.buy_out == out2 && s.sell_out == out1 && s.buy_router
            == q.settings.dex2,
        !out1.is_nan() && !out2.is_nan() ==> s.buy_out.at_most(s.sell_out),
{
}

/// Every record tells its detection truly: the sides that were chosen, the gas that was charged,
/// the profits that were computed, and a net profit of at least the minimum.
pub proof fn law_record_tells_the_detection(
    q: Quoted,
    out1: Real,
    out2: Real,
    s: Sided,
    gas: Result<GasCost, String>,
    c: Costed,
    gross: Real,
    net: Real,
    last: Option<LastRow>,
    now: Instant,
    p: Pending,
    at: Instant,
    o: Opportunity,
)
    requires
        q.chooses(out1, out2, s),
        s.charges(gas, c),
        c.comes_to(gross, net, previous_of(last), now, Verdict::Log(p)),
        p.is_recorded_by(at, o),
    ensures
        o.dex_buy != o.dex_sell,
        o.dex_buy == Dex::First <==> out1.below(out2),
        o.dex_buy == Dex::First ==> o.price_buy == out1 && o.price_sell == out2,
        o.dex_buy == Dex::Second ==> o.price_buy == out2 && o.price_sell == out1,
        o.trade_size_weth == q.settings.trade_size_weth,
        o.gross == gross,
        o.net == net,
        q.settings.min_profit_usdc.at_most(o.net),
        match gas {
            Ok(cost) => o.gas_usdc == cost.usdc && o.tx_gas == cost.gas,
            Err(_) => o.gas_usdc == q.settings.fallback_gas_usdc && o.tx_gas is None,
        },
        o.notes matches Some(notes) && notes@ == gas_note(o.tx_gas),
{
}

/// A detection comes to exactly one of the three verdicts.
pub proof fn law_verdict_is_determined(
    c: Costed,
    gross: Real,
    net: Real,
    previous: Option<Previous>,
    now: Instant,
    a: Verdict,
    b: Verdict,
)
    requires
        c.comes_to(gross, net, previous, now, a),
        c.comes_to(gross, net, previous, now, b),
    ensures
        a == b,
{
}

/// With nothing logged before, or with a last row whose time cannot be read, what is profitable
/// is logged.
pub proof fn law_nothing_before_holds_nothing_back(
    c: Costed,
    gross: Real,
    net: Real,
    last: Option<LastRow>,
    now: Instant,
    verdict: Verdict,
)
    requires
        last matches Some(row) ==> rfc3339_instant(row.ts@) is None,
        c.comes_to(gross, net, previous_of(last), now, verdict),
    ensures
        verdict is Log <==> c.sided.settings.min_profit_usdc.at_most(net),
        verdict !is Suppressed,
{
}

/// A better opportunity is never held back.
pub proof fn law_better_is_never_held_back(
    c: Costed,
    gross: Real,
    net: Real,
    last: LastRow,
    now: Instant,
    verdict: Verdict,
)
    requires
        last.bar.below(net),
        c.comes_to(gross, net, previous_of(Some(last)), now, verdict),
    ensures
        verdict is Log <==> c.sided.settings.min_profit_usdc.at_most(net),
        verdict !is Suppressed,
{
}

/// A logged opportunity starts a cooldown: read back from its row, it holds back what is no
/// better until the cooldown and one second have gone by, and no longer.
pub proof fn law_logged_row_starts_a_cooldown(
    p: Pending,
    logged_at: Instant,
    o: Opportunity,
    last: LastRow,
    net: Real,
    now: Instant,
)
    requires
        p.is_recorded_by(logged_at, o),
        rfc3339_instant(o.ts@) == Some((logged_at.secs, logged_at.nanos)),
        last.ts@ == o.ts@,
        !last.bar.below(net),
    ensures
        held_back(net, previous_of(Some(last)), now) <==> nanos_between(now, logged_at) < (
        COOLDOWN_SECS + 1) * NANOS,
{
    law_seconds_are_cut(now, logged_at, COOLDOWN_SECS as nat);
}

/// A detection that repeats one whose opportunity was logged, no later than the cooldown allows
/// and with nothing logged in between, logs nothing: it comes to `Suppressed`.
pub proof fn law_repeat_within_the_cooldown_is_suppressed(
    c: Costed,
    gross: Real,
    net: Real,
    previous: Option<Previous>,
    judged_at: Instant,
    p: Pending,
    logged_at: Instant,
    o: Opportunity,
    last: LastRow,
    again: Costed,
    now: Instant,
    verdict: Verdict,
)
    requires
        c.comes_to(gross, net, previous, judged_at, Verdict::Log(p)),
        p.is_recorded_by(logged_at, o),
        rfc3339_instant(o.ts@) == Some((logged_at.secs, logged_at.nanos)),
        last.ts@ == o.ts@,
        last.well_formed(),
        last.net == o.net,
        again.sided.settings == c.sided.settings,
        seconds_between(now, logged_at) <= COOLDOWN_SECS,
        again.comes_to(gross, net, previous_of(Some(last)), now, verdict),
    ensures
        verdict is Suppressed,
{
}

impl Settings {
    /// Whether `other` is the same but for the spread of test runs.
    pub open spec fn same_but_spread(self, other: Settings) -> bool {
        other == (Settings { test_spread: other.test_spread, ..self })
    }
}

/// Where the outputs of the two exchanges are exchanged, so are the texts.
pub proof fn law_exchanged_outputs_exchange_texts(q: Quoted, r: Quoted, first: nat, second: nat)
    requires
        q.tells(first, second),
        r.tells(second, first),
    ensures
        q.first_text@ == r.second_text@,
        q.second_text@ == r.first_text@,
{
}

/// Exchanging two different outputs exchanges the sides and nothing else: one exchange takes the
/// place of the other, at the same prices, and with the same gas, profits and last row the two
/// detections come to the same kind of verdict. In test mode, so does turning the spread round.
pub proof fn law_exchanged_outputs_exchange_sides(
    q: Quoted,
    r: Quoted,
    out1: Real,
    out2: Real,
    s: Sided,
    t: Sided,
    gas: Result<GasCost, String>,
    c: Costed,
    d: Costed,
    gross: Real,
    net: Real,
    previous: Option<Previous>,
    now: Instant,
    v: Verdict,
    w: Verdict,
)
    requires
        q.settings.same_but_spread(r.settings),
        out1.below(out2) || out2.below(out1),
        q.chooses(out1, out2, s),
        r.chooses(out2, out1, t),
        s.charges(gas, c),
        t.charges(gas, d),
        c.comes_to(gross, net, previous, now, v),
        d.comes_to(gross, net, previous, now, w),
    ensures
        s.buy == t.sell,
        s.sell == t.buy,
        s.buy == (if out1.below(out2) {
            Dex::First
        } else {
            Dex::Second
        }),
        s.buy_out == t.buy_out,
        s.sell_out == t.sell_out,
        c.gas == d.gas,
        v is Log <==> w is Log,
        v is Suppressed <==> w is Suppressed,
        v is Unprofitable <==> w is Unprofitable,
{
}

/// Exchanging two different outputs exchanges the names of the exchanges in the record and
/// leaves the rest of it as it is.
pub proof fn law_exchanged_outputs_are_recorded_alike(
    q: Quoted,
    r: Quoted,
    out1: Real,
    out2: Real,
    s: Sided,
    t: Sided,
    gas: Result<GasCost, String>,
    c: Costed,
    d: Costed,
    gross: Real,
    net: Real,
    previous: Option<Previous>,
    now: Instant,
    p: Pending,
    x: Pending,
    at: Instant,
    o: Opportunity,
    y: Opportunity,
)
    requires
        q.settings.same_but_spread(r.settings),
        out1.below(out2) || out2.below(out1),
        q.chooses(out1, out2, s),
        r.chooses(out2, out1, t),
        s.charges(gas, c),
        t.charges(gas, d),
        c.comes_to(gross, net, previous, now, Verdict::Log(p)),
        d.comes_to(gross, net, previous, now, Verdict::Log(x)),
        p.is_recorded_by(at, o),
        x.is_recorded_by(at, y),
    ensures
        o.dex_buy == y.dex_sell,
        o.dex_sell == y.dex_buy,
        o.dex_buy != o.dex_sell,
        o.ts@ == y.ts@,
        o.price_buy == y.price_buy,
        o.price_sell == y.price_sell,
        o.trade_size_weth == y.trade_size_weth,
        o.gross == y.gross,
        o.gas_usdc == y.gas_usdc,
        o.net == y.net,
        o.tx_gas == y.tx_gas,
        o.notes matches Some(a) && (y.notes matches Some(b) && a@ == b@),
{
}

/// A request asks for the trade exactly where it goes to the router, hands in the whole amount,
/// takes the path from WETH to USDC, in that direction, and allows two seconds.
pub proof fn law_requests_ask_for_the_trade(run: LiveRun, router: Address, request: QuoteRequest)
    ensures
        run.asks(router, request) <==> {
            &&& request.router == router
            &&& request.amount_in == run.amount_in
            &&& request.path@.len() == 2
            &&& request.path@[0] == run.settings.weth
            &&& request.path@[1] == run.settings.usdc
            &&& request.timeout_ms == 2000
        },
{
    if request.path@.len() == 2 && request.path@[0] == run.settings.weth && request.path@[1]
        == run.settings.usdc {
        assert(request.path@ =~= seq![run.settings.weth, run.settings.usdc]);
    }
}

/// Both exchanges are asked the same question, whatever the amount: two requests of a run differ
/// in the router alone. Of two runs with the same tokens, the path is the same and the amount
/// handed in is that of the run.
pub proof fn law_both_exchanges_are_asked_the_same(
    run: LiveRun,
    r1: Address,
    first: QuoteRequest,
    r2: Address,
    second: QuoteRequest,
    other: LiveRun,
    third: QuoteRequest,
)
    requires
        run.asks(r1, first),
        run.asks(r2, second),
        other.asks(r1, third),
        other.settings.weth == run.settings.weth,
        other.settings.usdc == run.settings.usdc,
    ensures
        first.router == r1,
        second.router == r2,
        first.amount_in == second.amount_in,
        first.path@ == second.path@,
        first.timeout_ms == second.timeout_ms,
        third.router == first.router,
        third.path@ == first.path@,
        third.timeout_ms == first.timeout_ms,
        third.amount_in == first.amount_in <==> other.amount_in == run.amount_in,
{
}

/// The texts of two quotes tell their outputs: six decimals each, the first exchange first. No
/// other outputs have the same texts.
pub proof fn law_texts_tell_the_outputs(q: Quoted, a: nat, b: nat, c: nat, d: nat)
    requires
        q.tells(a, b),
    ensures
        q.first_text@ == fixed_text(a, 6),
        q.second_text@ == fixed_text(b, 6),
        q.tells(c, d) <==> a == c && b == d,
{
    if q.tells(c, d) {
        law_texts_are_unambiguous(a, c, 6);
        law_texts_are_unambiguous(b, d, 6);
    }
}

/// The sides, told by the outputs: the trade buys on the first exchange exactly where its output
/// is below the other's and sells on the other, each side at the output of its own exchange. The
/// settings and the amount are handed on.
pub proof fn law_sides_are_told_by_the_outputs(q: Quoted, out1: Real, out2: Real, s: Sided)
    requires
        q.chooses(out1, out2, s),
    ensures
        s.buy is First <==> out1.below(out2),
        s.sell is Second <==> out1.below(out2),
        s.buy_out == (if s.buy is First {
            out1
        } else {
            out2
        }),
        s.sell_out == (if s.sell is First {
            out1
        } else {
            out2
        }),
        s.buy_router == (if s.buy is First {
            q.settings.dex1
        } else {
            q.settings.dex2
        }),
        s.settings == q.settings,
        s.amount_in == q.amount_in,
{
}

/// Gas is charged as it was priced, to the last digit, and without a price as the settings say;
/// only then is there a warning, which ends in the message of the failure.
pub proof fn law_gas_is_charged_as_priced(s: Sided, gas: Result<GasCost, String>, c: Costed)
    requires
        s.charges(gas, c),
    ensures
        c.sided == s,
        c.warning is None <==> gas is Ok,
        gas matches Ok(cost) ==> c.gas.usdc == cost.usdc && c.gas.gas == cost.gas,
        gas is Err ==> c.gas.usdc == s.settings.fallback_gas_usdc && c.gas.gas is None,
        gas matches Err(m) ==> (c.warning matches Some(w) && w@
            == "Gas estimate failed (falling back): "@ + m@),
{
}

/// The rule of logging. What is below the minimum profit is unprofitable. Anything else is logged
/// where nothing was logged before, where the time of the last row cannot be read, where the
/// profit is above the bar, or where more than sixty seconds have gone by; and it is suppressed
/// in all other cases.
pub proof fn law_the_rule_of_logging(
    c: Costed,
    gross: Real,
    net: Real,
    last: Option<LastRow>,
    now: Instant,
    verdict: Verdict,
)
    requires
        c.comes_to(gross, net, previous_of(last), now, verdict),
    ensures
        ({
            let profitable = c.sided.settings.min_profit_usdc.at_most(net);
            let free = match last {
                Some(row) => match rfc3339_instant(row.ts@) {
                    Some((secs, nanos)) => row.bar.below(net) || seconds_between(
                        now,
                        Instant { secs, nanos },
                    ) > 60,
                    None => true,
                },
                None => true,
            };
            &&& verdict is Unprofitable <==> !profitable
            &&& verdict is Log <==> profitable && free
            &&& verdict is Suppressed <==> profitable && !free
        }),
        verdict matches Verdict::Log(p) ==> p.sided == c.sided && p.gas == c.gas && p.gross
            == gross && p.net == net,
{
}

/// Once more than sixty seconds have gone by since the last row, what is profitable is logged,
/// whether it is better or not and however long ago the row was logged.
pub proof fn law_cooldown_comes_to_an_end(
    c: Costed,
    gross: Real,
    net: Real,
    last: LastRow,
    then: Instant,
    now: Instant,
    verdict: Verdict,
)
    requires
        rfc3339_instant(last.ts@) == Some((then.secs, then.nanos)),
        seconds_between(now, then) > 60,
        c.sided.settings.min_profit_usdc.at_most(net),
        c.comes_to(gross, net, previous_of(Some(last)), now, verdict),
    ensures
        verdict is Log,
{
}

/// The end of the cooldown on the clock: between moments outside leap seconds, what is no better
/// is held back until sixty-one seconds have gone by, to the nanosecond, and never after that.
pub proof fn law_cooldown_on_the_clock(
    c: Costed,
    gross: Real,
    net: Real,
    last: LastRow,
    then: Instant,
    now: Instant,
    verdict: Verdict,
)
    requires
        then.nanos < 1_000_000_000,
        now.nanos < 1_000_000_000,
        rfc3339_instant(last.ts@) == Some((then.secs, then.nanos)),
        !last.bar.below(net),
        c.sided.settings.min_profit_usdc.at_most(net),
        c.comes_to(gross, net, previous_of(Some(last)), now, verdict),
    ensures
        verdict is Log <==> (now.secs - then.secs) * 1_000_000_000 + (now.nanos - then.nanos)
            >= 61_000_000_000,
        verdict is Suppressed <==> (now.secs - then.secs) * 1_000_000_000 + (now.nanos
            - then.nanos) < 61_000_000_000,
{
    law_whole_seconds(now, then);
}

/// Waiting never turns a logged opportunity into a suppressed one.
pub proof fn law_waiting_never_suppresses(
    c: Costed,
    gross: Real,
    net: Real,
    last: LastRow,
    then: Instant,
    now: Instant,
    later: Instant,
    v: Verdict,
    w: Verdict,
)
    requires
        rfc3339_instant(last.ts@) == Some((then.secs, then.nanos)),
        seconds_between(now, then) <= seconds_between(later, then),
        c.comes_to(gross, net, previous_of(Some(last)), now, v),
        c.comes_to(gross, net, previous_of(Some(last)), later, w),
    ensures
        v is Log ==> w is Log,
        v is Unprofitable <==> w is Unprofitable,
{
}

/// A larger profit is logged wherever a smaller one is, and is unprofitable only where the
/// smaller one is.
pub proof fn law_more_profit_is_logged_as_well(
    c: Costed,
    gross: Real,
    net: Real,
    more: Real,
    previous: Option<Previous>,
    now: Instant,
    v: Verdict,
    w: Verdict,
)
    requires
        net.at_most(more),
        c.comes_to(gross, net, previous, now, v),
        c.comes_to(gross, more, previous, now, w),
    ensures
        v is Log ==> w is Log,
        w is Unprofitable ==> v is Unprofitable,
{
    lemma_bounds_carry_over(c.sided.settings.min_profit_usdc, net, more);
    if let Some(p) = previous {
        lemma_bounds_carry_over(p.bar, net, more);
    }
}

/// The verdict rests on the net profit alone: gross profit, prices, sides and gas change nothing
/// about it.
pub proof fn law_verdict_rests_on_the_net_profit(
    c: Costed,
    d: Costed,
    gross: Real,
    other: Real,
    net: Real,
    previous: Option<Previous>,
    now: Instant,
    v: Verdict,
    w: Verdict,
)
    requires
        c.sided.settings.min_profit_usdc == d.sided.settings.min_profit_usdc,
        c.comes_to(gross, net, previous, now, v),
        d.comes_to(other, net, previous, now, w),
    ensures
        v is Log <==> w is Log,
        v is Suppressed <==> w is Suppressed,
        v is Unprofitable <==> w is Unprofitable,
{
}

/// What is at most, or below, a number is so of every larger one.
proof fn lemma_bounds_carry_over(bound: Real, net: Real, more: Real)
    requires
        net.at_most(more),
    ensures
        bound.at_most(net) ==> bound.at_most(more),
        bound.below(net) ==> bound.below(more),
{
}

/// The bar of a well-formed row is not below its own net profit.
pub proof fn law_a_row_is_no_better_than_itself(row: LastRow)
    ensures
        row.well_formed() <==> !row.bar.below(row.net),
{
}

/// What an opportunity comes to in the database: the row of its record holds, column by column,
/// the time, the two sides with their prices, the size of the trade, the gross profit, the cost
/// of the gas, the net profit, the gas where it is known, and the note on it. The three amounts
/// of money are those of the detection, whether the gas is known or not.
pub proof fn law_row_tells_the_opportunity(p: Pending, at: Instant, o: Opportunity)
    requires
        p.is_recorded_by(at, o),
    ensures
        o.spec_row().len() == 11,
        o.spec_row()[0] == SqlValueView::Text(rfc3339_text(at.secs, at.nanos)),
        o.spec_row()[1] == SqlValueView::Text(
            if p.sided.buy is First {
                "DEX1"@
            } else {
                "DEX2"@
            },
        ),
        o.spec_row()[2] == SqlValueView::Number(p.sided.buy_out),
        o.spec_row()[3] == SqlValueView::Text(
            if p.sided.sell is First {
                "DEX1"@
            } else {
                "DEX2"@
            },
        ),
        o.spec_row()[4] == SqlValueView::Number(p.sided.sell_out),
        o.spec_row()[5] == SqlValueView::Number(p.sided.settings.trade_size_weth),
        o.spec_row()[6] == SqlValueView::Number(p.gross),
        o.spec_row()[7] == SqlValueView::Number(p.gas.usdc),
        o.spec_row()[8] == SqlValueView::Number(p.net),
        p.gas.gas matches Some(g) ==> o.spec_row()[9] == SqlValueView::Count(g),
        p.gas.gas is None ==> o.spec_row()[9] is Null,
        o.spec_row()[10] == SqlValueView::Text(gas_note(p.gas.gas)),
{
    law_row_gives_the_fields_back(o);
}

/// A row that was logged without a price for its gas holds the fallback cost and no gas; what it
/// holds as gross and net profit is still what was computed.
pub proof fn law_fallback_rows_keep_their_profits(
    s: Sided,
    message: String,
    c: Costed,
    gross: Real,
    net: Real,
    previous: Option<Previous>,
    now: Instant,
    p: Pending,
    at: Instant,
    o: Opportunity,
)
    requires
        s.charges(Err(message), c),
        c.comes_to(gross, net, previous, now, Verdict::Log(p)),
        p.is_recorded_by(at, o),
    ensures
        o.spec_row()[6] == SqlValueView::Number(gross),
        o.spec_row()[7] == SqlValueView::Number(s.settings.fallback_gas_usdc),
        o.spec_row()[8] == SqlValueView::Number(net),
        o.spec_row()[9] is Null,
{
    law_row_tells_the_opportunity(p, at, o);
}

} // verus!
