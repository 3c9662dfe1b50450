//! Detection of arbitrage opportunities between two exchanges that trade the same pair.
//!
//! The library holds the decisions of the detector: how amounts are written and built, how a
//! swap's gas is priced, where to buy and where to sell, what is logged and what is held back,
//! and when the detector stops. Talking to the node, to the database and to the clock is left to
//! the caller, and so is the arithmetic on double-precision numbers: reading texts as numbers,
//! splitting numbers into token units, the profits after slippage and gas, and the threshold
//! above which an opportunity is better than the one that was logged last.

pub mod address;
pub mod amount;
pub mod clock;
pub mod config;
pub mod detect;
pub mod digits;
pub mod format;
pub mod gas;
pub mod number;
pub mod quote;
pub mod record;
pub mod schedule;
mod text;
