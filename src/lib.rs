//! Time-weighted token accounting behind an algorithmic reserve currency.
//!
//! - `relp`: the share-token ledger (balances, locks, allowances), which settles
//!   both accumulators before every change of a balance;
//! - `coinday`: the coin-day accumulator and its append-only award log, claimed
//!   in bounded windows;
//! - `reward`: the reward distributor, with its day-decaying emission;
//! - `stable`: the reserve rebase controller (liquidity, expansion, contraction);
//! - `oracle`: the price feed that the controller reads;
//! - `balances`: the balance store, whose sum is the total supply.
//!
//! Amounts are unsigned integers at a fixed decimal scale; every division
//! rounds down. Time is a non-decreasing clock in milliseconds that callers
//! pass in, with the identity of the caller.

use vstd::prelude::*;

pub mod balances;
pub mod coinday;
pub mod error;
pub mod oracle;
pub mod relp;
pub mod reward;
pub mod stable;

verus! {

/// Opaque account identifier: the key into every per-account mapping.
pub type AccountId = u64;

} // verus!
