//! Accounting and incentive core of a token-trading protocol.
//!
//! The library holds the state-transition rules: recording trades, rolling
//! reward windows, tiered staking discounts, governance-gated fee updates, a
//! per-trader leaderboard, and collateralized loans against staked balances.
//! Every transition uses checked arithmetic and is atomic: it either applies
//! all of its record updates or, on a typed failure, leaves every record
//! unchanged. Caller identity, record storage, and the wall clock are external
//! collaborators; transitions receive identities and timestamps as plain
//! values.

pub mod errors;
pub mod fees;
pub mod lending;
pub mod liquidity;
pub mod rewards;
pub mod state;
pub mod tiers;
pub mod trade;
