use vstd::prelude::*;

verus! {

/// A typed failure of one transition. Every failure aborts the whole
/// transition: no record it touches is changed.
#[derive(Clone, Copy, Debug, PartialEq, Eq, Structural)]
pub enum CustomError {
    /// A proposed fee rate lies outside the governance bounds of 500 to 5000.
    InvalidFeeRate,
    /// The governance vote count is below the required threshold.
    InsufficientVotes,
    /// A non-positive delay was supplied for order batching.
    InvalidDelay,
    /// Cumulative trading volume is below the reward-claim threshold.
    InsufficientLiquidityForRewards,
    /// The counterparty of a trade equals the caller's own identity.
    WashTradingAttempt,
    /// The cooldown between reward claims has not elapsed.
    MinimumHoldingPeriodNotMet,
    /// The staked balance is below 150% of the requested borrow amount.
    InsufficientCollateral,
    /// A checked arithmetic step would leave the representable range.
    ArithmeticOverflow,
}

} // verus!
