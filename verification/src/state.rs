use vstd::prelude::*;

verus! {

/// Number of reward samples that fill one rolling window.
pub const REWARD_WINDOW: u64 = 50;

/// An identity as the external layer supplies it: a 32-byte account key,
/// held as two plain halves so that transitions can compare identities.
#[derive(Clone, Copy, Debug, PartialEq, Eq, Structural)]
pub struct AccountId {
    pub hi: u128,
    pub lo: u128,
}

/// The protocol's global accounting record: a singleton created once at
/// initialization and mutated by every trade- and fee-affecting transition.
#[derive(Clone, Copy, Debug, PartialEq, Eq, Structural)]
pub struct State {
    pub total_trades: u64,
    pub total_liquidity: u64,
    pub fee_rate: u64,
    pub last_fee_update: i64,
    pub treasury: AccountId,
    pub reward_sum: u64,
    pub reward_count: u64,
    pub global_reward_multiplier: u64,
}

impl State {
    /// At rest the rolling reward window is strictly inside its bound:
    /// reaching the bound resets the window within the same transition.
    pub open spec fn wf(self) -> bool {
        self.reward_count < REWARD_WINDOW
    }
}

/// Per-user accounting record, keyed by the owner's identity.
#[derive(Clone, Copy, Debug, PartialEq, Eq, Structural)]
pub struct UserState {
    pub owner: AccountId,
    pub staked_amount: u64,
    pub accrued_rewards: u64,
    pub reward_multiplier: u64,
    pub trade_count: u64,
    pub cumulative_volume: u64,
    pub fee_discount: u64,
    pub lockup_end: i64,
    pub is_institutional: bool,
    pub last_claim_time: i64,
    pub trading_rebate: u64,
}

/// Immutable log entry created once per recorded trade.
#[derive(Clone, Debug, PartialEq, Eq)]
pub struct TradeRecord {
    pub user: AccountId,
    pub trade_amount: u64,
    pub trade_timestamp: i64,
    pub trade_pair: String,
    pub execution_delay: i64,
    pub slippage: u64,
    pub liquidity_provided: u64,
}

/// Liquidity-provider record, keyed by the owner's identity.
#[derive(Clone, Copy, Debug, PartialEq, Eq, Structural)]
pub struct LPState {
    pub owner: AccountId,
    pub total_deposit: u64,
    pub last_deposit: i64,
}

/// Governance tally that gates fee-structure updates.
#[derive(Clone, Copy, Debug, PartialEq, Eq, Structural)]
pub struct GovernanceVote {
    pub vote_count: u64,
    pub required_votes: u64,
}

/// Per-trader volume and frequency aggregates.
#[derive(Clone, Copy, Debug, PartialEq, Eq, Structural)]
pub struct TraderLeaderboard {
    pub user: AccountId,
    pub trade_volume: u64,
    pub trade_count: u64,
    pub last_update: i64,
}

/// Immutable loan record created once per borrow event.
#[derive(Clone, Copy, Debug, PartialEq, Eq, Structural)]
pub struct LoanAccount {
    pub borrower: AccountId,
    pub collateral: u64,
    pub borrow_amount: u64,
    pub interest_rate: u64,
    pub start_time: i64,
    pub due_time: i64,
}

/// Creates the global state with its initial fee and reward settings.
pub fn initialize(now: i64, treasury: AccountId) -> (s: State)
    ensures
        s == (State {
            total_trades: 0,
            total_liquidity: 0,
            fee_rate: 1000,
            last_fee_update: now,
            treasury: treasury,
            reward_sum: 0,
            reward_count: 0,
            global_reward_multiplier: 1,
        }),
        s.wf(),
{
    State {
        total_trades: 0,
        total_liquidity: 0,
        fee_rate: 1000,
        last_fee_update: now,
        treasury: treasury,
        reward_sum: 0,
        reward_count: 0,
        global_reward_multiplier: 1,
    }
}

} // verus!
