use vstd::prelude::*;

use crate::errors::CustomError;
use crate::state::UserState;

verus! {

/// Fee discount of the staking tier a staked amount falls in.
pub open spec fn spec_fee_discount(staked: int) -> int {
    if staked >= 50000 {
        30
    } else if staked >= 5000 {
        20
    } else if staked >= 500 {
        10
    } else {
        0
    }
}

/// Trading rebate of the staking tier a staked amount falls in.
pub open spec fn spec_trading_rebate(staked: int) -> int {
    if staked >= 50000 {
        10
    } else if staked >= 5000 {
        5
    } else {
        0
    }
}

/// Tier engine: the fee discount for a staked amount. Pure and total.
pub fn fee_discount_for_stake(staked: u64) -> (discount: u64)
    ensures
        discount == spec_fee_discount(staked as int),
{
    if staked >= 50000 {
        30
    } else if staked >= 5000 {
        20
    } else if staked >= 500 {
        10
    } else {
        0
    }
}

/// Tier engine: the trading rebate for a staked amount. Pure and total.
pub fn trading_rebate_for_stake(staked: u64) -> (rebate: u64)
    ensures
        rebate == spec_trading_rebate(staked as int),
{
    if staked >= 50000 {
        10
    } else if staked >= 5000 {
        5
    } else {
        0
    }
}

impl UserState {
    /// The user's discount and rebate agree with the tier its staked amount
    /// implies; every staking operation re-establishes this.
    pub open spec fn tier_consistent(self) -> bool {
        &&& self.fee_discount == spec_fee_discount(self.staked_amount as int)
        &&& self.trading_rebate == spec_trading_rebate(self.staked_amount as int)
    }
}

/// Adds to the user's staked balance, sets the lockup end when a positive
/// lockup duration is given, and recomputes the user's tier. Atomic: on an
/// arithmetic failure the user record is unchanged.
pub fn stake_with_lockup(
    user_state: &mut UserState,
    amount: u64,
    lockup_duration: i64,
    now: i64,
) -> (r: Result<(), CustomError>)
    ensures
        r is Ok <==> (old(user_state).staked_amount + amount <= u64::MAX && (lockup_duration <= 0
            || now + lockup_duration <= i64::MAX)),
        r is Err ==> *final(user_state) == *old(user_state) && r == Err::<(), CustomError>(
            CustomError::ArithmeticOverflow,
        ),
        r is Ok ==> ({
            &&& final(user_state).staked_amount == old(user_state).staked_amount + amount
            &&& final(user_state).lockup_end == (if lockup_duration > 0 {
                now + lockup_duration
            } else {
                old(user_state).lockup_end as int
            })
            &&& final(user_state).fee_discount == spec_fee_discount(
                final(user_state).staked_amount as int,
            )
            &&& final(user_state).trading_rebate == spec_trading_rebate(
                final(user_state).staked_amount as int,
            )
            &&& final(user_state).tier_consistent()
            &&& final(user_state).owner == old(user_state).owner
            &&& final(user_state).accrued_rewards == old(user_state).accrued_rewards
            &&& final(user_state).reward_multiplier == old(user_state).reward_multiplier
            &&& final(user_state).trade_count == old(user_state).trade_count
            &&& final(user_state).cumulative_volume == old(user_state).cumulative_volume
            &&& final(user_state).is_institutional == old(user_state).is_institutional
            &&& final(user_state).last_claim_time == old(user_state).last_claim_time
        }),
{
    let staked_amount = match user_state.staked_amount.checked_add(amount) {
        Some(v) => v,
        None => { return Err(CustomError::ArithmeticOverflow); },
    };
    let lockup_end = if lockup_duration > 0 {
        match now.checked_add(lockup_duration) {
            Some(v) => v,
            None => { return Err(CustomError::ArithmeticOverflow); },
        }
    } else {
        user_state.lockup_end
    };
    user_state.staked_amount = staked_amount;
    user_state.lockup_end = lockup_end;
    user_state.fee_discount = fee_discount_for_stake(staked_amount);
    user_state.trading_rebate = trading_rebate_for_stake(staked_amount);
    Ok(())
}

} // verus!
