use vstd::prelude::*;

use crate::errors::CustomError;
use crate::state::{State, UserState, REWARD_WINDOW};

verus! {

/// A claim that passes the volume gate but not the cooldown gate: fewer than
/// 3600 seconds have passed since the last successful claim.
pub open spec fn claim_blocked_by_cooldown(user: UserState, now: i64) -> bool {
    user.cumulative_volume >= 100 && now - user.last_claim_time < 3600
}

/// Authorizes a reward claim: the user must have traded at least 100 in
/// cumulative volume and waited 3600 seconds since the last claim. On success
/// the accrued rewards are zeroed and the claim time stamped; the transfer of
/// value itself is an external collaborator's job.
pub fn claim_rewards(user_state: &mut UserState, now: i64) -> (r: Result<(), CustomError>)
    ensures
        (r == Err::<(), CustomError>(CustomError::InsufficientLiquidityForRewards)) <==> old(
            user_state,
        ).cumulative_volume < 100,
        (r == Err::<(), CustomError>(CustomError::MinimumHoldingPeriodNotMet))
            <==> claim_blocked_by_cooldown(*old(user_state), now),
        r is Ok <==> (old(user_state).cumulative_volume >= 100 && now - old(
            user_state,
        ).last_claim_time >= 3600),
        r is Err ==> *final(user_state) == *old(user_state),
        r is Ok ==> ({
            &&& final(user_state).accrued_rewards == 0
            &&& final(user_state).last_claim_time == now
            &&& final(user_state).owner == old(user_state).owner
            &&& final(user_state).staked_amount == old(user_state).staked_amount
            &&& final(user_state).reward_multiplier == old(user_state).reward_multiplier
            &&& final(user_state).trade_count == old(user_state).trade_count
            &&& final(user_state).cumulative_volume == old(user_state).cumulative_volume
            &&& final(user_state).fee_discount == old(user_state).fee_discount
            &&& final(user_state).lockup_end == old(user_state).lockup_end
            &&& final(user_state).is_institutional == old(user_state).is_institutional
            &&& final(user_state).trading_rebate == old(user_state).trading_rebate
        }),
{
    if user_state.cumulative_volume < 100 {
        return Err(CustomError::InsufficientLiquidityForRewards);
    }
    let elapsed: i128 = (now as i128) - (user_state.last_claim_time as i128);
    if elapsed < 3600 {
        return Err(CustomError::MinimumHoldingPeriodNotMet);
    }
    user_state.accrued_rewards = 0;
    user_state.last_claim_time = now;
    Ok(())
}

/// Law: once a claim succeeds at time t1, any claim within the next 3600
/// seconds is denied by the cooldown gate, whatever rewards have accrued in
/// between. The state a successful claim leaves behind has last_claim_time ==
/// t1 and cumulative_volume >= 100, and trades in between only grow the
/// volume, so the second call's contract forces Err(MinimumHoldingPeriodNotMet).
pub proof fn lemma_claim_cooldown(claimed: UserState, t1: i64, t2: i64)
    requires
        claimed.cumulative_volume >= 100,
        claimed.last_claim_time == t1,
        t2 - t1 < 3600,
    ensures
        claim_blocked_by_cooldown(claimed, t2),
{
}

/// Bonus factor applied to the refreshed multiplier under high volatility.
pub open spec fn spec_volatility_bonus(market_volatility: u64) -> int {
    if market_volatility > 1000 { 110 } else { 100 }
}

/// Bonus factor applied to the refreshed multiplier under a wide order-book gap.
pub open spec fn spec_gap_bonus(order_book_gap: u64) -> int {
    if order_book_gap > 500 { 105 } else { 100 }
}

/// Every checked arithmetic step of update_dynamic_reward stays in range.
pub open spec fn dynamic_reward_fits(
    state: State,
    recent_reward: u64,
    market_volatility: u64,
    order_book_gap: u64,
) -> bool {
    let sum2 = state.reward_sum + recent_reward;
    let cnt2 = state.reward_count + 1;
    &&& sum2 <= u64::MAX
    &&& (cnt2 >= REWARD_WINDOW ==> (sum2 / cnt2) * spec_volatility_bonus(market_volatility)
        * spec_gap_bonus(order_book_gap) <= u64::MAX)
}

/// Rolls the reward window with an externally supplied sample. When the
/// window completes, the global multiplier is refreshed from the window
/// average, scaled by the volatility and gap bonuses over a 10000 divisor,
/// and the window resets. Atomic: on overflow the state is unchanged.
pub fn update_dynamic_reward(
    state: &mut State,
    recent_reward: u64,
    market_volatility: u64,
    order_book_gap: u64,
) -> (r: Result<(), CustomError>)
    requires
        old(state).wf(),
    ensures
        final(state).wf(),
        r is Ok <==> dynamic_reward_fits(*old(state), recent_reward, market_volatility, order_book_gap),
        r is Err ==> *final(state) == *old(state) && r == Err::<(), CustomError>(
            CustomError::ArithmeticOverflow,
        ),
        r is Ok ==> ({
            let sum2 = old(state).reward_sum + recent_reward;
            let cnt2 = old(state).reward_count + 1;
            &&& (if cnt2 >= REWARD_WINDOW {
                &&& final(state).global_reward_multiplier == ((sum2 / cnt2)
                    * spec_volatility_bonus(market_volatility) * spec_gap_bonus(order_book_gap))
                    / 10000
                &&& final(state).reward_sum == 0
                &&& final(state).reward_count == 0
            } else {
                &&& final(state).global_reward_multiplier == old(state).global_reward_multiplier
                &&& final(state).reward_sum == sum2
                &&& final(state).reward_count == cnt2
            })
            &&& final(state).total_trades == old(state).total_trades
            &&& final(state).total_liquidity == old(state).total_liquidity
            &&& final(state).fee_rate == old(state).fee_rate
            &&& final(state).last_fee_update == old(state).last_fee_update
            &&& final(state).treasury == old(state).treasury
        }),
{
    let reward_sum = match state.reward_sum.checked_add(recent_reward) {
        Some(v) => v,
        None => { return Err(CustomError::ArithmeticOverflow); },
    };
    let reward_count = state.reward_count + 1;
    if reward_count >= REWARD_WINDOW {
        let average = reward_sum / reward_count;
        let volatility_bonus: u64 = if market_volatility > 1000 { 110 } else { 100 };
        let gap_bonus: u64 = if order_book_gap > 500 { 105 } else { 100 };
        let scaled = match average.checked_mul(volatility_bonus) {
            Some(v) => v,
            None => { return Err(CustomError::ArithmeticOverflow); },
        };
        let scaled = match scaled.checked_mul(gap_bonus) {
            Some(v) => v,
            None => { return Err(CustomError::ArithmeticOverflow); },
        };
        state.global_reward_multiplier = scaled / (100 * 100);
        state.reward_sum = 0;
        state.reward_count = 0;
    } else {
        state.reward_sum = reward_sum;
        state.reward_count = reward_count;
    }
    Ok(())
}

/// Fixed bonus a strategy tag earns: market-making (1) 50, arbitrage (2) 100,
/// options hedging (3) 75; any other tag earns nothing.
pub open spec fn spec_strategy_bonus(strategy_type: u8) -> int {
    if strategy_type == 1 {
        50
    } else if strategy_type == 2 {
        100
    } else if strategy_type == 3 {
        75
    } else {
        0
    }
}

/// Adds the fixed bonus of a strategy tag to the user's accrued rewards; an
/// unknown tag is a defined no-op, not an error. Atomic on overflow.
pub fn reward_strategy_boost(user_state: &mut UserState, strategy_type: u8) -> (r: Result<
    (),
    CustomError,
>)
    ensures
        r is Ok <==> old(user_state).accrued_rewards + spec_strategy_bonus(strategy_type)
            <= u64::MAX,
        r is Err ==> *final(user_state) == *old(user_state) && r == Err::<(), CustomError>(
            CustomError::ArithmeticOverflow,
        ),
        r is Ok ==> ({
            &&& final(user_state).accrued_rewards == old(user_state).accrued_rewards
                + spec_strategy_bonus(strategy_type)
            &&& final(user_state).owner == old(user_state).owner
            &&& final(user_state).staked_amount == old(user_state).staked_amount
            &&& final(user_state).reward_multiplier == old(user_state).reward_multiplier
            &&& final(user_state).trade_count == old(user_state).trade_count
            &&& final(user_state).cumulative_volume == old(user_state).cumulative_volume
            &&& final(user_state).fee_discount == old(user_state).fee_discount
            &&& final(user_state).lockup_end == old(user_state).lockup_end
            &&& final(user_state).is_institutional == old(user_state).is_institutional
            &&& final(user_state).last_claim_time == old(user_state).last_claim_time
            &&& final(user_state).trading_rebate == old(user_state).trading_rebate
        }),
{
    let bonus: u64 = match strategy_type {
        1 => 50,
        2 => 100,
        3 => 75,
        _ => { return Ok(()); },
    };
    match user_state.accrued_rewards.checked_add(bonus) {
        Some(v) => {
            user_state.accrued_rewards = v;
            Ok(())
        },
        None => Err(CustomError::ArithmeticOverflow),
    }
}

} // verus!
