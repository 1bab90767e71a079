use vstd::prelude::*;

use crate::errors::CustomError;
use crate::state::{GovernanceVote, State};

verus! {

/// Adjusts the fee from the liquidity level: +100 while total liquidity is
/// under 1,000,000, else -100. Only underflow and overflow bound the drift;
/// the governance bounds do not apply on this path. Atomic on failure.
pub fn adjust_fee_dynamically(state: &mut State, now: i64) -> (r: Result<(), CustomError>)
    ensures
        r is Ok <==> (if old(state).total_liquidity < 1000000 {
            old(state).fee_rate + 100 <= u64::MAX
        } else {
            old(state).fee_rate >= 100
        }),
        r is Err ==> *final(state) == *old(state) && r == Err::<(), CustomError>(
            CustomError::ArithmeticOverflow,
        ),
        r is Ok ==> ({
            &&& final(state).fee_rate == (if old(state).total_liquidity < 1000000 {
                old(state).fee_rate + 100
            } else {
                old(state).fee_rate - 100
            })
            &&& final(state).last_fee_update == now
            &&& final(state).total_trades == old(state).total_trades
            &&& final(state).total_liquidity == old(state).total_liquidity
            &&& final(state).treasury == old(state).treasury
            &&& final(state).reward_sum == old(state).reward_sum
            &&& final(state).reward_count == old(state).reward_count
            &&& final(state).global_reward_multiplier == old(state).global_reward_multiplier
        }),
{
    let fee_rate = if state.total_liquidity < 1000000 {
        match state.fee_rate.checked_add(100) {
            Some(v) => v,
            None => { return Err(CustomError::ArithmeticOverflow); },
        }
    } else {
        match state.fee_rate.checked_sub(100) {
            Some(v) => v,
            None => { return Err(CustomError::ArithmeticOverflow); },
        }
    };
    state.fee_rate = fee_rate;
    state.last_fee_update = now;
    Ok(())
}

/// Adjusts the fee from market volatility: +50 above 1000, else -50. As with
/// the liquidity path, no floor or ceiling beyond checked arithmetic applies.
pub fn auto_adjust_fee(state: &mut State, current_volatility: u64, now: i64) -> (r: Result<
    (),
    CustomError,
>)
    ensures
        r is Ok <==> (if current_volatility > 1000 {
            old(state).fee_rate + 50 <= u64::MAX
        } else {
            old(state).fee_rate >= 50
        }),
        r is Err ==> *final(state) == *old(state) && r == Err::<(), CustomError>(
            CustomError::ArithmeticOverflow,
        ),
        r is Ok ==> ({
            &&& final(state).fee_rate == (if current_volatility > 1000 {
                old(state).fee_rate + 50
            } else {
                old(state).fee_rate - 50
            })
            &&& final(state).last_fee_update == now
            &&& final(state).total_trades == old(state).total_trades
            &&& final(state).total_liquidity == old(state).total_liquidity
            &&& final(state).treasury == old(state).treasury
            &&& final(state).reward_sum == old(state).reward_sum
            &&& final(state).reward_count == old(state).reward_count
            &&& final(state).global_reward_multiplier == old(state).global_reward_multiplier
        }),
{
    let fee_rate = if current_volatility > 1000 {
        match state.fee_rate.checked_add(50) {
            Some(v) => v,
            None => { return Err(CustomError::ArithmeticOverflow); },
        }
    } else {
        match state.fee_rate.checked_sub(50) {
            Some(v) => v,
            None => { return Err(CustomError::ArithmeticOverflow); },
        }
    };
    state.fee_rate = fee_rate;
    state.last_fee_update = now;
    Ok(())
}

/// Accepts a batching delay. Purely advisory: it records no state and only
/// validates that the intended delay is positive.
pub fn batch_trading_orders_with_delay(delay: i64) -> (r: Result<(), CustomError>)
    ensures
        r is Ok <==> delay > 0,
        r is Err ==> r == Err::<(), CustomError>(CustomError::InvalidDelay),
{
    if delay > 0 {
        Ok(())
    } else {
        Err(CustomError::InvalidDelay)
    }
}

/// Governance-gated fee update: requires the vote threshold, bounds the new
/// rate to [500, 5000], and resets the vote count after a successful update.
/// On any failure both the state and the tally are unchanged.
pub fn update_fee_structure_by_vote(
    state: &mut State,
    governance: &mut GovernanceVote,
    new_fee_rate: u64,
    now: i64,
) -> (r: Result<(), CustomError>)
    ensures
        (r == Err::<(), CustomError>(CustomError::InsufficientVotes)) <==> old(
            governance,
        ).vote_count < old(governance).required_votes,
        (r == Err::<(), CustomError>(CustomError::InvalidFeeRate)) <==> (old(governance).vote_count
            >= old(governance).required_votes && !(500 <= new_fee_rate <= 5000)),
        r is Ok <==> (old(governance).vote_count >= old(governance).required_votes && 500
            <= new_fee_rate <= 5000),
        r is Err ==> *final(state) == *old(state) && *final(governance) == *old(governance),
        r is Ok ==> ({
            &&& final(state).fee_rate == new_fee_rate
            &&& final(state).last_fee_update == now
            &&& final(state).total_trades == old(state).total_trades
            &&& final(state).total_liquidity == old(state).total_liquidity
            &&& final(state).treasury == old(state).treasury
            &&& final(state).reward_sum == old(state).reward_sum
            &&& final(state).reward_count == old(state).reward_count
            &&& final(state).global_reward_multiplier == old(state).global_reward_multiplier
            &&& final(governance).vote_count == 0
            &&& final(governance).required_votes == old(governance).required_votes
        }),
{
    if governance.vote_count < governance.required_votes {
        return Err(CustomError::InsufficientVotes);
    }
    if !(new_fee_rate >= 500 && new_fee_rate <= 5000) {
        return Err(CustomError::InvalidFeeRate);
    }
    state.fee_rate = new_fee_rate;
    state.last_fee_update = now;
    governance.vote_count = 0;
    Ok(())
}

/// The advisory batching delay derived from a timestamp: its remainder by
/// ten, truncated toward zero as the machine computes it.
pub open spec fn spec_delay_mod10(t: i64) -> int {
    if t >= 0 {
        (t as int) % 10
    } else {
        -((-(t as int)) % 10)
    }
}

/// Stamps last_fee_update with now plus a pseudo-random delay of (now mod 10)
/// seconds. The delay is derived from the wall clock itself, so it is
/// advisory only, not an unpredictable randomness source. Atomic on overflow.
pub fn batch_process_trades(state: &mut State, now: i64) -> (r: Result<(), CustomError>)
    ensures
        r is Ok <==> i64::MIN <= now + spec_delay_mod10(now) <= i64::MAX,
        r is Err ==> *final(state) == *old(state) && r == Err::<(), CustomError>(
            CustomError::ArithmeticOverflow,
        ),
        r is Ok ==> ({
            &&& final(state).last_fee_update == now + spec_delay_mod10(now)
            &&& final(state).fee_rate == old(state).fee_rate
            &&& final(state).total_trades == old(state).total_trades
            &&& final(state).total_liquidity == old(state).total_liquidity
            &&& final(state).treasury == old(state).treasury
            &&& final(state).reward_sum == old(state).reward_sum
            &&& final(state).reward_count == old(state).reward_count
            &&& final(state).global_reward_multiplier == old(state).global_reward_multiplier
        }),
{
    let random_delay = match now.checked_rem(10) {
        Some(v) => v,
        None => { return Err(CustomError::ArithmeticOverflow); },
    };
    assert(random_delay == spec_delay_mod10(now));
    match now.checked_add(random_delay) {
        Some(t) => {
            state.last_fee_update = t;
            Ok(())
        },
        None => Err(CustomError::ArithmeticOverflow),
    }
}

} // verus!
