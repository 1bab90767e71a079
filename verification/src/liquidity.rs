use vstd::prelude::*;

use crate::errors::CustomError;
use crate::state::{LPState, TraderLeaderboard};

verus! {

/// Accumulates a liquidity-provider deposit and stamps its time. No gating;
/// atomic on overflow.
pub fn record_liquidity_deposit(
    lp_state: &mut LPState,
    deposit_amount: u64,
    deposit_timestamp: i64,
) -> (r: Result<(), CustomError>)
    ensures
        r is Ok <==> old(lp_state).total_deposit + deposit_amount <= u64::MAX,
        r is Err ==> *final(lp_state) == *old(lp_state) && r == Err::<(), CustomError>(
            CustomError::ArithmeticOverflow,
        ),
        r is Ok ==> ({
            &&& final(lp_state).total_deposit == old(lp_state).total_deposit + deposit_amount
            &&& final(lp_state).last_deposit == deposit_timestamp
            &&& final(lp_state).owner == old(lp_state).owner
        }),
{
    match lp_state.total_deposit.checked_add(deposit_amount) {
        Some(total) => {
            lp_state.total_deposit = total;
            lp_state.last_deposit = deposit_timestamp;
            Ok(())
        },
        None => Err(CustomError::ArithmeticOverflow),
    }
}

/// Accumulates a trader's volume and trade count on the leaderboard and
/// stamps the update time. Both aggregates only ever grow; atomic on
/// overflow.
pub fn update_leaderboard(
    leaderboard: &mut TraderLeaderboard,
    trade_volume: u64,
    trade_count: u64,
    now: i64,
) -> (r: Result<(), CustomError>)
    ensures
        r is Ok <==> (old(leaderboard).trade_volume + trade_volume <= u64::MAX && old(
            leaderboard,
        ).trade_count + trade_count <= u64::MAX),
        r is Err ==> *final(leaderboard) == *old(leaderboard) && r == Err::<(), CustomError>(
            CustomError::ArithmeticOverflow,
        ),
        r is Ok ==> ({
            &&& final(leaderboard).trade_volume == old(leaderboard).trade_volume + trade_volume
            &&& final(leaderboard).trade_count == old(leaderboard).trade_count + trade_count
            &&& final(leaderboard).last_update == now
            &&& final(leaderboard).user == old(leaderboard).user
        }),
{
    let volume = match leaderboard.trade_volume.checked_add(trade_volume) {
        Some(v) => v,
        None => { return Err(CustomError::ArithmeticOverflow); },
    };
    let count = match leaderboard.trade_count.checked_add(trade_count) {
        Some(v) => v,
        None => { return Err(CustomError::ArithmeticOverflow); },
    };
    leaderboard.trade_volume = volume;
    leaderboard.trade_count = count;
    leaderboard.last_update = now;
    Ok(())
}

} // verus!
