use vstd::prelude::*;

use crate::errors::CustomError;
use crate::state::{AccountId, State, TradeRecord, UserState, REWARD_WINDOW};

verus! {

/// Bonus factor for fast execution: trades filled in under 100 units earn 10x.
pub open spec fn spec_execution_bonus(execution_delay: i64) -> int {
    if execution_delay < 100 { 10 } else { 1 }
}

/// Bonus factor for tight slippage: under 50 basis points earns 10x.
pub open spec fn spec_slippage_bonus(slippage: u64) -> int {
    if slippage < 50 { 10 } else { 1 }
}

/// Bonus factor for deep liquidity: more than 1000 provided earns 10x.
pub open spec fn spec_liquidity_bonus(liquidity_provided: u64) -> int {
    if liquidity_provided > 1000 { 10 } else { 1 }
}

/// The full bonus product of a trade, before the excessive-slippage penalty.
pub open spec fn spec_raw_reward(
    trade_amount: u64,
    execution_delay: i64,
    slippage: u64,
    liquidity_provided: u64,
) -> int {
    trade_amount * spec_execution_bonus(execution_delay) * spec_slippage_bonus(slippage)
        * spec_liquidity_bonus(liquidity_provided)
}

/// The reward a trade earns: the bonus product, halved (truncating) when
/// slippage exceeds 300 basis points.
pub open spec fn spec_trade_reward(
    trade_amount: u64,
    execution_delay: i64,
    slippage: u64,
    liquidity_provided: u64,
) -> int {
    let raw = spec_raw_reward(trade_amount, execution_delay, slippage, liquidity_provided);
    if slippage > 300 { raw / 2 } else { raw }
}

/// Every checked arithmetic step of record_trade stays in range. A trade on
/// which this fails aborts with ArithmeticOverflow and changes nothing.
pub open spec fn record_trade_fits(
    state: State,
    user: UserState,
    trade_amount: u64,
    execution_delay: i64,
    slippage: u64,
    liquidity_provided: u64,
) -> bool {
    let reward = spec_trade_reward(trade_amount, execution_delay, slippage, liquidity_provided);
    &&& state.total_trades + 1 <= u64::MAX
    &&& state.total_liquidity + trade_amount <= u64::MAX
    &&& user.trade_count + 1 <= u64::MAX
    &&& user.cumulative_volume + trade_amount <= u64::MAX
    &&& spec_raw_reward(trade_amount, execution_delay, slippage, liquidity_provided) <= u64::MAX
    &&& user.accrued_rewards + reward <= u64::MAX
    &&& state.reward_sum + reward <= u64::MAX
}

/// Validates a trade, computes its reward, updates the global and per-user
/// aggregates and the rolling reward window, and emits the immutable trade
/// record. The whole transition is atomic: on any failure both records are
/// left unchanged.
pub fn record_trade(
    state: &mut State,
    user_state: &mut UserState,
    trade_amount: u64,
    trade_timestamp: i64,
    trade_pair: String,
    execution_delay: i64,
    slippage: u64,
    liquidity_provided: u64,
    counterparty: AccountId,
) -> (r: Result<TradeRecord, CustomError>)
    requires
        old(state).wf(),
    ensures
        final(state).wf(),
        (r == Err::<TradeRecord, CustomError>(CustomError::WashTradingAttempt)) <==> old(
            user_state,
        ).owner == counterparty,
        (r == Err::<TradeRecord, CustomError>(CustomError::ArithmeticOverflow)) <==> (old(
            user_state,
        ).owner != counterparty && !record_trade_fits(
            *old(state),
            *old(user_state),
            trade_amount,
            execution_delay,
            slippage,
            liquidity_provided,
        )),
        r is Ok <==> (old(user_state).owner != counterparty && record_trade_fits(
            *old(state),
            *old(user_state),
            trade_amount,
            execution_delay,
            slippage,
            liquidity_provided,
        )),
        r is Err ==> *final(state) == *old(state) && *final(user_state) == *old(user_state),
        r is Ok ==> ({
            let reward = spec_trade_reward(
                trade_amount,
                execution_delay,
                slippage,
                liquidity_provided,
            );
            let sum2 = old(state).reward_sum + reward;
            let cnt2 = old(state).reward_count + 1;
            &&& final(state).total_trades == old(state).total_trades + 1
            &&& final(state).total_liquidity == old(state).total_liquidity + trade_amount
            &&& final(state).fee_rate == old(state).fee_rate
            &&& final(state).last_fee_update == old(state).last_fee_update
            &&& final(state).treasury == old(state).treasury
            &&& (if cnt2 >= REWARD_WINDOW {
                &&& final(state).global_reward_multiplier == sum2 / cnt2
                &&& final(state).reward_sum == 0
                &&& final(state).reward_count == 0
            } else {
                &&& final(state).global_reward_multiplier == old(state).global_reward_multiplier
                &&& final(state).reward_sum == sum2
                &&& final(state).reward_count == cnt2
            })
            &&& final(user_state).owner == old(user_state).owner
            &&& final(user_state).staked_amount == old(user_state).staked_amount
            &&& final(user_state).accrued_rewards == old(user_state).accrued_rewards + reward
            &&& final(user_state).reward_multiplier == final(state).global_reward_multiplier
            &&& final(user_state).trade_count == old(user_state).trade_count + 1
            &&& final(user_state).cumulative_volume == old(user_state).cumulative_volume
                + trade_amount
            &&& final(user_state).fee_discount == old(user_state).fee_discount
            &&& final(user_state).lockup_end == old(user_state).lockup_end
            &&& final(user_state).is_institutional == old(user_state).is_institutional
            &&& final(user_state).last_claim_time == old(user_state).last_claim_time
            &&& final(user_state).trading_rebate == old(user_state).trading_rebate
        }),
        r matches Ok(rec) ==> rec == (TradeRecord {
            user: old(user_state).owner,
            trade_amount: trade_amount,
            trade_timestamp: trade_timestamp,
            trade_pair: trade_pair,
            execution_delay: execution_delay,
            slippage: slippage,
            liquidity_provided: liquidity_provided,
        }),
{
    if user_state.owner == counterparty {
        return Err(CustomError::WashTradingAttempt);
    }
    let total_trades = match state.total_trades.checked_add(1) {
        Some(v) => v,
        None => { return Err(CustomError::ArithmeticOverflow); },
    };
    let total_liquidity = match state.total_liquidity.checked_add(trade_amount) {
        Some(v) => v,
        None => { return Err(CustomError::ArithmeticOverflow); },
    };
    let trade_count = match user_state.trade_count.checked_add(1) {
        Some(v) => v,
        None => { return Err(CustomError::ArithmeticOverflow); },
    };
    let cumulative_volume = match user_state.cumulative_volume.checked_add(trade_amount) {
        Some(v) => v,
        None => { return Err(CustomError::ArithmeticOverflow); },
    };
    let execution_bonus: u64 = if execution_delay < 100 { 10 } else { 1 };
    let slippage_bonus: u64 = if slippage < 50 { 10 } else { 1 };
    let liquidity_bonus: u64 = if liquidity_provided > 1000 { 10 } else { 1 };
    let raw = match trade_amount.checked_mul(execution_bonus) {
        Some(v) => v,
        None => { return Err(CustomError::ArithmeticOverflow); },
    };
    let raw = match raw.checked_mul(slippage_bonus) {
        Some(v) => v,
        None => { return Err(CustomError::ArithmeticOverflow); },
    };
    let raw = match raw.checked_mul(liquidity_bonus) {
        Some(v) => v,
        None => { return Err(CustomError::ArithmeticOverflow); },
    };
    let reward = if slippage > 300 { raw / 2 } else { raw };
    let accrued_rewards = match user_state.accrued_rewards.checked_add(reward) {
        Some(v) => v,
        None => { return Err(CustomError::ArithmeticOverflow); },
    };
    let reward_sum = match state.reward_sum.checked_add(reward) {
        Some(v) => v,
        None => { return Err(CustomError::ArithmeticOverflow); },
    };
    let reward_count = state.reward_count + 1;
    state.total_trades = total_trades;
    state.total_liquidity = total_liquidity;
    user_state.trade_count = trade_count;
    user_state.cumulative_volume = cumulative_volume;
    user_state.accrued_rewards = accrued_rewards;
    if reward_count >= REWARD_WINDOW {
        state.global_reward_multiplier = reward_sum / reward_count;
        state.reward_sum = 0;
        state.reward_count = 0;
    } else {
        state.reward_sum = reward_sum;
        state.reward_count = reward_count;
    }
    user_state.reward_multiplier = state.global_reward_multiplier;
    Ok(
        TradeRecord {
            user: user_state.owner,
            trade_amount: trade_amount,
            trade_timestamp: trade_timestamp,
            trade_pair: trade_pair,
            execution_delay: execution_delay,
            slippage: slippage,
            liquidity_provided: liquidity_provided,
        },
    )
}

/// The trade amounts a log of trade records holds, summed.
pub open spec fn sum_trade_amounts(records: Seq<TradeRecord>) -> int
    decreases records.len(),
{
    if records.len() == 0 {
        0
    } else {
        sum_trade_amounts(records.drop_last()) + records.last().trade_amount
    }
}

/// Law: across every sequence of successful record_trade calls, the global
/// total_liquidity equals the sum of all recorded trade amounts. initialize
/// starts both at zero, and this step shows that each successful trade — whose
/// contract gives total_liquidity' == total_liquidity + rec.trade_amount —
/// keeps the equality when its record is appended to the log.
pub proof fn lemma_liquidity_matches_trade_log(
    pre: State,
    post: State,
    records: Seq<TradeRecord>,
    rec: TradeRecord,
)
    requires
        pre.total_liquidity == sum_trade_amounts(records),
        post.total_liquidity == pre.total_liquidity + rec.trade_amount,
    ensures
        post.total_liquidity == sum_trade_amounts(records.push(rec)),
{
    assert(records.push(rec).drop_last() =~= records);
    assert(records.push(rec).last() == rec);
}

} // verus!
