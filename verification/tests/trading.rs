use lvt::errors::CustomError;
use lvt::state::{initialize, AccountId, State, UserState};
use lvt::trade::record_trade;

fn uid(n: u128) -> AccountId {
    AccountId { hi: 0, lo: n }
}

fn fresh_user(owner: AccountId) -> UserState {
    UserState {
        owner,
        staked_amount: 0,
        accrued_rewards: 0,
        reward_multiplier: 0,
        trade_count: 0,
        cumulative_volume: 0,
        fee_discount: 0,
        lockup_end: 0,
        is_institutional: false,
        last_claim_time: 0,
        trading_rebate: 0,
    }
}

fn fresh_state() -> State {
    initialize(0, uid(99))
}

#[test]
fn initialize_sets_defaults() {
    let state = initialize(42, uid(7));
    assert_eq!(state.total_trades, 0);
    assert_eq!(state.total_liquidity, 0);
    assert_eq!(state.fee_rate, 1000);
    assert_eq!(state.last_fee_update, 42);
    assert_eq!(state.treasury, uid(7));
    assert_eq!(state.reward_sum, 0);
    assert_eq!(state.reward_count, 0);
    assert_eq!(state.global_reward_multiplier, 1);
}

#[test]
fn example_trade_reward_is_one_million() {
    // bonuses (10, 10, 10): reward = 1000 * 10 * 10 * 10, no halving.
    let mut state = fresh_state();
    let mut user = fresh_user(uid(1));
    let r = record_trade(
        &mut state,
        &mut user,
        1000,
        5,
        String::from("LVT/USDC"),
        50,
        10,
        2000,
        uid(2),
    );
    let rec = r.unwrap();
    assert_eq!(user.accrued_rewards, 1_000_000);
    assert_eq!(rec.trade_amount, 1000);
    assert_eq!(rec.trade_pair, "LVT/USDC");
    assert_eq!(rec.user, uid(1));
    assert_eq!(state.total_trades, 1);
    assert_eq!(state.total_liquidity, 1000);
    assert_eq!(state.reward_sum, 1_000_000);
    assert_eq!(state.reward_count, 1);
    assert_eq!(user.trade_count, 1);
    assert_eq!(user.cumulative_volume, 1000);
}

#[test]
fn excessive_slippage_halves_reward() {
    // bonuses (10, 1, 10) and slippage 301 > 300: 1001 * 100 / 2 = 50050.
    let mut state = fresh_state();
    let mut user = fresh_user(uid(1));
    let r = record_trade(
        &mut state,
        &mut user,
        1001,
        5,
        String::from("LVT/USDC"),
        50,
        301,
        2000,
        uid(2),
    );
    assert!(r.is_ok());
    assert_eq!(user.accrued_rewards, 50050);
}

#[test]
fn slippage_at_exactly_300_is_not_halved() {
    // bonuses (10, 1, 10): reward = 10 * 100 = 1000, and 300 is not > 300.
    let mut state = fresh_state();
    let mut user = fresh_user(uid(1));
    let r = record_trade(
        &mut state,
        &mut user,
        10,
        5,
        String::from("LVT/USDC"),
        50,
        300,
        2000,
        uid(2),
    );
    assert!(r.is_ok());
    assert_eq!(user.accrued_rewards, 1000);
}

#[test]
fn slow_lowbonus_trade_reward() {
    // delay 100, slippage 50, liquidity 1000: all bonuses 1.
    let mut state = fresh_state();
    let mut user = fresh_user(uid(1));
    let r = record_trade(
        &mut state,
        &mut user,
        777,
        5,
        String::from("LVT/USDC"),
        100,
        50,
        1000,
        uid(2),
    );
    assert!(r.is_ok());
    assert_eq!(user.accrued_rewards, 777);
}

#[test]
fn wash_trade_fails_and_changes_nothing() {
    let mut state = fresh_state();
    let mut user = fresh_user(uid(1));
    let before_state = state;
    let before_user = user;
    let r = record_trade(
        &mut state,
        &mut user,
        1000,
        5,
        String::from("LVT/USDC"),
        50,
        10,
        2000,
        uid(1),
    );
    assert_eq!(r, Err(CustomError::WashTradingAttempt));
    assert_eq!(state, before_state);
    assert_eq!(user, before_user);
}

#[test]
fn trade_overflow_fails_and_changes_nothing() {
    // amount * 10 * 10 * 10 leaves u64, so the whole transition aborts.
    let mut state = fresh_state();
    let mut user = fresh_user(uid(1));
    let before_state = state;
    let before_user = user;
    let r = record_trade(
        &mut state,
        &mut user,
        u64::MAX / 2,
        5,
        String::from("LVT/USDC"),
        50,
        10,
        2000,
        uid(2),
    );
    assert_eq!(r, Err(CustomError::ArithmeticOverflow));
    assert_eq!(state, before_state);
    assert_eq!(user, before_user);
}

#[test]
fn liquidity_equals_sum_of_recorded_trades() {
    let mut state = fresh_state();
    let mut user = fresh_user(uid(1));
    let amounts: [u64; 5] = [3, 1000, 250, 42, 999_999];
    let mut sum: u64 = 0;
    for &amount in amounts.iter() {
        let r = record_trade(
            &mut state,
            &mut user,
            amount,
            5,
            String::from("LVT/USDC"),
            50,
            10,
            2000,
            uid(2),
        );
        let rec = r.unwrap();
        assert_eq!(rec.trade_amount, amount);
        sum += amount;
        assert_eq!(state.total_liquidity, sum);
    }
    assert_eq!(state.total_trades, 5);
    assert_eq!(user.cumulative_volume, sum);
}

#[test]
fn fifty_trades_reset_window_and_refresh_multiplier() {
    // 50 trades of reward 100 each: on the 50th, multiplier = 5000 / 50 = 100
    // and the window resets; the count never rests at 50.
    let mut state = fresh_state();
    let mut user = fresh_user(uid(1));
    for i in 0..50u64 {
        // delay 100, slippage 50, liquidity 1000: reward = amount.
        let r = record_trade(
            &mut state,
            &mut user,
            100,
            5,
            String::from("LVT/USDC"),
            100,
            50,
            1000,
            uid(2),
        );
        assert!(r.is_ok());
        assert!(state.reward_count < 50);
        if i < 49 {
            assert_eq!(state.reward_count, i + 1);
            assert_eq!(state.global_reward_multiplier, 1);
        }
    }
    assert_eq!(state.reward_count, 0);
    assert_eq!(state.reward_sum, 0);
    assert_eq!(state.global_reward_multiplier, 100);
    assert_eq!(user.reward_multiplier, 100);
}

#[test]
fn trade_record_captures_parameters_verbatim() {
    let mut state = fresh_state();
    let mut user = fresh_user(uid(5));
    let r = record_trade(
        &mut state,
        &mut user,
        123,
        -7,
        String::from("AB/CD"),
        99,
        49,
        1001,
        uid(6),
    );
    let rec = r.unwrap();
    assert_eq!(rec.user, uid(5));
    assert_eq!(rec.trade_amount, 123);
    assert_eq!(rec.trade_timestamp, -7);
    assert_eq!(rec.trade_pair, "AB/CD");
    assert_eq!(rec.execution_delay, 99);
    assert_eq!(rec.slippage, 49);
    assert_eq!(rec.liquidity_provided, 1001);
}
