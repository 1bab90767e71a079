use vstd::prelude::*;

use crate::errors::CustomError;
use crate::state::{LoanAccount, UserState};

verus! {

/// Seconds in the fixed 30-day loan term.
pub const LOAN_TERM_SECONDS: i64 = 2592000;

/// The staked collateral required for a borrow: 150% of the amount, computed
/// as borrow_amount * 150 / 100 in truncating integer arithmetic.
pub open spec fn spec_required_collateral(borrow_amount: u64) -> int {
    (borrow_amount * 150) / 100
}

/// Issues a loan against the user's staked balance. The stake must cover
/// 150% of the borrow amount; the loan snapshots the whole stake as
/// collateral, carries a fixed interest rate of 5, starts now and falls due
/// 30 days later. The user record itself is not changed.
pub fn borrow_against_lvt(user_state: &UserState, borrow_amount: u64, now: i64) -> (r: Result<
    LoanAccount,
    CustomError,
>)
    ensures
        (r == Err::<LoanAccount, CustomError>(CustomError::ArithmeticOverflow)) <==> (
        borrow_amount * 150 > u64::MAX || (user_state.staked_amount >= spec_required_collateral(
            borrow_amount,
        ) && now + LOAN_TERM_SECONDS > i64::MAX)),
        (r == Err::<LoanAccount, CustomError>(CustomError::InsufficientCollateral)) <==> (
        borrow_amount * 150 <= u64::MAX && user_state.staked_amount < spec_required_collateral(
            borrow_amount,
        )),
        r is Ok <==> (borrow_amount * 150 <= u64::MAX && user_state.staked_amount
            >= spec_required_collateral(borrow_amount) && now + LOAN_TERM_SECONDS <= i64::MAX),
        r matches Ok(loan) ==> loan == (LoanAccount {
            borrower: user_state.owner,
            collateral: user_state.staked_amount,
            borrow_amount: borrow_amount,
            interest_rate: 5,
            start_time: now,
            due_time: (now + LOAN_TERM_SECONDS) as i64,
        }),
{
    let scaled = match borrow_amount.checked_mul(150) {
        Some(v) => v,
        None => { return Err(CustomError::ArithmeticOverflow); },
    };
    let required = scaled / 100;
    if user_state.staked_amount < required {
        return Err(CustomError::InsufficientCollateral);
    }
    let due_time = match now.checked_add(LOAN_TERM_SECONDS) {
        Some(v) => v,
        None => { return Err(CustomError::ArithmeticOverflow); },
    };
    Ok(
        LoanAccount {
            borrower: user_state.owner,
            collateral: user_state.staked_amount,
            borrow_amount: borrow_amount,
            interest_rate: 5,
            start_time: now,
            due_time: due_time,
        },
    )
}

} // verus!
