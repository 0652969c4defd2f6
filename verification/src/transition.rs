//! The transition function: pure decision logic mapping the current
//! account state, the optionally referenced operation record and the
//! incoming event to a new state and record, or to a rejection. It
//! mutates nothing; the applier commits its result atomically.

use vstd::prelude::*;
use crate::account::Account;
use crate::types::{AccountOperation, AccountOperationResult, AccountState, OperationState,
    TransactionError};

verus! {

/// Whether a mathematical balance still fits the fixed-point
/// representation.
pub open spec fn fits_amount(x: int) -> bool {
    i64::MIN <= x <= i64::MAX
}

/// The transition table. Rejections carry the reason; everything not
/// listed is an illegal state transition. Balances are exact integer
/// sums; a sum that leaves the representable range is rejected rather
/// than wrapped.
pub open spec fn spec_process_operation(
    state: AccountState,
    op_to_modify: Option<OperationState>,
    op: AccountOperation,
) -> Result<AccountOperationResult, TransactionError> {
    match (state, op_to_modify, op) {
        (AccountState::Locked { .. }, _, _) => Err(TransactionError::AccountLocked),
        (
            AccountState::Open { available, held },
            Option::None,
            AccountOperation::Deposit { amount },
        ) => if fits_amount(available + amount) {
            Ok(AccountOperationResult::AppendOperation {
                state: AccountState::Open { available: (available + amount) as i64, held },
                op: OperationState::RegularDeposit { amount },
            })
        } else {
            Err(TransactionError::BalanceOverflow)
        },
        (
            AccountState::Open { available, held },
            Option::None,
            AccountOperation::Withdrawal { amount },
        ) => if amount > available {
            Err(TransactionError::InsufficientFunds)
        } else if fits_amount(available - amount) {
            Ok(AccountOperationResult::AppendOperation {
                state: AccountState::Open { available: (available - amount) as i64, held },
                op: OperationState::AfterWithdrawal,
            })
        } else {
            Err(TransactionError::BalanceOverflow)
        },
        (
            AccountState::Open { available, held },
            Option::Some(OperationState::RegularDeposit { amount }),
            AccountOperation::Dispute,
        ) => if fits_amount(available - amount) && fits_amount(held + amount) {
            Ok(AccountOperationResult::ModifyOperation {
                state: AccountState::Open {
                    available: (available - amount) as i64,
                    held: (held + amount) as i64,
                },
                op: OperationState::DisputedDeposit { amount },
            })
        } else {
            Err(TransactionError::BalanceOverflow)
        },
        (
            AccountState::Open { available, held },
            Option::Some(OperationState::DisputedDeposit { amount }),
            AccountOperation::Resolve,
        ) => if fits_amount(available + amount) && fits_amount(held - amount) {
            Ok(AccountOperationResult::ModifyOperation {
                state: AccountState::Open {
                    available: (available + amount) as i64,
                    held: (held - amount) as i64,
                },
                op: OperationState::RegularDeposit { amount },
            })
        } else {
            Err(TransactionError::BalanceOverflow)
        },
        (
            AccountState::Open { available, held },
            Option::Some(OperationState::DisputedDeposit { amount }),
            AccountOperation::Chargeback,
        ) => if fits_amount(held - amount) {
            Ok(AccountOperationResult::ModifyOperation {
                state: AccountState::Locked { available, held: (held - amount) as i64 },
                op: OperationState::FinalDeposit,
            })
        } else {
            Err(TransactionError::BalanceOverflow)
        },
        _ => Err(TransactionError::IllegalStateTransition),
    }
}

/// The exact fixed-point sum, or `None` where it would leave the
/// representable range.
fn add_amounts(x: i64, y: i64) -> (r: Option<i64>)
    ensures
        fits_amount(x + y) ==> r == Some((x + y) as i64),
        !fits_amount(x + y) ==> r is None,
{
    let s: i128 = x as i128 + y as i128;
    if s < i64::MIN as i128 || s > i64::MAX as i128 {
        None
    } else {
        Some(s as i64)
    }
}

/// The exact fixed-point difference, or `None` where it would leave
/// the representable range.
fn sub_amounts(x: i64, y: i64) -> (r: Option<i64>)
    ensures
        fits_amount(x - y) ==> r == Some((x - y) as i64),
        !fits_amount(x - y) ==> r is None,
{
    let s: i128 = x as i128 - y as i128;
    if s < i64::MIN as i128 || s > i64::MAX as i128 {
        None
    } else {
        Some(s as i64)
    }
}

/// Validates one event against one account and, on success, describes
/// the new account state and the operation record to commit. Reads the
/// account only; the caller applies the result, so a rejection leaves
/// the account untouched by construction.
pub fn process_operation(
    op: AccountOperation,
    op_to_modify: Option<OperationState>,
    a: &Account,
) -> (r: Result<AccountOperationResult, TransactionError>)
    ensures
        r == spec_process_operation(a.state, op_to_modify, op),
{
    match (&a.state, op_to_modify, op) {
        (AccountState::Locked { .. }, _, _) => Err(TransactionError::AccountLocked),
        (
            AccountState::Open { available, held },
            Option::None,
            AccountOperation::Deposit { amount },
        ) => match add_amounts(*available, amount) {
            Some(new_available) => Ok(AccountOperationResult::AppendOperation {
                state: AccountState::Open { available: new_available, held: *held },
                op: OperationState::RegularDeposit { amount },
            }),
            None => Err(TransactionError::BalanceOverflow),
        },
        (
            AccountState::Open { available, held },
            Option::None,
            AccountOperation::Withdrawal { amount },
        ) => if amount > *available {
            Err(TransactionError::InsufficientFunds)
        } else {
            match sub_amounts(*available, amount) {
                Some(new_available) => Ok(AccountOperationResult::AppendOperation {
                    state: AccountState::Open { available: new_available, held: *held },
                    op: OperationState::AfterWithdrawal,
                }),
                None => Err(TransactionError::BalanceOverflow),
            }
        },
        (
            AccountState::Open { available, held },
            Option::Some(OperationState::RegularDeposit { amount }),
            AccountOperation::Dispute,
        ) => match (sub_amounts(*available, amount), add_amounts(*held, amount)) {
            (Some(new_available), Some(new_held)) => Ok(AccountOperationResult::ModifyOperation {
                state: AccountState::Open { available: new_available, held: new_held },
                op: OperationState::DisputedDeposit { amount },
            }),
            _ => Err(TransactionError::BalanceOverflow),
        },
        (
            AccountState::Open { available, held },
            Option::Some(OperationState::DisputedDeposit { amount }),
            AccountOperation::Resolve,
        ) => match (add_amounts(*available, amount), sub_amounts(*held, amount)) {
            (Some(new_available), Some(new_held)) => Ok(AccountOperationResult::ModifyOperation {
                state: AccountState::Open { available: new_available, held: new_held },
                op: OperationState::RegularDeposit { amount },
            }),
            _ => Err(TransactionError::BalanceOverflow),
        },
        (
            AccountState::Open { available, held },
            Option::Some(OperationState::DisputedDeposit { amount }),
            AccountOperation::Chargeback,
        ) => match sub_amounts(*held, amount) {
            Some(new_held) => Ok(AccountOperationResult::ModifyOperation {
                state: AccountState::Locked { available: *available, held: new_held },
                op: OperationState::FinalDeposit,
            }),
            None => Err(TransactionError::BalanceOverflow),
        },
        _ => Err(TransactionError::IllegalStateTransition),
    }
}

} // verus!
