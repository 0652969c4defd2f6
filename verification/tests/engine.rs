// The account state machine, exercised row by row: every transition of
// the table, every rejection reason, and the documented edge cases.
// Amounts are fixed-point minor units: 10.0 currency units are 100_000.

use payments::account::Account;
use payments::dispatch::{apply_result_to_account, is_transaction_in_log, process_transaction,
    TransactionEntry};
use payments::transition::process_operation;
use payments::types::{AccountOperation, AccountOperationResult, AccountState, OperationState,
    TransactionError};

fn entry(t: &str, client_id: u16, uid: u32, amount: i64) -> TransactionEntry {
    TransactionEntry { t: t.to_owned(), client_id, uid, amount }
}

#[test]
fn deposit_increases_available() {
    let mut a = Account::new();
    let r = process_transaction(entry("deposit", 1, 1, 100_000), &mut a);
    assert_eq!(r, Ok(()));
    assert_eq!(a.state, AccountState::Open { available: 100_000, held: 0 });
    assert_eq!(a.oplog.get(&1), Some(&OperationState::RegularDeposit { amount: 100_000 }));
}

#[test]
fn deposit_keeps_held_untouched() {
    let mut a = Account::new();
    assert_eq!(process_transaction(entry("deposit", 1, 1, 100_000), &mut a), Ok(()));
    assert_eq!(process_transaction(entry("dispute", 1, 1, 0), &mut a), Ok(()));
    assert_eq!(process_transaction(entry("deposit", 1, 2, 30_000), &mut a), Ok(()));
    assert_eq!(a.state, AccountState::Open { available: 30_000, held: 100_000 });
}

#[test]
fn withdrawal_insufficient_funds_rejected() {
    let mut a = Account::new();
    assert_eq!(process_transaction(entry("deposit", 1, 1, 50_000), &mut a), Ok(()));
    let r = process_transaction(entry("withdrawal", 1, 2, 100_000), &mut a);
    assert_eq!(r, Err(TransactionError::InsufficientFunds));
    assert_eq!(a.state, AccountState::Open { available: 50_000, held: 0 });
    assert!(!a.oplog.contains_key(&2));
}

#[test]
fn withdrawal_of_exact_balance_succeeds() {
    let mut a = Account::new();
    assert_eq!(process_transaction(entry("deposit", 1, 1, 50_000), &mut a), Ok(()));
    assert_eq!(process_transaction(entry("withdrawal", 1, 2, 50_000), &mut a), Ok(()));
    assert_eq!(a.state, AccountState::Open { available: 0, held: 0 });
    assert_eq!(a.oplog.get(&2), Some(&OperationState::AfterWithdrawal));
}

#[test]
fn dispute_resolve_round_trip() {
    let mut a = Account::new();
    assert_eq!(process_transaction(entry("deposit", 1, 1, 100_000), &mut a), Ok(()));
    let after_deposit_state = a.state;
    assert_eq!(process_transaction(entry("dispute", 1, 1, 0), &mut a), Ok(()));
    assert_eq!(a.state, AccountState::Open { available: 0, held: 100_000 });
    assert_eq!(a.oplog.get(&1), Some(&OperationState::DisputedDeposit { amount: 100_000 }));
    assert_eq!(process_transaction(entry("resolve", 1, 1, 0), &mut a), Ok(()));
    assert_eq!(a.state, after_deposit_state);
    assert_eq!(a.state, AccountState::Open { available: 100_000, held: 0 });
    assert_eq!(a.oplog.get(&1), Some(&OperationState::RegularDeposit { amount: 100_000 }));
}

#[test]
fn chargeback_locks_account() {
    let mut a = Account::new();
    assert_eq!(process_transaction(entry("deposit", 1, 1, 100_000), &mut a), Ok(()));
    assert_eq!(process_transaction(entry("dispute", 1, 1, 0), &mut a), Ok(()));
    assert_eq!(process_transaction(entry("chargeback", 1, 1, 0), &mut a), Ok(()));
    assert_eq!(a.state, AccountState::Locked { available: 0, held: 0 });
    assert_eq!(a.oplog.get(&1), Some(&OperationState::FinalDeposit));
    // Every later event of every kind is rejected and changes nothing.
    assert_eq!(
        process_transaction(entry("deposit", 1, 2, 10_000), &mut a),
        Err(TransactionError::AccountLocked)
    );
    assert_eq!(
        process_transaction(entry("withdrawal", 1, 3, 10_000), &mut a),
        Err(TransactionError::AccountLocked)
    );
    assert_eq!(
        process_transaction(entry("dispute", 1, 1, 0), &mut a),
        Err(TransactionError::AccountLocked)
    );
    assert_eq!(
        process_transaction(entry("resolve", 1, 1, 0), &mut a),
        Err(TransactionError::AccountLocked)
    );
    assert_eq!(
        process_transaction(entry("chargeback", 1, 1, 0), &mut a),
        Err(TransactionError::AccountLocked)
    );
    assert_eq!(a.state, AccountState::Locked { available: 0, held: 0 });
    assert!(!a.oplog.contains_key(&2));
}

#[test]
fn duplicate_deposit_id_rejected() {
    let mut a = Account::new();
    assert_eq!(process_transaction(entry("deposit", 1, 1, 50_000), &mut a), Ok(()));
    let r = process_transaction(entry("deposit", 1, 1, 30_000), &mut a);
    assert_eq!(r, Err(TransactionError::DuplicateTransactionId));
    assert_eq!(a.state, AccountState::Open { available: 50_000, held: 0 });
    assert_eq!(a.oplog.get(&1), Some(&OperationState::RegularDeposit { amount: 50_000 }));
}

#[test]
fn duplicate_withdrawal_id_rejected() {
    let mut a = Account::new();
    assert_eq!(process_transaction(entry("deposit", 1, 1, 50_000), &mut a), Ok(()));
    let r = process_transaction(entry("withdrawal", 1, 1, 10_000), &mut a);
    assert_eq!(r, Err(TransactionError::DuplicateTransactionId));
    assert_eq!(a.state, AccountState::Open { available: 50_000, held: 0 });
}

#[test]
fn unknown_reference_rejected() {
    let mut a = Account::new();
    let r = process_transaction(entry("dispute", 1, 99, 0), &mut a);
    assert_eq!(r, Err(TransactionError::TransactionNotFound));
    assert_eq!(a.state, AccountState::Open { available: 0, held: 0 });
    assert_eq!(process_transaction(entry("resolve", 1, 99, 0), &mut a),
        Err(TransactionError::TransactionNotFound));
    assert_eq!(process_transaction(entry("chargeback", 1, 99, 0), &mut a),
        Err(TransactionError::TransactionNotFound));
}

#[test]
fn unknown_transaction_type_rejected() {
    let mut a = Account::new();
    let r = process_transaction(entry("transfer", 1, 1, 10_000), &mut a);
    assert_eq!(r, Err(TransactionError::UnknownTransactionType));
    assert_eq!(a.state, AccountState::Open { available: 0, held: 0 });
    assert!(a.oplog.is_empty());
}

#[test]
fn dispute_of_withdrawal_rejected() {
    let mut a = Account::new();
    assert_eq!(process_transaction(entry("deposit", 1, 1, 50_000), &mut a), Ok(()));
    assert_eq!(process_transaction(entry("withdrawal", 1, 2, 20_000), &mut a), Ok(()));
    let r = process_transaction(entry("dispute", 1, 2, 0), &mut a);
    assert_eq!(r, Err(TransactionError::IllegalStateTransition));
    assert_eq!(a.state, AccountState::Open { available: 30_000, held: 0 });
}

#[test]
fn double_dispute_rejected() {
    let mut a = Account::new();
    assert_eq!(process_transaction(entry("deposit", 1, 1, 50_000), &mut a), Ok(()));
    assert_eq!(process_transaction(entry("dispute", 1, 1, 0), &mut a), Ok(()));
    let r = process_transaction(entry("dispute", 1, 1, 0), &mut a);
    assert_eq!(r, Err(TransactionError::IllegalStateTransition));
    assert_eq!(a.state, AccountState::Open { available: 0, held: 50_000 });
}

#[test]
fn resolve_without_dispute_rejected() {
    let mut a = Account::new();
    assert_eq!(process_transaction(entry("deposit", 1, 1, 50_000), &mut a), Ok(()));
    assert_eq!(
        process_transaction(entry("resolve", 1, 1, 0), &mut a),
        Err(TransactionError::IllegalStateTransition)
    );
    assert_eq!(
        process_transaction(entry("chargeback", 1, 1, 0), &mut a),
        Err(TransactionError::IllegalStateTransition)
    );
    assert_eq!(a.state, AccountState::Open { available: 50_000, held: 0 });
}

#[test]
fn dispute_after_withdrawal_can_drive_available_negative() {
    let mut a = Account::new();
    assert_eq!(process_transaction(entry("deposit", 1, 1, 50_000), &mut a), Ok(()));
    assert_eq!(process_transaction(entry("withdrawal", 1, 2, 50_000), &mut a), Ok(()));
    assert_eq!(process_transaction(entry("dispute", 1, 1, 0), &mut a), Ok(()));
    assert_eq!(a.state, AccountState::Open { available: -50_000, held: 50_000 });
    // A chargeback then removes the held funds and locks the account,
    // leaving the negative available balance standing.
    assert_eq!(process_transaction(entry("chargeback", 1, 1, 0), &mut a), Ok(()));
    assert_eq!(a.state, AccountState::Locked { available: -50_000, held: 0 });
}

#[test]
fn deposit_overflow_rejected() {
    let mut a = Account::new();
    assert_eq!(process_transaction(entry("deposit", 1, 1, i64::MAX), &mut a), Ok(()));
    let r = process_transaction(entry("deposit", 1, 2, 1), &mut a);
    assert_eq!(r, Err(TransactionError::BalanceOverflow));
    assert_eq!(a.state, AccountState::Open { available: i64::MAX, held: 0 });
    assert!(!a.oplog.contains_key(&2));
}

#[test]
fn transition_table_locked_rejects_everything() {
    let locked = Account {
        state: AccountState::Locked { available: 10, held: 20 },
        oplog: std::collections::HashMap::new(),
    };
    for op in [
        AccountOperation::Deposit { amount: 5 },
        AccountOperation::Withdrawal { amount: 5 },
        AccountOperation::Dispute,
        AccountOperation::Resolve,
        AccountOperation::Chargeback,
    ] {
        assert_eq!(
            process_operation(op, None, &locked),
            Err(TransactionError::AccountLocked)
        );
        assert_eq!(
            process_operation(op, Some(OperationState::RegularDeposit { amount: 5 }), &locked),
            Err(TransactionError::AccountLocked)
        );
    }
}

#[test]
fn transition_table_open_rows() {
    let open = Account {
        state: AccountState::Open { available: 70_000, held: 10_000 },
        oplog: std::collections::HashMap::new(),
    };
    assert_eq!(
        process_operation(AccountOperation::Deposit { amount: 20_000 }, None, &open),
        Ok(AccountOperationResult::AppendOperation {
            state: AccountState::Open { available: 90_000, held: 10_000 },
            op: OperationState::RegularDeposit { amount: 20_000 },
        })
    );
    assert_eq!(
        process_operation(AccountOperation::Withdrawal { amount: 20_000 }, None, &open),
        Ok(AccountOperationResult::AppendOperation {
            state: AccountState::Open { available: 50_000, held: 10_000 },
            op: OperationState::AfterWithdrawal,
        })
    );
    assert_eq!(
        process_operation(
            AccountOperation::Dispute,
            Some(OperationState::RegularDeposit { amount: 30_000 }),
            &open,
        ),
        Ok(AccountOperationResult::ModifyOperation {
            state: AccountState::Open { available: 40_000, held: 40_000 },
            op: OperationState::DisputedDeposit { amount: 30_000 },
        })
    );
    assert_eq!(
        process_operation(
            AccountOperation::Resolve,
            Some(OperationState::DisputedDeposit { amount: 10_000 }),
            &open,
        ),
        Ok(AccountOperationResult::ModifyOperation {
            state: AccountState::Open { available: 80_000, held: 0 },
            op: OperationState::RegularDeposit { amount: 10_000 },
        })
    );
    assert_eq!(
        process_operation(
            AccountOperation::Chargeback,
            Some(OperationState::DisputedDeposit { amount: 10_000 }),
            &open,
        ),
        Ok(AccountOperationResult::ModifyOperation {
            state: AccountState::Locked { available: 70_000, held: 0 },
            op: OperationState::FinalDeposit,
        })
    );
    // Catch-all rows: the referenced record is in the wrong state.
    assert_eq!(
        process_operation(
            AccountOperation::Dispute,
            Some(OperationState::FinalDeposit),
            &open,
        ),
        Err(TransactionError::IllegalStateTransition)
    );
    assert_eq!(
        process_operation(
            AccountOperation::Resolve,
            Some(OperationState::RegularDeposit { amount: 10_000 }),
            &open,
        ),
        Err(TransactionError::IllegalStateTransition)
    );
    assert_eq!(
        process_operation(
            AccountOperation::Chargeback,
            Some(OperationState::AfterWithdrawal),
            &open,
        ),
        Err(TransactionError::IllegalStateTransition)
    );
}

#[test]
fn applier_append_and_modify() {
    let mut a = Account::new();
    assert_eq!(
        apply_result_to_account(
            AccountOperationResult::AppendOperation {
                state: AccountState::Open { available: 10_000, held: 0 },
                op: OperationState::RegularDeposit { amount: 10_000 },
            },
            7,
            &mut a,
        ),
        Ok(())
    );
    assert_eq!(a.oplog.get(&7), Some(&OperationState::RegularDeposit { amount: 10_000 }));
    assert_eq!(
        apply_result_to_account(
            AccountOperationResult::ModifyOperation {
                state: AccountState::Open { available: 0, held: 10_000 },
                op: OperationState::DisputedDeposit { amount: 10_000 },
            },
            7,
            &mut a,
        ),
        Ok(())
    );
    assert_eq!(a.oplog.get(&7), Some(&OperationState::DisputedDeposit { amount: 10_000 }));
    // A modify whose id is absent updates the state and silently leaves
    // the log alone.
    assert_eq!(
        apply_result_to_account(
            AccountOperationResult::ModifyOperation {
                state: AccountState::Open { available: 1, held: 2 },
                op: OperationState::FinalDeposit,
            },
            8,
            &mut a,
        ),
        Ok(())
    );
    assert_eq!(a.state, AccountState::Open { available: 1, held: 2 });
    assert!(!a.oplog.contains_key(&8));
}

#[test]
fn transaction_in_log_lookup() {
    let mut a = Account::new();
    assert!(!is_transaction_in_log(&entry("dispute", 1, 4, 0), &a));
    assert_eq!(process_transaction(entry("deposit", 1, 4, 10_000), &mut a), Ok(()));
    assert!(is_transaction_in_log(&entry("dispute", 1, 4, 0), &a));
}

#[test]
fn error_messages_are_stable() {
    assert_eq!(TransactionError::AccountLocked.message(), "the account is locked");
    assert_eq!(TransactionError::InsufficientFunds.message(), "insufficient funds");
    assert_eq!(TransactionError::DuplicateTransactionId.message(), "duplicate transaction id");
    assert_eq!(TransactionError::TransactionNotFound.message(), "transaction not found in log");
    assert_eq!(TransactionError::IllegalStateTransition.message(), "illegal state transition");
    assert_eq!(TransactionError::UnknownTransactionType.message(), "unknown transaction type");
    assert_eq!(TransactionError::BalanceOverflow.message(), "balance out of range");
}
