//! The guarantees the engine gives, stated and proved once for all
//! inputs: what a deposit does, when a withdrawal is refused, that a
//! dispute followed by a resolve restores the account exactly, that a
//! locked account is frozen, and that every rejection leaves the
//! account untouched.

use vstd::prelude::*;
use crate::account::AccountModel;
use crate::dispatch::spec_process_transaction;
use crate::transition::{fits_amount, spec_process_operation};
use crate::types::{AccountOperation, AccountOperationResult, AccountState, OperationState,
    TransactionError};

verus! {

/// The five event labels are pairwise distinct character sequences.
proof fn lemma_labels_distinct()
    ensures
        "deposit"@ != "withdrawal"@,
        "deposit"@ != "dispute"@,
        "deposit"@ != "resolve"@,
        "deposit"@ != "chargeback"@,
        "withdrawal"@ != "dispute"@,
        "withdrawal"@ != "resolve"@,
        "withdrawal"@ != "chargeback"@,
        "dispute"@ != "resolve"@,
        "dispute"@ != "chargeback"@,
        "resolve"@ != "chargeback"@,
{
    reveal_strlit("deposit");
    reveal_strlit("withdrawal");
    reveal_strlit("dispute");
    reveal_strlit("resolve");
    reveal_strlit("chargeback");
    assert("deposit"@.len() == 7);
    assert("withdrawal"@.len() == 10);
    assert("dispute"@.len() == 7);
    assert("resolve"@.len() == 7);
    assert("chargeback"@.len() == 10);
    assert("deposit"@[1] == 'e' && "dispute"@[1] == 'i');
    assert("deposit"@[0] == 'd' && "resolve"@[0] == 'r');
    assert("dispute"@[0] == 'd');
    assert("withdrawal"@[0] == 'w' && "chargeback"@[0] == 'c');
}

/// Depositing `amount > 0` into `Open { available, held }` appends a
/// regular deposit record and yields `Open { available + amount, held }`:
/// the held funds and the lock state are untouched. Holds whenever the
/// new balance still fits the fixed-point range.
pub proof fn lemma_deposit_monotonic(available: i64, held: i64, amount: i64)
    requires
        amount > 0,
        fits_amount(available + amount),
    ensures
        spec_process_operation(
            AccountState::Open { available, held },
            None,
            AccountOperation::Deposit { amount },
        ) == Ok::<AccountOperationResult, TransactionError>(
            AccountOperationResult::AppendOperation {
                state: AccountState::Open { available: (available + amount) as i64, held },
                op: OperationState::RegularDeposit { amount },
            },
        ),
{
}

/// A withdrawal of more than the available funds is rejected as
/// insufficient, and the account comes back exactly as it was.
pub proof fn lemma_withdrawal_guard(
    m: AccountModel,
    uid: u32,
    available: i64,
    held: i64,
    amount: i64,
)
    requires
        m.state == (AccountState::Open { available, held }),
        amount > available,
        !m.oplog.contains_key(uid),
    ensures
        spec_process_transaction("withdrawal"@, uid, amount, m).0 == m,
        spec_process_transaction("withdrawal"@, uid, amount, m).1 == Err::<(), TransactionError>(
            TransactionError::InsufficientFunds,
        ),
{
    lemma_labels_distinct();
}

/// Disputing a regular deposit and then resolving the dispute returns
/// the account to exactly the state it had before the dispute: both
/// balances restored, and the record a regular deposit of the same
/// amount again. Holds whenever the dispute's balance moves fit the
/// fixed-point range; the amounts carried by the dispute and resolve
/// rows themselves are ignored.
pub proof fn lemma_dispute_resolve_round_trip(
    m: AccountModel,
    uid: u32,
    available: i64,
    held: i64,
    amount: i64,
    row_amount1: i64,
    row_amount2: i64,
)
    requires
        m.state == (AccountState::Open { available, held }),
        m.oplog.contains_key(uid),
        m.oplog[uid] == (OperationState::RegularDeposit { amount }),
        fits_amount(available - amount),
        fits_amount(held + amount),
    ensures
        spec_process_transaction("dispute"@, uid, row_amount1, m).1 == Ok::<(), TransactionError>(
            (),
        ),
        spec_process_transaction(
            "resolve"@,
            uid,
            row_amount2,
            spec_process_transaction("dispute"@, uid, row_amount1, m).0,
        ).1 == Ok::<(), TransactionError>(()),
        spec_process_transaction(
            "resolve"@,
            uid,
            row_amount2,
            spec_process_transaction("dispute"@, uid, row_amount1, m).0,
        ).0 == m,
{
    lemma_labels_distinct();
    let m1 = spec_process_transaction("dispute"@, uid, row_amount1, m).0;
    let m2 = spec_process_transaction("resolve"@, uid, row_amount2, m1).0;
    assert(m2.oplog =~= m.oplog);
    assert(m2 =~= m);
}

/// The transition function rejects every event against a locked
/// account, whatever record is referenced.
pub proof fn lemma_locked_rejects_operation(
    available: i64,
    held: i64,
    op_to_modify: Option<OperationState>,
    op: AccountOperation,
)
    ensures
        spec_process_operation(
            AccountState::Locked { available, held },
            op_to_modify,
            op,
        ) == Err::<AccountOperationResult, TransactionError>(TransactionError::AccountLocked),
{
}

/// A locked account is frozen: whatever row arrives, the dispatcher
/// rejects it and the account, state and log alike, is unchanged.
pub proof fn lemma_locked_account_frozen(t: Seq<char>, uid: u32, amount: i64, m: AccountModel)
    requires
        m.state is Locked,
    ensures
        spec_process_transaction(t, uid, amount, m).0 == m,
        spec_process_transaction(t, uid, amount, m).1 is Err,
{
}

/// Every rejection is local and leaves the account exactly as it was;
/// only accepted rows change it.
pub proof fn lemma_rejection_preserves_account(t: Seq<char>, uid: u32, amount: i64, m: AccountModel)
    ensures
        spec_process_transaction(t, uid, amount, m).1 is Err ==> spec_process_transaction(
            t,
            uid,
            amount,
            m,
        ).0 == m,
{
}

/// A deposit or withdrawal whose transaction id is already in the log
/// is rejected as a duplicate, and the account is unchanged.
pub proof fn lemma_duplicate_id_rejected(t: Seq<char>, uid: u32, amount: i64, m: AccountModel)
    requires
        t == "deposit"@ || t == "withdrawal"@,
        m.oplog.contains_key(uid),
    ensures
        spec_process_transaction(t, uid, amount, m).0 == m,
        spec_process_transaction(t, uid, amount, m).1 == Err::<(), TransactionError>(
            TransactionError::DuplicateTransactionId,
        ),
{
    lemma_labels_distinct();
}

/// A dispute, resolve or chargeback referencing a transaction id never
/// seen is rejected, and the account is unchanged.
pub proof fn lemma_unknown_reference_rejected(t: Seq<char>, uid: u32, amount: i64, m: AccountModel)
    requires
        t == "dispute"@ || t == "resolve"@ || t == "chargeback"@,
        !m.oplog.contains_key(uid),
    ensures
        spec_process_transaction(t, uid, amount, m).0 == m,
        spec_process_transaction(t, uid, amount, m).1 == Err::<(), TransactionError>(
            TransactionError::TransactionNotFound,
        ),
{
    lemma_labels_distinct();
}

} // verus!
