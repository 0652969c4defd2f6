//! The dispatcher and the applier. The dispatcher classifies an
//! incoming row by its label, enforces that a deposit or withdrawal
//! carries a fresh transaction id and that a dispute, resolve or
//! chargeback references a known one, runs the transition function and
//! commits its result. The applier writes a transition result into the
//! account.

use vstd::prelude::*;
use crate::account::{Account, AccountModel};
use crate::transition::{process_operation, spec_process_operation};
use crate::types::{AccountOperation, AccountOperationResult, OperationState, TransactionError};

verus! {

broadcast use vstd::std_specs::hash::group_hash_axioms;

/// One row of the input, already split into plain fields: the event
/// label, the client id, the transaction id and the amount in minor
/// units. Rows without an amount carry zero; no event that lacks one
/// reads it.
#[derive(Debug)]
pub struct TransactionEntry {
    pub t: String,
    pub client_id: u16,
    pub uid: u32,
    pub amount: i64,
}

/// What committing a transition result does to an account: an append
/// inserts the record under the transaction id, a modify overwrites
/// the record already there. A modify whose id is absent (unreachable
/// through the dispatcher) leaves the log alone; the state is written
/// either way.
pub open spec fn spec_apply_result(
    result: AccountOperationResult,
    tx_id: u32,
    m: AccountModel,
) -> AccountModel {
    match result {
        AccountOperationResult::AppendOperation { state, op } => AccountModel {
            state,
            oplog: m.oplog.insert(tx_id, op),
        },
        AccountOperationResult::ModifyOperation { state, op } => AccountModel {
            state,
            oplog: if m.oplog.contains_key(tx_id) {
                m.oplog.insert(tx_id, op)
            } else {
                m.oplog
            },
        },
    }
}

/// The dispatch step for a deposit or withdrawal: the transaction id
/// must be fresh, then the transition's result is committed.
pub open spec fn spec_dispatch_fresh(
    op: AccountOperation,
    uid: u32,
    m: AccountModel,
) -> (AccountModel, Result<(), TransactionError>) {
    if m.oplog.contains_key(uid) {
        (m, Err(TransactionError::DuplicateTransactionId))
    } else {
        match spec_process_operation(m.state, None, op) {
            Ok(res) => (spec_apply_result(res, uid, m), Ok(())),
            Err(e) => (m, Err(e)),
        }
    }
}

/// The dispatch step for a dispute, resolve or chargeback: the
/// transaction id must already be in the log; its current record is
/// handed to the transition function as the referenced record.
pub open spec fn spec_dispatch_referencing(
    op: AccountOperation,
    uid: u32,
    m: AccountModel,
) -> (AccountModel, Result<(), TransactionError>) {
    if !m.oplog.contains_key(uid) {
        (m, Err(TransactionError::TransactionNotFound))
    } else {
        match spec_process_operation(m.state, Some(m.oplog[uid]), op) {
            Ok(res) => (spec_apply_result(res, uid, m), Ok(())),
            Err(e) => (m, Err(e)),
        }
    }
}

/// The whole dispatch: what one row does to one account, and what it
/// returns. On every rejection the account comes back unchanged.
pub open spec fn spec_process_transaction(
    t: Seq<char>,
    uid: u32,
    amount: i64,
    m: AccountModel,
) -> (AccountModel, Result<(), TransactionError>) {
    if t == "deposit"@ {
        spec_dispatch_fresh(AccountOperation::Deposit { amount }, uid, m)
    } else if t == "withdrawal"@ {
        spec_dispatch_fresh(AccountOperation::Withdrawal { amount }, uid, m)
    } else if t == "dispute"@ {
        spec_dispatch_referencing(AccountOperation::Dispute, uid, m)
    } else if t == "resolve"@ {
        spec_dispatch_referencing(AccountOperation::Resolve, uid, m)
    } else if t == "chargeback"@ {
        spec_dispatch_referencing(AccountOperation::Chargeback, uid, m)
    } else {
        (m, Err(TransactionError::UnknownTransactionType))
    }
}

/// Commits a transition result: overwrites the account state and
/// inserts or overwrites the operation record under the transaction
/// id.
pub fn apply_result_to_account(
    result: AccountOperationResult,
    tx_id: u32,
    a: &mut Account,
) -> (r: Result<(), TransactionError>)
    ensures
        final(a)@ == spec_apply_result(result, tx_id, old(a)@),
        r == Ok::<(), TransactionError>(()),
{
    match result {
        AccountOperationResult::AppendOperation { state, op } => {
            a.state = state;
            a.oplog.insert(tx_id, op);
            Ok(())
        },
        AccountOperationResult::ModifyOperation { state, op } => {
            a.state = state;
            if a.oplog.contains_key(&tx_id) {
                a.oplog.insert(tx_id, op);
            }
            Ok(())
        },
    }
}

/// Whether the row's transaction id is already in the account's log.
pub fn is_transaction_in_log(tx: &TransactionEntry, a: &Account) -> (r: bool)
    ensures
        r == a@.oplog.contains_key(tx.uid),
{
    a.oplog.contains_key(&tx.uid)
}

/// Applies one row to one account: classifies the label, enforces the
/// id precondition, runs the transition function and commits its
/// result. Any rejection leaves the account exactly as it was.
pub fn process_transaction(tx: TransactionEntry, a: &mut Account) -> (r: Result<
    (),
    TransactionError,
>)
    ensures
        final(a)@ == spec_process_transaction(tx.t@, tx.uid, tx.amount, old(a)@).0,
        r == spec_process_transaction(tx.t@, tx.uid, tx.amount, old(a)@).1,
{
    let result: AccountOperationResult;
    if tx.t == "deposit".to_owned() {
        if is_transaction_in_log(&tx, a) {
            return Err(TransactionError::DuplicateTransactionId);
        }
        match process_operation(AccountOperation::Deposit { amount: tx.amount }, None, a) {
            Ok(res) => {
                result = res;
            },
            Err(e) => {
                return Err(e);
            },
        }
    } else if tx.t == "withdrawal".to_owned() {
        if is_transaction_in_log(&tx, a) {
            return Err(TransactionError::DuplicateTransactionId);
        }
        match process_operation(AccountOperation::Withdrawal { amount: tx.amount }, None, a) {
            Ok(res) => {
                result = res;
            },
            Err(e) => {
                return Err(e);
            },
        }
    } else if tx.t == "dispute".to_owned() {
        match referenced_record(&tx, a) {
            Ok(rec) => match process_operation(AccountOperation::Dispute, Some(rec), a) {
                Ok(res) => {
                    result = res;
                },
                Err(e) => {
                    return Err(e);
                },
            },
            Err(e) => {
                return Err(e);
            },
        }
    } else if tx.t == "resolve".to_owned() {
        match referenced_record(&tx, a) {
            Ok(rec) => match process_operation(AccountOperation::Resolve, Some(rec), a) {
                Ok(res) => {
                    result = res;
                },
                Err(e) => {
                    return Err(e);
                },
            },
            Err(e) => {
                return Err(e);
            },
        }
    } else if tx.t == "chargeback".to_owned() {
        match referenced_record(&tx, a) {
            Ok(rec) => match process_operation(AccountOperation::Chargeback, Some(rec), a) {
                Ok(res) => {
                    result = res;
                },
                Err(e) => {
                    return Err(e);
                },
            },
            Err(e) => {
                return Err(e);
            },
        }
    } else {
        return Err(TransactionError::UnknownTransactionType);
    }
    apply_result_to_account(result, tx.uid, a)
}

/// Looks up the record the row references, or reports that the id was
/// never seen.
fn referenced_record(tx: &TransactionEntry, a: &Account) -> (r: Result<
    OperationState,
    TransactionError,
>)
    ensures
        a@.oplog.contains_key(tx.uid) ==> r == Ok::<_, TransactionError>(a@.oplog[tx.uid]),
        !a@.oplog.contains_key(tx.uid) ==> r == Err::<OperationState, _>(
            TransactionError::TransactionNotFound,
        ),
{
    match a.oplog.get(&tx.uid) {
        Some(rec) => Ok(*rec),
        None => Err(TransactionError::TransactionNotFound),
    }
}

} // verus!
