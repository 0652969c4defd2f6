//! The data model: operation records, account states, incoming events,
//! rejection reasons, and the account itself with its operation log.

use vstd::prelude::*;

verus! {

/// The durable per-transaction record: what the transaction id
/// currently points to, kept so that later dispute, resolve and
/// chargeback events can be validated against the exact prior state.
#[derive(Clone, Copy, Debug, PartialEq, Eq, Structural)]
pub enum OperationState {
    /// A deposit currently counted in available funds (fresh, or
    /// un-disputed again after a resolve).
    RegularDeposit { amount: i64 },
    /// A deposit currently held, awaiting resolve or chargeback.
    DisputedDeposit { amount: i64 },
    /// A deposit that has been charged back; terminal.
    FinalDeposit,
    /// A completed withdrawal; terminal, never referenceable.
    AfterWithdrawal,
}

/// One client's balance state. `available` and `held` are fixed-point
/// minor units; a chargeback that follows a withdrawal of the disputed
/// funds may legitimately drive `available` negative.
#[derive(Clone, Copy, Debug, PartialEq, Eq, Structural)]
pub enum AccountState {
    Open { available: i64, held: i64 },
    Locked { available: i64, held: i64 },
}

/// An incoming event, as the dispatcher hands it to the transition
/// function (the client and transaction ids travel separately).
#[derive(Clone, Copy, Debug, PartialEq, Eq, Structural)]
pub enum AccountOperation {
    Deposit { amount: i64 },
    Withdrawal { amount: i64 },
    Dispute,
    Resolve,
    Chargeback,
}

/// Why an event was rejected. Every rejection is local to its row: the
/// account and the ledger are left exactly as they were.
#[derive(Clone, Copy, Debug, PartialEq, Eq, Structural)]
pub enum TransactionError {
    /// The account has undergone a chargeback; it rejects everything.
    AccountLocked,
    /// A withdrawal asked for more than the available funds.
    InsufficientFunds,
    /// A deposit or withdrawal reused a transaction id already in the log.
    DuplicateTransactionId,
    /// A dispute, resolve or chargeback referenced an id never seen.
    TransactionNotFound,
    /// The referenced record is in the wrong state for the event.
    IllegalStateTransition,
    /// The event label is none of the five known ones.
    UnknownTransactionType,
    /// The new balance would leave the fixed-point range.
    BalanceOverflow,
}

impl TransactionError {
    /// A human-readable reason, for the diagnostic stream.
    pub fn message(&self) -> (r: &'static str)
        ensures
            r@ == self.spec_message(),
    {
        match self {
            TransactionError::AccountLocked => "the account is locked",
            TransactionError::InsufficientFunds => "insufficient funds",
            TransactionError::DuplicateTransactionId => "duplicate transaction id",
            TransactionError::TransactionNotFound => "transaction not found in log",
            TransactionError::IllegalStateTransition => "illegal state transition",
            TransactionError::UnknownTransactionType => "unknown transaction type",
            TransactionError::BalanceOverflow => "balance out of range",
        }
    }

    pub open spec fn spec_message(self) -> Seq<char> {
        match self {
            TransactionError::AccountLocked => "the account is locked"@,
            TransactionError::InsufficientFunds => "insufficient funds"@,
            TransactionError::DuplicateTransactionId => "duplicate transaction id"@,
            TransactionError::TransactionNotFound => "transaction not found in log"@,
            TransactionError::IllegalStateTransition => "illegal state transition"@,
            TransactionError::UnknownTransactionType => "unknown transaction type"@,
            TransactionError::BalanceOverflow => "balance out of range"@,
        }
    }
}

/// The outcome of a successful transition: the new account state, and
/// an operation record to append under a fresh transaction id or to
/// write over the referenced one.
#[derive(Clone, Copy, Debug, PartialEq, Eq, Structural)]
pub enum AccountOperationResult {
    AppendOperation { state: AccountState, op: OperationState },
    ModifyOperation { state: AccountState, op: OperationState },
}

} // verus!
