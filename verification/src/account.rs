//! The account: one client's balance state together with its operation
//! log, a map from transaction id to the current operation record.

use vstd::prelude::*;
use std::collections::HashMap;
use crate::types::{AccountState, OperationState};

verus! {

broadcast use vstd::std_specs::hash::group_hash_axioms;

/// The mathematical model of an account: its state and the contents of
/// its operation log.
#[verifier::ext_equal]
pub ghost struct AccountModel {
    pub state: AccountState,
    pub oplog: Map<u32, OperationState>,
}

/// One client's account: the current balance state plus the log that
/// records, per transaction id, the operation record later events may
/// reference.
#[derive(Debug)]
pub struct Account {
    pub state: AccountState,
    pub oplog: HashMap<u32, OperationState>,
}

impl View for Account {
    type V = AccountModel;

    open spec fn view(&self) -> AccountModel {
        AccountModel { state: self.state, oplog: self.oplog@ }
    }
}

impl Account {
    /// A fresh account, as the ledger creates it the first time a
    /// client id is referenced: open, both balances zero, empty log.
    pub fn new() -> (a: Account)
        ensures
            a@ == AccountModel::empty(),
    {
        let a = Account { state: AccountState::Open { available: 0, held: 0 }, oplog: HashMap::new() };
        proof {
            assert(a@ =~= AccountModel::empty());
        }
        a
    }
}

impl AccountModel {
    /// The model of a fresh account.
    pub open spec fn empty() -> AccountModel {
        AccountModel {
            state: AccountState::Open { available: 0, held: 0 },
            oplog: Map::empty(),
        }
    }
}

} // verus!
