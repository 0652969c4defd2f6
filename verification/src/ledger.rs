//! The ledger: every account, keyed by client id, created empty on
//! first reference, together with the final report rows.

use vstd::prelude::*;
use std::collections::HashMap;
use crate::account::{Account, AccountModel};
use crate::dispatch::{process_transaction, spec_process_transaction, TransactionEntry};
use crate::types::{AccountState, TransactionError};

verus! {

broadcast use vstd::std_specs::hash::group_hash_axioms;

/// All accounts, keyed by client id. `clients` lists every client id
/// ever referenced, in order of first reference and without repeats,
/// so the final report comes out in a stable order.
#[derive(Debug)]
pub struct Ledger {
    pub accounts: HashMap<u16, Account>,
    pub clients: Vec<u16>,
}

/// One line of the final report: the client id, the balances in minor
/// units, their exact sum, and whether the account is locked.
#[derive(Clone, Copy, Debug, PartialEq, Eq, Structural)]
pub struct ReportRow {
    pub client: u16,
    pub available: i64,
    pub held: i64,
    pub total: i128,
    pub locked: bool,
}

/// The report line an account model yields.
pub open spec fn spec_report_row(client: u16, m: AccountModel) -> ReportRow {
    match m.state {
        AccountState::Open { available, held } => ReportRow {
            client,
            available,
            held,
            total: (available + held) as i128,
            locked: false,
        },
        AccountState::Locked { available, held } => ReportRow {
            client,
            available,
            held,
            total: (available + held) as i128,
            locked: true,
        },
    }
}

/// What one row does to the whole ledger: the target account, fresh
/// and empty on first reference, is replaced by what the dispatcher
/// makes of it; every other account is untouched.
pub open spec fn spec_apply_transaction(
    t: Seq<char>,
    uid: u32,
    amount: i64,
    client_id: u16,
    m: Map<u16, AccountModel>,
) -> (Map<u16, AccountModel>, Result<(), TransactionError>) {
    let prior = if m.contains_key(client_id) {
        m[client_id]
    } else {
        AccountModel::empty()
    };
    let stepped = spec_process_transaction(t, uid, amount, prior);
    (m.insert(client_id, stepped.0), stepped.1)
}

impl View for Ledger {
    type V = Map<u16, AccountModel>;

    open spec fn view(&self) -> Map<u16, AccountModel> {
        self.accounts@.map_values(|a: Account| a@)
    }
}

impl Ledger {
    /// The client list carries exactly the map's keys, each once.
    pub open spec fn wf(self) -> bool {
        &&& self.clients@.no_duplicates()
        &&& forall|i: int|
            0 <= i < self.clients@.len() ==> self.accounts@.contains_key(#[trigger] self.clients@[i])
        &&& forall|c: u16| self.accounts@.contains_key(c) ==> #[trigger] self.clients@.contains(c)
    }

    /// An empty ledger: no accounts yet.
    pub fn new() -> (l: Ledger)
        ensures
            l.wf(),
            l@ == Map::<u16, AccountModel>::empty(),
            l.clients@ == Seq::<u16>::empty(),
    {
        let l = Ledger { accounts: HashMap::new(), clients: Vec::new() };
        proof {
            assert(l@ =~= Map::<u16, AccountModel>::empty());
        }
        l
    }

    /// Resolves the target account by client id, creating an empty
    /// open account on first reference, and hands the row to the
    /// dispatcher. The rejection, if any, is the dispatcher's; the
    /// account itself is then left unchanged, though a newly created
    /// empty account stays.
    pub fn apply_transaction(&mut self, tx: TransactionEntry) -> (r: Result<(), TransactionError>)
        requires
            old(self).wf(),
        ensures
            final(self).wf(),
            final(self)@ == spec_apply_transaction(
                tx.t@,
                tx.uid,
                tx.amount,
                tx.client_id,
                old(self)@,
            ).0,
            r == spec_apply_transaction(tx.t@, tx.uid, tx.amount, tx.client_id, old(self)@).1,
            final(self).clients@ == if old(self)@.contains_key(tx.client_id) {
                old(self).clients@
            } else {
                old(self).clients@.push(tx.client_id)
            },
    {
        let client_id = tx.client_id;
        if !self.accounts.contains_key(&client_id) {
            proof {
                assert(!self.clients@.contains(client_id)) by {
                    if self.clients@.contains(client_id) {
                        let i = choose|i: int|
                            0 <= i < self.clients@.len() && self.clients@[i] == client_id;
                        assert(self.accounts@.contains_key(self.clients@[i]));
                    }
                }
            }
            self.accounts.insert(client_id, Account::new());
            self.clients.push(client_id);
        }
        let ghost pre = self.accounts@;
        let mut account = match self.accounts.remove(&client_id) {
            Some(acc) => acc,
            None => {
                proof {
                    assert(false);
                }
                Account::new()
            },
        };
        let r = process_transaction(tx, &mut account);
        let ghost stepped = account;
        self.accounts.insert(client_id, account);
        proof {
            assert(self.accounts@ =~= pre.insert(client_id, stepped));
            assert(self@ =~= spec_apply_transaction(
                tx.t@,
                tx.uid,
                tx.amount,
                tx.client_id,
                old(self)@,
            ).0);
            let cs = self.clients@;
            let os = old(self).clients@;
            assert forall|c: u16| self.accounts@.contains_key(c) implies cs.contains(c) by {
                if c == client_id && !old(self).accounts@.contains_key(client_id) {
                    assert(cs[cs.len() - 1] == c);
                } else {
                    assert(old(self).accounts@.contains_key(c));
                    assert(os.contains(c));
                    let i = choose|i: int| 0 <= i < os.len() && os[i] == c;
                    assert(cs[i] == c);
                }
            }
            assert forall|i: int| 0 <= i < cs.len() implies self.accounts@.contains_key(
                cs[i],
            ) by {
                if i < os.len() {
                    assert(old(self).accounts@.contains_key(os[i]));
                }
            }
            assert(cs.no_duplicates()) by {
                if cs != os {
                    assert forall|i: int, j: int|
                        0 <= i < cs.len() && 0 <= j < cs.len() && i != j implies cs[i] != cs[j] by {
                        if i < os.len() && j < os.len() {
                            assert(os[i] != os[j]);
                        }
                    }
                }
            }
        }
        r
    }

    /// Read access to one account.
    pub fn get_account(&self, client_id: u16) -> (r: Option<&Account>)
        ensures
            self@.contains_key(client_id) ==> (r matches Some(a) && a@ == self@[client_id]),
            !self@.contains_key(client_id) ==> r is None,
    {
        self.accounts.get(&client_id)
    }

    /// The final table: one row per account ever created, in order of
    /// first reference, each carrying the client id, the balances,
    /// their exact sum and the lock flag.
    pub fn report(&self) -> (rows: Vec<ReportRow>)
        requires
            self.wf(),
        ensures
            rows@.len() == self.clients@.len(),
            forall|i: int|
                0 <= i < rows@.len() ==> self@.contains_key(self.clients@[i]) && #[trigger] rows@[i]
                    == spec_report_row(self.clients@[i], self@[self.clients@[i]]),
    {
        let mut rows: Vec<ReportRow> = Vec::new();
        let n = self.clients.len();
        let mut i: usize = 0;
        while i < n
            invariant
                n == self.clients@.len(),
                i <= n,
                self.wf(),
                rows@.len() == i,
                forall|j: int|
                    0 <= j < i as int ==> self@.contains_key(self.clients@[j])
                        && #[trigger] rows@[j] == spec_report_row(
                        self.clients@[j],
                        self@[self.clients@[j]],
                    ),
            decreases n - i,
        {
            let client = self.clients[i];
            match self.accounts.get(&client) {
                Some(account) => {
                    let row = match account.state {
                        AccountState::Open { available, held } => ReportRow {
                            client,
                            available,
                            held,
                            total: available as i128 + held as i128,
                            locked: false,
                        },
                        AccountState::Locked { available, held } => ReportRow {
                            client,
                            available,
                            held,
                            total: available as i128 + held as i128,
                            locked: true,
                        },
                    };
                    rows.push(row);
                },
                None => {
                    proof {
                        assert(false);
                    }
                },
            }
            i = i + 1;
        }
        rows
    }
}

} // verus!
