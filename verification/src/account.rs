//! Account records as the handler sees them.

use crate::address::Address;
use vstd::prelude::*;

verus! {

/// One account record: where it lives, what it holds, and who owns it.
///
/// The runtime owns the record; the handler works on the copy it is handed and
/// changes nothing but `lamports`.
#[derive(Clone, Debug, PartialEq, Eq)]
pub struct Account {
    pub key: Address,
    pub lamports: u64,
    pub data: Vec<u8>,
    pub owner: Address,
}

/// An account record as a mathematical value.
pub struct AccountView {
    pub key: Address,
    pub lamports: nat,
    pub data: Seq<u8>,
    pub owner: Address,
}

impl View for Account {
    type V = AccountView;

    open spec fn view(&self) -> AccountView {
        AccountView {
            key: self.key,
            lamports: self.lamports as nat,
            data: self.data@,
            owner: self.owner,
        }
    }
}

impl AccountView {
    /// The record with `amount` taken from its balance.
    pub open spec fn debited(self, amount: nat) -> AccountView
        recommends
            amount <= self.lamports,
    {
        AccountView { lamports: (self.lamports - amount) as nat, ..self }
    }

    /// The record with `amount` added to its balance.
    pub open spec fn credited(self, amount: nat) -> AccountView {
        AccountView { lamports: self.lamports + amount, ..self }
    }
}

/// An account list as a sequence of mathematical records.
pub open spec fn ledger(accounts: Seq<Account>) -> Seq<AccountView> {
    accounts.map_values(|account: Account| account@)
}

impl Account {
    /// A record with the given contents.
    pub fn new(key: Address, lamports: u64, data: Vec<u8>, owner: Address) -> (account: Account)
        ensures
            account@ == (AccountView { key, lamports: lamports as nat, data: data@, owner }),
    {
        Account { key, lamports, data, owner }
    }
}

} // verus!
