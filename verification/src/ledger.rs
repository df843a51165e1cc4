use vstd::prelude::*;
use std::collections::HashMap;
use crate::motes::Motes;

verus! {

broadcast use vstd::std_specs::hash::group_hash_axioms;

/// Opaque public identifier of an account, used as the key into the ledger's
/// account records.
#[derive(Clone, Copy, PartialEq, Eq, Structural, Debug)]
pub struct Identity {
    pub value: u64,
}

/// Opaque address of a value-holding purse, distinct from an account
/// identity. In this harness an address alone grants read access to the
/// purse's balance.
#[derive(Clone, Copy, PartialEq, Eq, Structural, Debug)]
pub struct PurseAddress {
    pub value: u64,
}

/// An account record held in committed state: the identity it is stored
/// under and the address of its default ("main") purse.
#[derive(Clone, Copy, PartialEq, Eq, Structural, Debug)]
pub struct Account {
    pub identity: Identity,
    pub main_purse: PurseAddress,
}

impl Account {
    /// The address of the account's default purse.
    pub fn main_purse(&self) -> (r: PurseAddress)
        ensures
            r == self.main_purse,
    {
        self.main_purse
    }
}

/// Mathematical model of a ledger: account records keyed by raw identity
/// and purse balances keyed by raw purse address.
#[verifier::ext_equal]
pub struct LedgerModel {
    pub accounts: Map<u64, Account>,
    pub balances: Map<u64, u128>,
}

/// The balance of `purse` in `ledger`, or `None` when the purse does not
/// resolve.
pub open spec fn spec_balance(ledger: LedgerModel, purse: PurseAddress) -> Option<Motes> {
    if ledger.balances.contains_key(purse.value) {
        Some(Motes { value: ledger.balances[purse.value] })
    } else {
        None
    }
}

/// The account stored under `identity` in `ledger`, or `None` when the
/// identity does not resolve.
pub open spec fn spec_account(ledger: LedgerModel, identity: Identity) -> Option<Account> {
    if ledger.accounts.contains_key(identity.value) {
        Some(ledger.accounts[identity.value])
    } else {
        None
    }
}

/// Committed ledger state.
pub struct Ledger {
    accounts: HashMap<u64, Account>,
    balances: HashMap<u64, u128>,
}

impl View for Ledger {
    type V = LedgerModel;

    closed spec fn view(&self) -> LedgerModel {
        LedgerModel { accounts: self.accounts@, balances: self.balances@ }
    }
}

impl Ledger {
    /// An empty ledger: no accounts, no purses.
    pub fn new() -> (r: Ledger)
        ensures
            r@ == (LedgerModel {
                accounts: Map::<u64, Account>::empty(),
                balances: Map::<u64, u128>::empty(),
            }),
    {
        Ledger { accounts: HashMap::new(), balances: HashMap::new() }
    }

    /// The balance of the purse stored under `purse`, if any.
    pub fn balance_of(&self, purse: u64) -> (r: Option<u128>)
        ensures
            r == if self@.balances.contains_key(purse) {
                Some(self@.balances[purse])
            } else {
                None::<u128>
            },
    {
        match self.balances.get(&purse) {
            Some(b) => Some(*b),
            None => None,
        }
    }

    /// Stores `amount` under `purse`, creating the purse if absent.
    pub fn set_balance(&mut self, purse: u64, amount: u128)
        ensures
            final(self)@ == (LedgerModel {
                accounts: old(self)@.accounts,
                balances: old(self)@.balances.insert(purse, amount),
            }),
    {
        self.balances.insert(purse, amount);
    }

    /// The account stored under `identity`, if any.
    pub fn account_of(&self, identity: u64) -> (r: Option<Account>)
        ensures
            r == if self@.accounts.contains_key(identity) {
                Some(self@.accounts[identity])
            } else {
                None::<Account>
            },
    {
        match self.accounts.get(&identity) {
            Some(a) => Some(*a),
            None => None,
        }
    }

    /// Stores `account` under `identity`, replacing any earlier record.
    pub fn set_account(&mut self, identity: u64, account: Account)
        ensures
            final(self)@ == (LedgerModel {
                accounts: old(self)@.accounts.insert(identity, account),
                balances: old(self)@.balances,
            }),
    {
        self.accounts.insert(identity, account);
    }
}

} // verus!
