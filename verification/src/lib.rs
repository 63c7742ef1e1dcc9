//! A small bookkeeping core: open accounts, deposit, withdraw, transfer,
//! and list transaction history, with the rules that keep balances and
//! the append-only transaction log mutually consistent stated as
//! contracts and proved.
//!
//! `ledger` holds the mathematical model of the ledger and a verified
//! in-memory ledger; `laws` proves the guarantees of the update protocol;
//! `store` reaches the SQLite persistence provider through trusted
//! wrappers; `bank` is the verified service on top of that store.

pub mod bank;
pub mod laws;
pub mod ledger;
pub mod store;

use vstd::prelude::*;

verus! {

/// The error kinds surfaced by the ledger core.
#[derive(Clone, Copy, Debug, PartialEq, Eq, Structural)]
pub enum LedgerError {
    /// An operation referenced an account id with no matching row.
    AccountNotFound,
    /// A withdrawal or transfer debit would drive the balance below zero.
    InsufficientFunds,
    /// A balance update would leave the representable integer range.
    BalanceOverflow,
    /// The persistence layer could not complete a read or write.
    ProviderFailure,
}

} // verus!
