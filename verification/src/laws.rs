//! The laws of the ledger update protocol, proved over the transition
//! spec functions of `crate::ledger`. Each public proof function states
//! one guarantee of the protocol for every well-formed ledger state.

use vstd::prelude::*;
use crate::ledger::{
    apply_update, fits_i64, spec_deposit, spec_open_account, spec_transfer, spec_withdraw,
    txs_desc, LedgerView, TransactionKind, TransactionRecord,
};
use crate::LedgerError;

verus! {

/// No record of accounts other than `account_id` means an empty listing.
proof fn lemma_txs_desc_absent(ts: Seq<TransactionRecord>, account_id: i64)
    requires
        forall|j: int| 0 <= j < ts.len() ==> (#[trigger] ts[j]).account_id != account_id,
    ensures
        txs_desc(ts, account_id) =~= Seq::<TransactionRecord>::empty(),
    decreases ts.len(),
{
    if ts.len() > 0 {
        let rest = ts.drop_last();
        assert(forall|j: int| 0 <= j < rest.len() ==> (#[trigger] rest[j]).account_id != account_id);
        lemma_txs_desc_absent(rest, account_id);
    }
}

/// Every timestamp in the listing already occurs in the log, so a bound
/// on the log bounds the listing.
proof fn lemma_txs_desc_bounded(ts: Seq<TransactionRecord>, account_id: i64, bound: int)
    requires
        forall|j: int| 0 <= j < ts.len() ==> (#[trigger] ts[j]).timestamp <= bound,
    ensures
        forall|k: int|
            0 <= k < txs_desc(ts, account_id).len()
                ==> (#[trigger] txs_desc(ts, account_id)[k]).timestamp <= bound,
    decreases ts.len(),
{
    if ts.len() > 0 {
        let rest = ts.drop_last();
        assert(forall|j: int| 0 <= j < rest.len() ==> (#[trigger] rest[j]).timestamp <= bound);
        lemma_txs_desc_bounded(rest, account_id, bound);
    }
}

/// A log whose timestamps are its positions lists each account's records
/// with strictly decreasing timestamps.
proof fn lemma_txs_desc_sorted(ts: Seq<TransactionRecord>, account_id: i64)
    requires
        forall|j: int| 0 <= j < ts.len() ==> (#[trigger] ts[j]).timestamp == j + 1,
    ensures
        forall|k1: int, k2: int|
            0 <= k1 < k2 < txs_desc(ts, account_id).len()
                ==> txs_desc(ts, account_id)[k1].timestamp > txs_desc(ts, account_id)[k2].timestamp,
    decreases ts.len(),
{
    if ts.len() > 0 {
        let rest = ts.drop_last();
        assert(forall|j: int| 0 <= j < rest.len() ==> (#[trigger] rest[j]).timestamp == j + 1);
        lemma_txs_desc_sorted(rest, account_id);
        lemma_txs_desc_bounded(rest, account_id, ts.len() - 1);
        if ts.last().account_id == account_id {
            let d = txs_desc(ts, account_id);
            let rd = txs_desc(rest, account_id);
            assert(ts.last().timestamp == ts.len() as int);
            assert forall|k1: int, k2: int| 0 <= k1 < k2 < d.len() implies
                d[k1].timestamp > d[k2].timestamp by {
                assert(d[k2] == rd[k2 - 1]);
                if k1 > 0 {
                    assert(d[k1] == rd[k1 - 1]);
                }
            }
        }
    }
}

/// What a successful balance update does: the new balance is written, one
/// record is appended at the head of the account's listing, and every
/// other account keeps its balance and its listing.
proof fn lemma_apply_update_props(
    l: LedgerView,
    account_id: i64,
    new_balance: i64,
    amount: i64,
    kind: TransactionKind,
)
    requires
        l.wf(),
        l.has_account(account_id),
        l.transactions.len() < i64::MAX,
    ensures
        ({
            let l2 = apply_update(l, account_id, new_balance, amount, kind);
            &&& l2.wf()
            &&& l2.accounts.len() == l.accounts.len()
            &&& l2.balance_of(account_id) == new_balance
            &&& l2.transactions.len() == l.transactions.len() + 1
            &&& l2.transactions.last().account_id == account_id
            &&& l2.transactions.last().amount == amount
            &&& l2.transactions.last().kind == kind
            &&& l2.transactions_of(account_id) =~= seq![l2.transactions.last()]
                + l.transactions_of(account_id)
            &&& l2.transactions_of(account_id).len() == l.transactions_of(account_id).len() + 1
            &&& forall|a: i64| a != account_id ==> l2.has_account(a) == l.has_account(a)
            &&& forall|a: i64|
                a != account_id && l.has_account(a) ==> l2.balance_of(a) == l.balance_of(a)
            &&& forall|a: i64|
                a != account_id ==> l2.transactions_of(a) =~= l.transactions_of(a)
        }),
{
    let l2 = apply_update(l, account_id, new_balance, amount, kind);
    assert(l2.transactions.drop_last() =~= l.transactions);
    assert(l2.transactions_of(account_id) =~= seq![l2.transactions.last()]
        + l.transactions_of(account_id));
    assert forall|a: i64| a != account_id implies
        l2.transactions_of(a) =~= l.transactions_of(a) by {
        assert(txs_desc(l2.transactions, a) == txs_desc(l2.transactions.drop_last(), a));
    }
}

/// Immediately after opening an account: its balance is the initial
/// deposit, its transaction listing is empty, no record was written, and
/// every existing account keeps its balance and its listing.
pub proof fn lemma_open_account_fresh(l: LedgerView, holder: Seq<char>, initial_deposit: i64)
    requires
        l.wf(),
        holder.len() > 0,
        l.accounts.len() < i64::MAX,
    ensures
        ({
            let (l2, id) = spec_open_account(l, holder, initial_deposit);
            &&& l2.wf()
            &&& id == l.accounts.len() + 1
            &&& l2.has_account(id)
            &&& l2.balance_of(id) == initial_deposit
            &&& l2.transactions_of(id) =~= Seq::<TransactionRecord>::empty()
            &&& l2.transactions == l.transactions
            &&& forall|a: i64| a != id && l.has_account(a) ==> l2.balance_of(a) == l.balance_of(a)
            &&& forall|a: i64| l2.transactions_of(a) == l.transactions_of(a)
        }),
{
    let (l2, id) = spec_open_account(l, holder, initial_deposit);
    assert(forall|j: int|
        0 <= j < l2.transactions.len() ==> (#[trigger] l2.transactions[j]).account_id != id);
    lemma_txs_desc_absent(l2.transactions, id);
}

/// A deposit of a positive amount into an existing account succeeds, adds
/// the amount to the balance, and appends exactly one deposit record for
/// that amount at the head of the account's listing; other accounts are
/// untouched.
pub proof fn lemma_deposit_applies(l: LedgerView, account_id: i64, amount: i64)
    requires
        l.wf(),
        l.has_account(account_id),
        amount > 0,
        fits_i64(l.balance_of(account_id) + amount),
        l.transactions.len() < i64::MAX,
    ensures
        ({
            let (l2, r) = spec_deposit(l, account_id, amount);
            &&& r == Ok::<(), LedgerError>(())
            &&& l2.wf()
            &&& l2.balance_of(account_id) == l.balance_of(account_id) + amount
            &&& l2.transactions_of(account_id) =~= seq![l2.transactions.last()]
                + l.transactions_of(account_id)
            &&& l2.transactions_of(account_id).len() == l.transactions_of(account_id).len() + 1
            &&& l2.transactions.last().kind == TransactionKind::Deposit
            &&& l2.transactions.last().amount == amount
            &&& l2.transactions.last().account_id == account_id
            &&& forall|a: i64|
                a != account_id && l.has_account(a) ==> l2.balance_of(a) == l.balance_of(a)
            &&& forall|a: i64|
                a != account_id ==> l2.transactions_of(a) =~= l.transactions_of(a)
        }),
{
    let new_balance = (l.balance_of(account_id) + amount) as i64;
    lemma_apply_update_props(l, account_id, new_balance, amount, TransactionKind::Deposit);
}

/// A withdrawal covered by the balance succeeds, subtracts the amount,
/// and appends exactly one withdrawal record for that amount at the head
/// of the account's listing; other accounts are untouched.
pub proof fn lemma_withdraw_applies(l: LedgerView, account_id: i64, amount: i64)
    requires
        l.wf(),
        l.has_account(account_id),
        l.balance_of(account_id) >= amount,
        fits_i64(l.balance_of(account_id) - amount),
        l.transactions.len() < i64::MAX,
    ensures
        ({
            let (l2, r) = spec_withdraw(l, account_id, amount);
            &&& r == Ok::<(), LedgerError>(())
            &&& l2.wf()
            &&& l2.balance_of(account_id) == l.balance_of(account_id) - amount
            &&& l2.transactions_of(account_id) =~= seq![l2.transactions.last()]
                + l.transactions_of(account_id)
            &&& l2.transactions_of(account_id).len() == l.transactions_of(account_id).len() + 1
            &&& l2.transactions.last().kind == TransactionKind::Withdrawal
            &&& l2.transactions.last().amount == amount
            &&& l2.transactions.last().account_id == account_id
            &&& forall|a: i64|
                a != account_id && l.has_account(a) ==> l2.balance_of(a) == l.balance_of(a)
            &&& forall|a: i64|
                a != account_id ==> l2.transactions_of(a) =~= l.transactions_of(a)
        }),
{
    let new_balance = (l.balance_of(account_id) - amount) as i64;
    lemma_apply_update_props(l, account_id, new_balance, amount, TransactionKind::Withdrawal);
}

/// A withdrawal of more than the balance fails with `InsufficientFunds`
/// and leaves the whole ledger, balances and transaction log, unchanged.
pub proof fn lemma_withdraw_insufficient(l: LedgerView, account_id: i64, amount: i64)
    requires
        l.has_account(account_id),
        amount > l.balance_of(account_id),
    ensures
        spec_withdraw(l, account_id, amount) == (l, Err::<(), LedgerError>(
            LedgerError::InsufficientFunds,
        )),
{
}

/// A transfer between two distinct existing accounts, covered by the
/// source balance, decreases the source by the amount, increases the
/// destination by the amount, and appends one withdrawal record to the
/// source and one deposit record to the destination; other accounts are
/// untouched.
pub proof fn lemma_transfer_applies(l: LedgerView, from: i64, to: i64, amount: i64)
    requires
        l.wf(),
        l.has_account(from),
        l.has_account(to),
        from != to,
        l.balance_of(from) >= amount,
        fits_i64(l.balance_of(from) - amount),
        fits_i64(l.balance_of(to) + amount),
        l.transactions.len() + 2 <= i64::MAX,
    ensures
        ({
            let (l2, r) = spec_transfer(l, from, to, amount);
            &&& r == Ok::<(), LedgerError>(())
            &&& l2.wf()
            &&& l2.balance_of(from) == l.balance_of(from) - amount
            &&& l2.balance_of(to) == l.balance_of(to) + amount
            &&& l2.transactions_of(from).len() == l.transactions_of(from).len() + 1
            &&& l2.transactions_of(to).len() == l.transactions_of(to).len() + 1
            &&& l2.transactions_of(from)[0].kind == TransactionKind::Withdrawal
            &&& l2.transactions_of(from)[0].amount == amount
            &&& l2.transactions_of(to)[0].kind == TransactionKind::Deposit
            &&& l2.transactions_of(to)[0].amount == amount
            &&& forall|a: i64|
                a != from && a != to && l.has_account(a) ==> l2.balance_of(a) == l.balance_of(a)
            &&& forall|a: i64|
                a != from && a != to ==> l2.transactions_of(a) =~= l.transactions_of(a)
        }),
{
    let new_from = (l.balance_of(from) - amount) as i64;
    lemma_apply_update_props(l, from, new_from, amount, TransactionKind::Withdrawal);
    let l1 = spec_withdraw(l, from, amount).0;
    let new_to = (l1.balance_of(to) + amount) as i64;
    lemma_apply_update_props(l1, to, new_to, amount, TransactionKind::Deposit);
}

/// A transfer from an account to itself is defined: it succeeds when the
/// balance covers the amount, leaves the balance unchanged, and appends a
/// withdrawal record and a deposit record to that account's listing.
pub proof fn lemma_transfer_self(l: LedgerView, account_id: i64, amount: i64)
    requires
        l.wf(),
        l.has_account(account_id),
        l.balance_of(account_id) >= amount,
        fits_i64(l.balance_of(account_id) - amount),
        l.transactions.len() + 2 <= i64::MAX,
    ensures
        ({
            let (l2, r) = spec_transfer(l, account_id, account_id, amount);
            &&& r == Ok::<(), LedgerError>(())
            &&& l2.wf()
            &&& l2.balance_of(account_id) == l.balance_of(account_id)
            &&& l2.transactions_of(account_id).len() == l.transactions_of(account_id).len() + 2
        }),
{
    let new_bal = (l.balance_of(account_id) - amount) as i64;
    lemma_apply_update_props(l, account_id, new_bal, amount, TransactionKind::Withdrawal);
    let l1 = spec_withdraw(l, account_id, amount).0;
    let back = (l1.balance_of(account_id) + amount) as i64;
    lemma_apply_update_props(l1, account_id, back, amount, TransactionKind::Deposit);
}

/// The listing of any account of a well-formed ledger is strictly
/// decreasing in timestamps: most recent first, never two records out of
/// order.
pub proof fn lemma_transactions_sorted(l: LedgerView, account_id: i64)
    requires
        l.wf(),
    ensures
        forall|k1: int, k2: int|
            0 <= k1 < k2 < l.transactions_of(account_id).len()
                ==> l.transactions_of(account_id)[k1].timestamp
                    > l.transactions_of(account_id)[k2].timestamp,
{
    lemma_txs_desc_sorted(l.transactions, account_id);
}

} // verus!
