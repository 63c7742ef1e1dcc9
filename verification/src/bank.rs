//! The ledger service against the SQLite-backed persistence provider.
//!
//! Each operation re-reads the stored state through the trusted wrappers
//! of `crate::store`, takes its decision in verified code with an exact
//! contract (`deposit_decision`, `withdraw_decision`,
//! `decode_transactions`), and writes the outcome back, with each paired
//! balance-and-log update bracketed in one store transaction. Every
//! store failure is surfaced as `LedgerError::ProviderFailure`.

use vstd::prelude::*;
use crate::ledger::{checked_add_i64, checked_sub_i64, fits_i64, TransactionKind, TransactionRecord};
use crate::store::{
    begin_transaction, commit_transaction, count_transactions, init_accounts_table,
    init_transactions_table, insert_account_row, insert_transaction_row, rollback_transaction,
    select_balance, select_transactions_desc, update_balance,
};
use crate::LedgerError;

verus! {

/// The stored type tag of a transaction kind.
pub open spec fn spec_kind_code(k: TransactionKind) -> i64 {
    match k {
        TransactionKind::Deposit => 0,
        TransactionKind::Withdrawal => 1,
    }
}

/// Is this stored type tag one the ledger writes?
pub open spec fn valid_kind_code(c: i64) -> bool {
    c == 0 || c == 1
}

/// The transaction kind a valid stored type tag stands for.
pub open spec fn spec_kind_of_code(c: i64) -> TransactionKind {
    if c == 0 {
        TransactionKind::Deposit
    } else {
        TransactionKind::Withdrawal
    }
}

/// The type tag under which a transaction kind is stored.
pub fn kind_code(k: TransactionKind) -> (c: i64)
    ensures
        c == spec_kind_code(k),
        valid_kind_code(c),
{
    match k {
        TransactionKind::Deposit => 0,
        TransactionKind::Withdrawal => 1,
    }
}

/// The transaction kind stored under a type tag, or `None` for a tag the
/// ledger never writes.
pub fn kind_of_code(c: i64) -> (r: Option<TransactionKind>)
    ensures
        r is Some <==> valid_kind_code(c),
        r matches Some(k) ==> k == spec_kind_of_code(c),
{
    if c == 0 {
        Some(TransactionKind::Deposit)
    } else if c == 1 {
        Some(TransactionKind::Withdrawal)
    } else {
        None
    }
}

/// The record one stored row (id, amount, type tag, timestamp) of this
/// account stands for.
pub open spec fn record_of_row(account_id: i64, row: (i64, i64, i64, i64)) -> TransactionRecord {
    TransactionRecord {
        id: row.0,
        account_id,
        amount: row.1,
        kind: spec_kind_of_code(row.2),
        timestamp: row.3,
    }
}

/// The decision of a deposit, given the balance the store returned: a
/// missing account is `AccountNotFound`, an unrepresentable new balance
/// is `BalanceOverflow`, and otherwise the new balance is the old plus
/// the amount.
pub fn deposit_decision(balance: Option<i64>, amount: i64) -> (r: Result<i64, LedgerError>)
    ensures
        balance is None ==> r == Err::<i64, LedgerError>(LedgerError::AccountNotFound),
        balance matches Some(b) ==> r == (if fits_i64(b + amount) {
            Ok::<i64, LedgerError>((b + amount) as i64)
        } else {
            Err::<i64, LedgerError>(LedgerError::BalanceOverflow)
        }),
{
    match balance {
        None => Err(LedgerError::AccountNotFound),
        Some(b) => match checked_add_i64(b, amount) {
            Some(nb) => Ok(nb),
            None => Err(LedgerError::BalanceOverflow),
        },
    }
}

/// The decision of a withdrawal, given the balance the store returned: a
/// missing account is `AccountNotFound`, a balance below the amount is
/// `InsufficientFunds` (the balance is never driven below what the
/// amount leaves), an unrepresentable new balance is `BalanceOverflow`,
/// and otherwise the new balance is the old minus the amount.
pub fn withdraw_decision(balance: Option<i64>, amount: i64) -> (r: Result<i64, LedgerError>)
    ensures
        balance is None ==> r == Err::<i64, LedgerError>(LedgerError::AccountNotFound),
        balance matches Some(b) ==> r == (if b < amount {
            Err::<i64, LedgerError>(LedgerError::InsufficientFunds)
        } else if fits_i64(b - amount) {
            Ok::<i64, LedgerError>((b - amount) as i64)
        } else {
            Err::<i64, LedgerError>(LedgerError::BalanceOverflow)
        }),
{
    match balance {
        None => Err(LedgerError::AccountNotFound),
        Some(b) => {
            if b < amount {
                Err(LedgerError::InsufficientFunds)
            } else {
                match checked_sub_i64(b, amount) {
                    Some(nb) => Ok(nb),
                    None => Err(LedgerError::BalanceOverflow),
                }
            }
        },
    }
}

/// The records the stored rows of one account stand for, in the order
/// the store returned them; a row whose type tag the ledger never writes
/// means the store is corrupt, which is a provider failure.
pub fn decode_transactions(account_id: i64, rows: &Vec<(i64, i64, i64, i64)>) -> (r: Result<
    Vec<TransactionRecord>,
    LedgerError,
>)
    ensures
        r is Ok <==> (forall|k: int|
            0 <= k < rows@.len() ==> valid_kind_code((#[trigger] rows@[k]).2)),
        r matches Ok(v) ==> v@.len() == rows@.len() && (forall|k: int|
            0 <= k < v@.len() ==> (#[trigger] v@[k]) == record_of_row(account_id, rows@[k])),
        r is Err ==> r == Err::<Vec<TransactionRecord>, LedgerError>(LedgerError::ProviderFailure),
{
    let mut out: Vec<TransactionRecord> = Vec::new();
    let mut i: usize = 0;
    while i < rows.len()
        invariant
            i <= rows@.len(),
            out@.len() == i as int,
            forall|k: int| 0 <= k < i ==> valid_kind_code((#[trigger] rows@[k]).2),
            forall|k: int|
                0 <= k < i ==> (#[trigger] out@[k]) == record_of_row(account_id, rows@[k]),
        decreases rows@.len() - i,
    {
        let row = rows[i];
        let kind = match kind_of_code(row.2) {
            Some(k) => k,
            None => {
                return Err(LedgerError::ProviderFailure);
            },
        };
        out.push(TransactionRecord {
            id: row.0,
            account_id,
            amount: row.1,
            kind,
            timestamp: row.3,
        });
        i = i + 1;
    }
    Ok(out)
}

/// Ensure both relations of the schema exist before first use.
pub fn init_schema(conn: &rusqlite::Connection) -> (r: Result<(), LedgerError>)
    ensures
        r matches Err(e) ==> e == LedgerError::ProviderFailure,
{
    if init_accounts_table(conn).is_err() {
        return Err(LedgerError::ProviderFailure);
    }
    if init_transactions_table(conn).is_err() {
        return Err(LedgerError::ProviderFailure);
    }
    Ok(())
}

/// Open an account: appends one account row holding the initial deposit
/// and returns the id the store assigned; no transaction record is
/// written for the opening deposit.
pub fn create_account(
    conn: &rusqlite::Connection,
    account_holder: &str,
    initial_deposit: i64,
) -> (r: Result<i64, LedgerError>)
    requires
        account_holder@.len() > 0,
    ensures
        r matches Err(e) ==> e == LedgerError::ProviderFailure,
{
    if insert_account_row(conn, account_holder, initial_deposit).is_err() {
        return Err(LedgerError::ProviderFailure);
    }
    Ok(conn.last_insert_rowid())
}

/// The stored balance of an account, or `None` when no row carries this
/// id.
pub fn get_balance(conn: &rusqlite::Connection, account_id: i64) -> (r: Result<
    Option<i64>,
    LedgerError,
>)
    ensures
        r matches Err(e) ==> e == LedgerError::ProviderFailure,
{
    match select_balance(conn, account_id) {
        Ok(b) => Ok(b),
        Err(_) => Err(LedgerError::ProviderFailure),
    }
}

/// The common write of a successful deposit or withdrawal: store the new
/// balance and append one record for it, stamped with the next position
/// of the log. The pair is bracketed in one store transaction, so the
/// balance write and the record append apply as a single atomic unit:
/// when any step fails, everything already written is rolled back and
/// neither half is observably applied.
fn apply_to_store(
    conn: &rusqlite::Connection,
    account_id: i64,
    new_balance: i64,
    amount: i64,
    kind: TransactionKind,
) -> (r: Result<(), LedgerError>)
    ensures
        r matches Err(e) ==> e == LedgerError::ProviderFailure,
{
    if begin_transaction(conn).is_err() {
        return Err(LedgerError::ProviderFailure);
    }
    if update_balance(conn, account_id, new_balance).is_err() {
        let _ = rollback_transaction(conn);
        return Err(LedgerError::ProviderFailure);
    }
    let count = match count_transactions(conn) {
        Ok(c) => c,
        Err(_) => {
            let _ = rollback_transaction(conn);
            return Err(LedgerError::ProviderFailure);
        },
    };
    let timestamp = match checked_add_i64(count, 1) {
        Some(t) => t,
        None => {
            let _ = rollback_transaction(conn);
            return Err(LedgerError::ProviderFailure);
        },
    };
    if insert_transaction_row(conn, account_id, amount, kind_code(kind), timestamp).is_err() {
        let _ = rollback_transaction(conn);
        return Err(LedgerError::ProviderFailure);
    }
    if commit_transaction(conn).is_err() {
        let _ = rollback_transaction(conn);
        return Err(LedgerError::ProviderFailure);
    }
    Ok(())
}

/// Deposit: reads the current balance, decides through
/// `deposit_decision`, and applies the paired update (balance write plus
/// one deposit record) as a single atomic unit. Never reports
/// `InsufficientFunds`.
pub fn deposit(conn: &rusqlite::Connection, account_id: i64, amount: i64) -> (r: Result<
    (),
    LedgerError,
>)
    ensures
        r matches Err(e) ==> e != LedgerError::InsufficientFunds,
{
    let balance = match select_balance(conn, account_id) {
        Ok(b) => b,
        Err(_) => {
            return Err(LedgerError::ProviderFailure);
        },
    };
    let new_balance = match deposit_decision(balance, amount) {
        Ok(nb) => nb,
        Err(e) => {
            return Err(e);
        },
    };
    apply_to_store(conn, account_id, new_balance, amount, TransactionKind::Deposit)
}

/// Withdraw: reads the current balance, decides through
/// `withdraw_decision`, and applies the paired update (balance write plus
/// one withdrawal record) as a single atomic unit.
pub fn withdraw(conn: &rusqlite::Connection, account_id: i64, amount: i64) -> (r: Result<
    (),
    LedgerError,
>) {
    let balance = match select_balance(conn, account_id) {
        Ok(b) => b,
        Err(_) => {
            return Err(LedgerError::ProviderFailure);
        },
    };
    let new_balance = match withdraw_decision(balance, amount) {
        Ok(nb) => nb,
        Err(e) => {
            return Err(e);
        },
    };
    apply_to_store(conn, account_id, new_balance, amount, TransactionKind::Withdrawal)
}

/// Transfer: a withdrawal from `from` followed by a deposit to `to`.
/// When the withdrawal fails nothing was changed; when the deposit then
/// fails, the withdrawal stays applied and the error is reported (the
/// documented partial-failure mode of the two-step design).
pub fn transfer(conn: &rusqlite::Connection, from: i64, to: i64, amount: i64) -> (r: Result<
    (),
    LedgerError,
>) {
    withdraw(conn, from, amount)?;
    deposit(conn, to, amount)
}

/// All stored transaction records of one account, in non-increasing
/// timestamp order (most recent first); an account with no records, or
/// an unknown account id, yields an empty listing.
pub fn view_transactions(conn: &rusqlite::Connection, account_id: i64) -> (r: Result<
    Vec<TransactionRecord>,
    LedgerError,
>)
    ensures
        r matches Ok(v) ==> (forall|k: int|
            0 <= k < v@.len() ==> (#[trigger] v@[k]).account_id == account_id),
        r matches Ok(v) ==> (forall|k1: int, k2: int|
            0 <= k1 <= k2 < v@.len()
                ==> (#[trigger] v@[k1]).timestamp >= (#[trigger] v@[k2]).timestamp),
{
    let rows = match select_transactions_desc(conn, account_id) {
        Ok(rs) => rs,
        Err(_) => {
            return Err(LedgerError::ProviderFailure);
        },
    };
    let r = decode_transactions(account_id, &rows);
    proof {
        if let Ok(v) = &r {
            assert forall|k1: int, k2: int| 0 <= k1 <= k2 < v@.len() implies
                v@[k1].timestamp >= v@[k2].timestamp by {
                assert(v@[k1] == record_of_row(account_id, rows@[k1]));
                assert(v@[k2] == record_of_row(account_id, rows@[k2]));
            }
        }
    }
    r
}

} // verus!
