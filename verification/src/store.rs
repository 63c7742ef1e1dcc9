//! The persistence provider: a SQLite database reached through rusqlite.
//!
//! Every item here is trusted: each wrapper's body holds one database
//! call and nothing else, and nothing is claimed of the store's contents,
//! which live outside this process. The decisions taken on what these
//! calls return are verified in `crate::bank`.

use vstd::prelude::*;

verus! {

/// Declares rusqlite::Connection, the handle to one open database, so
/// that it can stand in signatures; it is opaque here.
#[verifier::external_type_specification]
#[verifier::external_body]
pub struct ExConnection(rusqlite::Connection);

/// Declares rusqlite::Error, the store's own error type; it is opaque
/// here and is mapped to `LedgerError::ProviderFailure` in `crate::bank`.
#[verifier::external_type_specification]
#[verifier::external_body]
pub struct ExSqlError(rusqlite::Error);

/// Relies on rusqlite::Connection::last_insert_rowid: the id of the most
/// recent successful INSERT on this connection.
pub assume_specification[ rusqlite::Connection::last_insert_rowid ](
    conn: &rusqlite::Connection,
) -> i64;

/// Relies on rusqlite::Connection::execute: creates the accounts relation
/// (id, holder, balance) if it does not exist yet.
#[verifier::external_body]
pub(crate) fn init_accounts_table(conn: &rusqlite::Connection) -> (r: Result<
    (),
    rusqlite::Error,
>) {
    conn.execute(
        "CREATE TABLE IF NOT EXISTS accounts (
            account_id INTEGER PRIMARY KEY,
            account_holder TEXT NOT NULL,
            balance INTEGER NOT NULL
        )",
        (),
    )?;
    Ok(())
}

/// Relies on rusqlite::Connection::execute: creates the transactions
/// relation (id, account id, amount, type tag, timestamp) if it does not
/// exist yet, with a foreign key to the accounts relation.
#[verifier::external_body]
pub(crate) fn init_transactions_table(conn: &rusqlite::Connection) -> (r: Result<
    (),
    rusqlite::Error,
>) {
    conn.execute(
        "CREATE TABLE IF NOT EXISTS transactions (
            transaction_id INTEGER PRIMARY KEY,
            account_id INTEGER NOT NULL,
            amount INTEGER NOT NULL,
            transaction_type INTEGER NOT NULL,
            timestamp INTEGER NOT NULL,
            FOREIGN KEY(account_id) REFERENCES accounts(account_id)
        )",
        (),
    )?;
    Ok(())
}

/// Relies on rusqlite::Connection::execute_batch: opens a write
/// transaction, so that the store calls until the matching commit apply
/// as one atomic unit.
#[verifier::external_body]
pub(crate) fn begin_transaction(conn: &rusqlite::Connection) -> (r: Result<(), rusqlite::Error>) {
    conn.execute_batch("BEGIN IMMEDIATE")
}

/// Relies on rusqlite::Connection::execute_batch: commits the open
/// transaction, making its writes observable together.
#[verifier::external_body]
pub(crate) fn commit_transaction(conn: &rusqlite::Connection) -> (r: Result<(), rusqlite::Error>) {
    conn.execute_batch("COMMIT")
}

/// Relies on rusqlite::Connection::execute_batch: rolls the open
/// transaction back, discarding its writes together.
#[verifier::external_body]
pub(crate) fn rollback_transaction(conn: &rusqlite::Connection) -> (r: Result<
    (),
    rusqlite::Error,
>) {
    conn.execute_batch("ROLLBACK")
}

/// Relies on rusqlite::Connection::execute: appends one row to the
/// accounts relation; the store assigns its id.
#[verifier::external_body]
pub(crate) fn insert_account_row(
    conn: &rusqlite::Connection,
    holder: &str,
    balance: i64,
) -> (r: Result<(), rusqlite::Error>) {
    conn.execute(
        "INSERT INTO accounts (account_holder, balance) VALUES (?1, ?2)",
        (holder, balance),
    )?;
    Ok(())
}

/// Relies on rusqlite::Connection::query_row: the stored balance of the
/// account, or `None` when no row carries this id
/// (rusqlite reports that as Error::QueryReturnedNoRows).
#[verifier::external_body]
pub(crate) fn select_balance(conn: &rusqlite::Connection, account_id: i64) -> (r: Result<
    Option<i64>,
    rusqlite::Error,
>) {
    match conn.query_row(
        "SELECT balance FROM accounts WHERE account_id = ?1",
        (account_id,),
        |row| row.get(0),
    ) {
        Ok(b) => Ok(Some(b)),
        Err(rusqlite::Error::QueryReturnedNoRows) => Ok(None),
        Err(e) => Err(e),
    }
}

/// Relies on rusqlite::Connection::execute: writes the account's stored
/// balance.
#[verifier::external_body]
pub(crate) fn update_balance(
    conn: &rusqlite::Connection,
    account_id: i64,
    new_balance: i64,
) -> (r: Result<(), rusqlite::Error>) {
    conn.execute(
        "UPDATE accounts SET balance = ?2 WHERE account_id = ?1",
        (account_id, new_balance),
    )?;
    Ok(())
}

/// Relies on rusqlite::Connection::execute: appends one row to the
/// transactions relation.
#[verifier::external_body]
pub(crate) fn insert_transaction_row(
    conn: &rusqlite::Connection,
    account_id: i64,
    amount: i64,
    kind_code: i64,
    timestamp: i64,
) -> (r: Result<(), rusqlite::Error>) {
    conn.execute(
        "INSERT INTO transactions (account_id, amount, transaction_type, timestamp)
         VALUES (?1, ?2, ?3, ?4)",
        (account_id, amount, kind_code, timestamp),
    )?;
    Ok(())
}

/// Relies on rusqlite::Connection::query_row: how many rows the
/// transactions relation holds.
#[verifier::external_body]
pub(crate) fn count_transactions(conn: &rusqlite::Connection) -> (r: Result<
    i64,
    rusqlite::Error,
>) {
    conn.query_row("SELECT COUNT(*) FROM transactions", (), |row| row.get(0))
}

/// Relies on rusqlite::Statement::query_map: the stored rows
/// (id, amount, type tag, timestamp) of one account's transactions. The
/// statement orders by the stored timestamp, largest first, so the rows
/// come back non-increasing in their fourth field.
#[verifier::external_body]
pub(crate) fn select_transactions_desc(
    conn: &rusqlite::Connection,
    account_id: i64,
) -> (r: Result<Vec<(i64, i64, i64, i64)>, rusqlite::Error>)
    ensures
        r matches Ok(rows) ==> (forall|k1: int, k2: int|
            0 <= k1 <= k2 < rows@.len() ==> (#[trigger] rows@[k1]).3 >= (#[trigger] rows@[k2]).3),
{
    let mut stmt = conn.prepare(
        "SELECT transaction_id, amount, transaction_type, timestamp FROM transactions
         WHERE account_id = ?1 ORDER BY timestamp DESC",
    )?;
    let rows = stmt.query_map((account_id,), |row| {
        Ok((row.get(0)?, row.get(1)?, row.get(2)?, row.get(3)?))
    })?;
    rows.collect()
}

} // verus!
