use bank_ledger::bank::{
    create_account, deposit, get_balance, init_schema, transfer, view_transactions, withdraw,
};
use bank_ledger::ledger::TransactionKind;
use bank_ledger::LedgerError;
use rusqlite::Connection;

fn setup_db() -> Connection {
    let conn = Connection::open_in_memory().unwrap();
    init_schema(&conn).unwrap();
    conn
}

#[test]
fn test_create_account() {
    let conn = setup_db();
    create_account(&conn, "Alice", 1000).unwrap();

    let mut stmt = conn
        .prepare("SELECT account_holder, balance FROM accounts WHERE account_holder = ?1")
        .unwrap();
    let result = stmt.query_row(("Alice",), |row| {
        Ok((row.get::<_, String>(0)?, row.get::<_, i64>(1)?))
    });

    match result {
        Ok((name, balance)) => {
            assert_eq!(name, "Alice");
            assert_eq!(balance, 1000);
        }
        _ => panic!("Account not found or incorrect data"),
    }
}

#[test]
fn test_deposit() {
    let conn = setup_db();
    let account_id: i64 = create_account(&conn, "Bob", 500).unwrap();
    deposit(&conn, account_id, 200).unwrap();

    let balance: i64 = conn
        .query_row(
            "SELECT balance FROM accounts WHERE account_id = ?1",
            (account_id,),
            |row| row.get(0),
        )
        .unwrap();

    assert_eq!(balance, 700);
}

#[test]
fn test_withdraw() {
    let conn = setup_db();
    let account_id: i64 = create_account(&conn, "Charlie", 1000).unwrap();
    withdraw(&conn, account_id, 300).unwrap();

    let balance: i64 = conn
        .query_row(
            "SELECT balance FROM accounts WHERE account_id = ?1",
            (account_id,),
            |row| row.get(0),
        )
        .unwrap();

    assert_eq!(balance, 700);
}

#[test]
fn test_transfer() {
    let conn = setup_db();
    let from_account_id: i64 = create_account(&conn, "Dave", 1000).unwrap();
    let to_account_id: i64 = create_account(&conn, "Eve", 500).unwrap();

    transfer(&conn, from_account_id, to_account_id, 200).unwrap();

    let from_balance: i64 = conn
        .query_row(
            "SELECT balance FROM accounts WHERE account_id = ?1",
            (from_account_id,),
            |row| row.get(0),
        )
        .unwrap();

    let to_balance: i64 = conn
        .query_row(
            "SELECT balance FROM accounts WHERE account_id = ?1",
            (to_account_id,),
            |row| row.get(0),
        )
        .unwrap();

    assert_eq!(from_balance, 800);
    assert_eq!(to_balance, 700);
}

#[test]
fn test_view_transactions() {
    let conn = setup_db();
    let account_id: i64 = create_account(&conn, "Frank", 1000).unwrap();

    deposit(&conn, account_id, 200).unwrap();
    withdraw(&conn, account_id, 150).unwrap();

    let mut stmt = conn
        .prepare("SELECT transaction_type, amount FROM transactions WHERE account_id = ?1")
        .unwrap();
    let mut rows = stmt.query((account_id,)).unwrap();

    let mut transactions = Vec::new();
    while let Some(row) = rows.next().unwrap() {
        transactions.push((row.get::<_, i64>(0).unwrap(), row.get::<_, i64>(1).unwrap()));
    }

    assert_eq!(transactions.len(), 2);
    assert_eq!(transactions[0], (0, 200));
    assert_eq!(transactions[1], (1, 150));

    let records = view_transactions(&conn, account_id).unwrap();
    assert_eq!(records.len(), 2);
    assert_eq!(records[0].kind, TransactionKind::Withdrawal);
    assert_eq!(records[0].amount, 150);
    assert_eq!(records[1].kind, TransactionKind::Deposit);
    assert_eq!(records[1].amount, 200);
    assert!(records[0].timestamp > records[1].timestamp);
}

#[test]
fn bank_alice_scenario() {
    let conn = setup_db();
    let id: i64 = create_account(&conn, "Alice", 1000).unwrap();
    assert_eq!(id, 1);
    deposit(&conn, 1, 200).unwrap();
    assert_eq!(get_balance(&conn, 1).unwrap(), Some(1200));
    withdraw(&conn, 1, 150).unwrap();
    assert_eq!(get_balance(&conn, 1).unwrap(), Some(1050));
    let records = view_transactions(&conn, 1).unwrap();
    assert_eq!(records.len(), 2);
    assert_eq!(records[0].kind, TransactionKind::Withdrawal);
    assert_eq!(records[0].amount, 150);
    assert_eq!(records[1].kind, TransactionKind::Deposit);
    assert_eq!(records[1].amount, 200);
}

#[test]
fn bank_missing_account_errors() {
    let conn = setup_db();
    assert_eq!(deposit(&conn, 1, 10), Err(LedgerError::AccountNotFound));
    assert_eq!(withdraw(&conn, 1, 10), Err(LedgerError::AccountNotFound));
    assert_eq!(get_balance(&conn, 1).unwrap(), None);
    assert_eq!(view_transactions(&conn, 1).unwrap(), Vec::new());
}

#[test]
fn bank_insufficient_funds_changes_nothing() {
    let conn = setup_db();
    let id: i64 = create_account(&conn, "Grace", 100).unwrap();
    assert_eq!(withdraw(&conn, id, 101), Err(LedgerError::InsufficientFunds));
    assert_eq!(get_balance(&conn, id).unwrap(), Some(100));
    assert!(view_transactions(&conn, id).unwrap().is_empty());
}

#[test]
fn bank_deposit_overflow_changes_nothing() {
    let conn = setup_db();
    let id: i64 = create_account(&conn, "Henry", 1000).unwrap();
    assert_eq!(deposit(&conn, id, i64::MAX), Err(LedgerError::BalanceOverflow));
    assert_eq!(get_balance(&conn, id).unwrap(), Some(1000));
    assert!(view_transactions(&conn, id).unwrap().is_empty());
}

#[test]
fn bank_transfer_to_missing_keeps_debit() {
    let conn = setup_db();
    let id: i64 = create_account(&conn, "Ivan", 300).unwrap();
    assert_eq!(transfer(&conn, id, 9, 100), Err(LedgerError::AccountNotFound));
    assert_eq!(get_balance(&conn, id).unwrap(), Some(200));
    let records = view_transactions(&conn, id).unwrap();
    assert_eq!(records.len(), 1);
    assert_eq!(records[0].kind, TransactionKind::Withdrawal);
}

#[test]
fn bank_restart_round_trip() {
    let nanos: u128 = std::time::SystemTime::now()
        .duration_since(std::time::UNIX_EPOCH)
        .unwrap()
        .as_nanos();
    let path = format!("/tmp/bank_ledger_test_{nanos}.db");
    let before;
    {
        let conn = Connection::open(&path).unwrap();
        init_schema(&conn).unwrap();
        let id: i64 = create_account(&conn, "Alice", 1000).unwrap();
        deposit(&conn, id, 200).unwrap();
        withdraw(&conn, id, 150).unwrap();
        before = (
            get_balance(&conn, id).unwrap(),
            view_transactions(&conn, id).unwrap(),
        );
    }
    let conn = Connection::open(&path).unwrap();
    init_schema(&conn).unwrap();
    assert_eq!(get_balance(&conn, 1).unwrap(), before.0);
    assert_eq!(view_transactions(&conn, 1).unwrap(), before.1);
    assert_eq!(before.0, Some(1050));
}
