use bank_ledger::ledger::{Ledger, TransactionKind};
use bank_ledger::LedgerError;

#[test]
fn open_account_starts_fresh() {
    let mut l = Ledger::new();
    let id: i64 = l.open_account(String::from("Alice"), 1000);
    assert_eq!(id, 1);
    assert_eq!(l.balance_of(1), Some(1000));
    assert!(l.list_transactions(1).is_empty());
}

#[test]
fn open_account_assigns_sequential_ids() {
    let mut l = Ledger::new();
    assert_eq!(l.open_account(String::from("Alice"), 0), 1);
    assert_eq!(l.open_account(String::from("Bob"), 7), 2);
    assert_eq!(l.open_account(String::from("Carol"), -5), 3);
    assert_eq!(l.balance_of(2), Some(7));
    assert_eq!(l.balance_of(3), Some(-5));
}

#[test]
fn deposit_adds_and_logs() {
    let mut l = Ledger::new();
    let id: i64 = l.open_account(String::from("Bob"), 500);
    assert_eq!(l.deposit(id, 200), Ok(()));
    assert_eq!(l.balance_of(id), Some(700));
    let ts = l.list_transactions(id);
    assert_eq!(ts.len(), 1);
    assert_eq!(ts[0].kind, TransactionKind::Deposit);
    assert_eq!(ts[0].amount, 200);
}

#[test]
fn withdraw_subtracts_and_logs() {
    let mut l = Ledger::new();
    let id: i64 = l.open_account(String::from("Charlie"), 1000);
    assert_eq!(l.withdraw(id, 300), Ok(()));
    assert_eq!(l.balance_of(id), Some(700));
    let ts = l.list_transactions(id);
    assert_eq!(ts.len(), 1);
    assert_eq!(ts[0].kind, TransactionKind::Withdrawal);
    assert_eq!(ts[0].amount, 300);
}

#[test]
fn withdraw_insufficient_changes_nothing() {
    let mut l = Ledger::new();
    let id: i64 = l.open_account(String::from("Dana"), 100);
    assert_eq!(l.withdraw(id, 101), Err(LedgerError::InsufficientFunds));
    assert_eq!(l.balance_of(id), Some(100));
    assert!(l.list_transactions(id).is_empty());
}

#[test]
fn missing_account_is_reported() {
    let mut l = Ledger::new();
    assert_eq!(l.deposit(1, 10), Err(LedgerError::AccountNotFound));
    assert_eq!(l.withdraw(1, 10), Err(LedgerError::AccountNotFound));
    assert_eq!(l.balance_of(1), None);
    assert!(l.list_transactions(1).is_empty());
}

#[test]
fn deposit_overflow_changes_nothing() {
    let mut l = Ledger::new();
    let id: i64 = l.open_account(String::from("Eve"), 1000);
    assert_eq!(l.deposit(id, i64::MAX), Err(LedgerError::BalanceOverflow));
    assert_eq!(l.balance_of(id), Some(1000));
    assert!(l.list_transactions(id).is_empty());
}

#[test]
fn withdraw_negative_overflow_changes_nothing() {
    let mut l = Ledger::new();
    let id: i64 = l.open_account(String::from("Finn"), 1000);
    assert_eq!(l.withdraw(id, i64::MIN), Err(LedgerError::BalanceOverflow));
    assert_eq!(l.balance_of(id), Some(1000));
}

#[test]
fn alice_scenario() {
    let mut l = Ledger::new();
    let id: i64 = l.open_account(String::from("Alice"), 1000);
    assert_eq!(id, 1);
    assert_eq!(l.deposit(1, 200), Ok(()));
    assert_eq!(l.balance_of(1), Some(1200));
    assert_eq!(l.withdraw(1, 150), Ok(()));
    assert_eq!(l.balance_of(1), Some(1050));
    let ts = l.list_transactions(1);
    assert_eq!(ts.len(), 2);
    assert_eq!(ts[0].kind, TransactionKind::Withdrawal);
    assert_eq!(ts[0].amount, 150);
    assert_eq!(ts[1].kind, TransactionKind::Deposit);
    assert_eq!(ts[1].amount, 200);
    assert!(ts[0].timestamp > ts[1].timestamp);
}

#[test]
fn transfer_scenario() {
    let mut l = Ledger::new();
    assert_eq!(l.open_account(String::from("Dave"), 1000), 1);
    assert_eq!(l.open_account(String::from("Eve"), 500), 2);
    assert_eq!(l.transfer(1, 2, 200), Ok(()));
    assert_eq!(l.balance_of(1), Some(800));
    assert_eq!(l.balance_of(2), Some(700));
    let from_ts = l.list_transactions(1);
    let to_ts = l.list_transactions(2);
    assert_eq!(from_ts.len(), 1);
    assert_eq!(from_ts[0].kind, TransactionKind::Withdrawal);
    assert_eq!(to_ts.len(), 1);
    assert_eq!(to_ts[0].kind, TransactionKind::Deposit);
}

#[test]
fn transfer_insufficient_changes_nothing() {
    let mut l = Ledger::new();
    l.open_account(String::from("Gina"), 100);
    l.open_account(String::from("Hugo"), 50);
    assert_eq!(l.transfer(1, 2, 200), Err(LedgerError::InsufficientFunds));
    assert_eq!(l.balance_of(1), Some(100));
    assert_eq!(l.balance_of(2), Some(50));
    assert!(l.list_transactions(1).is_empty());
    assert!(l.list_transactions(2).is_empty());
}

#[test]
fn transfer_to_missing_keeps_debit() {
    let mut l = Ledger::new();
    l.open_account(String::from("Iris"), 300);
    assert_eq!(l.transfer(1, 9, 100), Err(LedgerError::AccountNotFound));
    assert_eq!(l.balance_of(1), Some(200));
    let ts = l.list_transactions(1);
    assert_eq!(ts.len(), 1);
    assert_eq!(ts[0].kind, TransactionKind::Withdrawal);
}

#[test]
fn transfer_to_self_keeps_balance() {
    let mut l = Ledger::new();
    l.open_account(String::from("Jules"), 400);
    assert_eq!(l.transfer(1, 1, 150), Ok(()));
    assert_eq!(l.balance_of(1), Some(400));
    assert_eq!(l.list_transactions(1).len(), 2);
}

#[test]
fn listing_is_descending_by_timestamp() {
    let mut l = Ledger::new();
    l.open_account(String::from("Kai"), 1000);
    l.open_account(String::from("Lena"), 1000);
    assert_eq!(l.deposit(1, 10), Ok(()));
    assert_eq!(l.deposit(2, 20), Ok(()));
    assert_eq!(l.withdraw(1, 5), Ok(()));
    assert_eq!(l.deposit(1, 30), Ok(()));
    let ts = l.list_transactions(1);
    assert_eq!(ts.len(), 3);
    assert!(ts[0].timestamp > ts[1].timestamp);
    assert!(ts[1].timestamp > ts[2].timestamp);
    assert_eq!(ts[0].amount, 30);
    assert_eq!(ts[1].amount, 5);
    assert_eq!(ts[2].amount, 10);
    assert_eq!(l.list_transactions(2).len(), 1);
}

#[test]
fn rows_round_trip_reproduces_ledger() {
    let mut l = Ledger::new();
    l.open_account(String::from("Mara"), 1000);
    l.open_account(String::from("Nils"), 500);
    assert_eq!(l.deposit(1, 200), Ok(()));
    assert_eq!(l.withdraw(1, 150), Ok(()));
    assert_eq!(l.transfer(1, 2, 100), Ok(()));
    let accounts = l.accounts().clone();
    let transactions = l.transactions().clone();
    let reloaded = Ledger::from_rows(accounts, transactions).expect("rows must form a ledger");
    for id in 1..=2i64 {
        assert_eq!(reloaded.balance_of(id), l.balance_of(id));
        assert_eq!(reloaded.list_transactions(id), l.list_transactions(id));
    }
}

#[test]
fn from_rows_refuses_broken_rows() {
    let mut l = Ledger::new();
    l.open_account(String::from("Olga"), 10);
    assert_eq!(l.deposit(1, 5), Ok(()));
    let accounts = l.accounts().clone();
    let mut transactions = l.transactions().clone();
    transactions[0].account_id = 7;
    assert!(Ledger::from_rows(accounts, transactions).is_none());
}
