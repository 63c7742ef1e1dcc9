//! The ledger update protocol: the rules that keep account balances and the
//! append-only transaction log mutually consistent under deposits,
//! withdrawals, and transfers.
//!
//! `LedgerView` is the mathematical model of the whole ledger state; the
//! transition spec functions (`spec_open_account`, `spec_deposit`,
//! `spec_withdraw`, `spec_transfer`) say exactly what each operation does.
//! `Ledger` is an executable in-memory ledger whose operations are proved
//! to implement those transitions.

use vstd::prelude::*;
use crate::LedgerError;

verus! {

/// The type tag of a transaction record.
#[derive(Clone, Copy, Debug, PartialEq, Eq, Structural)]
pub enum TransactionKind {
    Deposit,
    Withdrawal,
}

/// One immutable entry of the append-only transaction log.
///
/// Amounts and balances are integer quantities in the currency's minor
/// unit; timestamps are logical: the ledger stamps each record with its
/// position in the log, so later records always carry larger timestamps.
#[derive(Clone, Copy, Debug, PartialEq, Eq, Structural)]
pub struct TransactionRecord {
    pub id: i64,
    pub account_id: i64,
    pub amount: i64,
    pub kind: TransactionKind,
    pub timestamp: i64,
}

/// One account row: id, holder name, current balance.
#[derive(Clone, Debug)]
pub struct Account {
    pub id: i64,
    pub holder: String,
    pub balance: i64,
}

/// The mathematical value of an account: the holder name as a sequence of
/// characters, the rest as plain integers.
pub ghost struct AccountV {
    pub id: i64,
    pub holder: Seq<char>,
    pub balance: i64,
}

impl View for Account {
    type V = AccountV;

    open spec fn view(&self) -> AccountV {
        AccountV { id: self.id, holder: self.holder@, balance: self.balance }
    }
}

/// The mathematical value of a whole ledger: the account rows and the
/// transaction log, in storage order.
#[verifier::ext_equal]
pub ghost struct LedgerView {
    pub accounts: Seq<AccountV>,
    pub transactions: Seq<TransactionRecord>,
}

impl LedgerView {
    /// Well-formedness: account ids are assigned sequentially from 1,
    /// holder names are non-empty, transaction ids and timestamps are
    /// assigned sequentially from 1, and every record references an
    /// existing account.
    pub open spec fn wf(self) -> bool {
        &&& forall|i: int| 0 <= i < self.accounts.len() ==> {
            &&& (#[trigger] self.accounts[i]).id == i + 1
            &&& self.accounts[i].holder.len() > 0
        }
        &&& forall|j: int| 0 <= j < self.transactions.len() ==> {
            &&& (#[trigger] self.transactions[j]).id == j + 1
            &&& self.transactions[j].timestamp == j + 1
            &&& 1 <= self.transactions[j].account_id <= self.accounts.len()
        }
    }

    /// Does an account with this id exist?
    pub open spec fn has_account(self, account_id: i64) -> bool {
        1 <= account_id <= self.accounts.len()
    }

    /// The balance of the account with this id (meaningful only when the
    /// account exists).
    pub open spec fn balance_of(self, account_id: i64) -> i64 {
        self.accounts[account_id - 1].balance
    }

    /// The transaction records of one account, most recent first.
    pub open spec fn transactions_of(self, account_id: i64) -> Seq<TransactionRecord> {
        txs_desc(self.transactions, account_id)
    }
}

/// The records of `ts` whose `account_id` matches, in reverse storage
/// order (most recent first).
pub open spec fn txs_desc(ts: Seq<TransactionRecord>, account_id: i64) -> Seq<TransactionRecord>
    decreases ts.len(),
{
    if ts.len() == 0 {
        Seq::empty()
    } else if ts.last().account_id == account_id {
        seq![ts.last()] + txs_desc(ts.drop_last(), account_id)
    } else {
        txs_desc(ts.drop_last(), account_id)
    }
}

/// Does this mathematical integer fit in the signed 64-bit range?
pub open spec fn fits_i64(v: int) -> bool {
    i64::MIN <= v <= i64::MAX
}

/// Transition: open an account. Appends one account row holding the
/// initial deposit, writes no transaction record, and returns the newly
/// assigned id.
pub open spec fn spec_open_account(l: LedgerView, holder: Seq<char>, initial_deposit: i64) -> (LedgerView, i64) {
    let id = (l.accounts.len() + 1) as i64;
    (
        LedgerView {
            accounts: l.accounts.push(AccountV { id, holder, balance: initial_deposit }),
            transactions: l.transactions,
        },
        id,
    )
}

/// Transition: deposit. Fails with `AccountNotFound` when the account does
/// not exist and with `BalanceOverflow` when the new balance would not be
/// representable, changing nothing; otherwise adds the amount to the
/// balance and appends exactly one deposit record.
pub open spec fn spec_deposit(l: LedgerView, account_id: i64, amount: i64) -> (LedgerView, Result<(), LedgerError>) {
    if !l.has_account(account_id) {
        (l, Err(LedgerError::AccountNotFound))
    } else if !fits_i64(l.balance_of(account_id) + amount) {
        (l, Err(LedgerError::BalanceOverflow))
    } else {
        (apply_update(l, account_id, (l.balance_of(account_id) + amount) as i64, amount, TransactionKind::Deposit), Ok(()))
    }
}

/// Transition: withdraw. Fails with `AccountNotFound` when the account
/// does not exist, with `InsufficientFunds` when the balance is below the
/// amount (the balance is never driven below what the amount leaves), and
/// with `BalanceOverflow` when the new balance would not be representable,
/// changing nothing; otherwise subtracts the amount and appends exactly
/// one withdrawal record.
pub open spec fn spec_withdraw(l: LedgerView, account_id: i64, amount: i64) -> (LedgerView, Result<(), LedgerError>) {
    if !l.has_account(account_id) {
        (l, Err(LedgerError::AccountNotFound))
    } else if l.balance_of(account_id) < amount {
        (l, Err(LedgerError::InsufficientFunds))
    } else if !fits_i64(l.balance_of(account_id) - amount) {
        (l, Err(LedgerError::BalanceOverflow))
    } else {
        (apply_update(l, account_id, (l.balance_of(account_id) - amount) as i64, amount, TransactionKind::Withdrawal), Ok(()))
    }
}

/// The common write of a successful deposit or withdrawal: set the new
/// balance and append exactly one record for it.
pub open spec fn apply_update(l: LedgerView, account_id: i64, new_balance: i64, amount: i64, kind: TransactionKind) -> LedgerView {
    let next = (l.transactions.len() + 1) as i64;
    LedgerView {
        accounts: l.accounts.update(
            account_id - 1,
            AccountV { id: account_id, holder: l.accounts[account_id - 1].holder, balance: new_balance },
        ),
        transactions: l.transactions.push(TransactionRecord {
            id: next,
            account_id,
            amount,
            kind,
            timestamp: next,
        }),
    }
}

/// Transition: transfer, composed as a withdrawal from `from` followed by
/// a deposit to `to`. When the withdrawal fails nothing changes; when the
/// withdrawal succeeds and the deposit then fails, the withdrawal stays
/// applied and the error is reported (the documented partial-failure mode
/// of the two-step design).
pub open spec fn spec_transfer(l: LedgerView, from: i64, to: i64, amount: i64) -> (LedgerView, Result<(), LedgerError>) {
    let (l1, r1) = spec_withdraw(l, from, amount);
    if r1 is Err {
        (l1, r1)
    } else {
        spec_deposit(l1, to, amount)
    }
}

/// The mathematical value of persisted rows: what a ledger rebuilt from
/// them would be.
pub open spec fn rows_view(accounts: Seq<Account>, transactions: Seq<TransactionRecord>) -> LedgerView {
    LedgerView {
        accounts: Seq::new(accounts.len(), |i: int| accounts[i]@),
        transactions,
    }
}

/// An executable in-memory ledger: account rows and the append-only
/// transaction log. Every operation is proved to implement the
/// corresponding transition spec function.
pub struct Ledger {
    accounts: Vec<Account>,
    transactions: Vec<TransactionRecord>,
}

impl View for Ledger {
    type V = LedgerView;

    closed spec fn view(&self) -> LedgerView {
        LedgerView {
            accounts: Seq::new(self.accounts@.len(), |i: int| self.accounts@[i]@),
            transactions: self.transactions@,
        }
    }
}

impl Ledger {
    /// An empty ledger: no accounts, no transactions.
    pub fn new() -> (r: Ledger)
        ensures
            r@.accounts =~= Seq::<AccountV>::empty(),
            r@.transactions =~= Seq::<TransactionRecord>::empty(),
            r@.wf(),
    {
        Ledger { accounts: Vec::new(), transactions: Vec::new() }
    }

    /// From well-formedness, the account ids in use are exactly 1 up to
    /// the number of rows, so the row count fits in an id.
    proof fn lemma_len_bounds(&self)
        requires
            self@.wf(),
        ensures
            self@.accounts.len() <= i64::MAX,
            self@.transactions.len() <= i64::MAX,
    {
        if self@.accounts.len() > 0 {
            assert(self@.accounts[self@.accounts.len() - 1].id == self@.accounts.len() as int);
        }
        if self@.transactions.len() > 0 {
            assert(self@.transactions[self@.transactions.len() - 1].id == self@.transactions.len() as int);
        }
    }

    /// Open an account: appends one account row holding the initial
    /// deposit, writes no transaction record, and returns the new id.
    pub fn open_account(&mut self, holder: String, initial_deposit: i64) -> (r: i64)
        requires
            old(self)@.wf(),
            holder@.len() > 0,
            old(self)@.accounts.len() < i64::MAX,
        ensures
            final(self)@ == spec_open_account(old(self)@, holder@, initial_deposit).0,
            r == spec_open_account(old(self)@, holder@, initial_deposit).1,
            final(self)@.wf(),
    {
        let id: i64 = self.accounts.len() as i64 + 1;
        let ghost pre = self@;
        self.accounts.push(Account { id, holder, balance: initial_deposit });
        proof {
            assert(self@.accounts =~= spec_open_account(pre, holder@, initial_deposit).0.accounts);
            assert(self@ =~= spec_open_account(pre, holder@, initial_deposit).0);
        }
        id
    }

    /// The current balance of an account, or `None` when no such account
    /// exists.
    pub fn balance_of(&self, account_id: i64) -> (r: Option<i64>)
        requires
            self@.wf(),
        ensures
            r is Some <==> self@.has_account(account_id),
            r is Some ==> r->0 == self@.balance_of(account_id),
    {
        proof {
            self.lemma_len_bounds();
        }
        if account_id < 1 || account_id > self.accounts.len() as i64 {
            return None;
        }
        let idx: usize = (account_id - 1) as usize;
        Some(self.accounts[idx].balance)
    }

    /// Deposit: adds the amount to the account's balance and appends
    /// exactly one deposit record, or reports why nothing was changed.
    pub fn deposit(&mut self, account_id: i64, amount: i64) -> (r: Result<(), LedgerError>)
        requires
            old(self)@.wf(),
            old(self)@.transactions.len() < i64::MAX,
        ensures
            final(self)@ == spec_deposit(old(self)@, account_id, amount).0,
            r == spec_deposit(old(self)@, account_id, amount).1,
            final(self)@.wf(),
    {
        proof {
            self.lemma_len_bounds();
        }
        let ghost pre = self@;
        if account_id < 1 || account_id > self.accounts.len() as i64 {
            return Err(LedgerError::AccountNotFound);
        }
        let idx: usize = (account_id - 1) as usize;
        let balance: i64 = self.accounts[idx].balance;
        let new_balance: i64 = match checked_add_i64(balance, amount) {
            Some(nb) => nb,
            None => {
                return Err(LedgerError::BalanceOverflow);
            },
        };
        self.record_update(idx, new_balance, amount, TransactionKind::Deposit);
        proof {
            assert(self@ =~= spec_deposit(pre, account_id, amount).0);
        }
        Ok(())
    }

    /// Withdraw: subtracts the amount from the account's balance and
    /// appends exactly one withdrawal record; a withdrawal of more than
    /// the balance is refused with `InsufficientFunds` and changes
    /// nothing.
    pub fn withdraw(&mut self, account_id: i64, amount: i64) -> (r: Result<(), LedgerError>)
        requires
            old(self)@.wf(),
            old(self)@.transactions.len() < i64::MAX,
        ensures
            final(self)@ == spec_withdraw(old(self)@, account_id, amount).0,
            r == spec_withdraw(old(self)@, account_id, amount).1,
            final(self)@.wf(),
    {
        proof {
            self.lemma_len_bounds();
        }
        let ghost pre = self@;
        if account_id < 1 || account_id > self.accounts.len() as i64 {
            return Err(LedgerError::AccountNotFound);
        }
        let idx: usize = (account_id - 1) as usize;
        let balance: i64 = self.accounts[idx].balance;
        if balance < amount {
            return Err(LedgerError::InsufficientFunds);
        }
        let new_balance: i64 = match checked_sub_i64(balance, amount) {
            Some(nb) => nb,
            None => {
                return Err(LedgerError::BalanceOverflow);
            },
        };
        self.record_update(idx, new_balance, amount, TransactionKind::Withdrawal);
        proof {
            assert(self@ =~= spec_withdraw(pre, account_id, amount).0);
        }
        Ok(())
    }

    /// The common write of a successful deposit or withdrawal: set the new
    /// balance of the row at `idx` and append exactly one record for it.
    fn record_update(&mut self, idx: usize, new_balance: i64, amount: i64, kind: TransactionKind)
        requires
            old(self)@.wf(),
            idx < old(self)@.accounts.len(),
            old(self)@.transactions.len() < i64::MAX,
        ensures
            final(self)@ == apply_update(old(self)@, (idx + 1) as i64, new_balance, amount, kind),
            final(self)@.wf(),
    {
        proof {
            self.lemma_len_bounds();
        }
        let ghost pre = self@;
        let account_id: i64 = idx as i64 + 1;
        let holder = self.accounts[idx].holder.clone();
        self.accounts[idx] = Account { id: account_id, holder, balance: new_balance };
        let next: i64 = self.transactions.len() as i64 + 1;
        self.transactions.push(TransactionRecord {
            id: next,
            account_id,
            amount,
            kind,
            timestamp: next,
        });
        proof {
            assert(self@.accounts =~= apply_update(pre, account_id, new_balance, amount, kind).accounts);
            assert(self@ =~= apply_update(pre, account_id, new_balance, amount, kind));
        }
    }

    /// Transfer: a withdrawal from `from` followed by a deposit to `to`.
    /// When the withdrawal fails nothing changes; when the deposit then
    /// fails, the withdrawal stays applied and the error is reported.
    pub fn transfer(&mut self, from: i64, to: i64, amount: i64) -> (r: Result<(), LedgerError>)
        requires
            old(self)@.wf(),
            old(self)@.transactions.len() + 2 <= i64::MAX,
        ensures
            final(self)@ == spec_transfer(old(self)@, from, to, amount).0,
            r == spec_transfer(old(self)@, from, to, amount).1,
            final(self)@.wf(),
    {
        self.withdraw(from, amount)?;
        self.deposit(to, amount)
    }

    /// All transaction records of one account, most recent first.
    pub fn list_transactions(&self, account_id: i64) -> (r: Vec<TransactionRecord>)
        requires
            self@.wf(),
        ensures
            r@ == self@.transactions_of(account_id),
    {
        let mut r: Vec<TransactionRecord> = Vec::new();
        let mut j: usize = self.transactions.len();
        proof {
            assert(self@.transactions.subrange(j as int, self@.transactions.len() as int) =~= Seq::<TransactionRecord>::empty());
        }
        while j > 0
            invariant
                j <= self.transactions.len(),
                r@ == txs_desc(self@.transactions.subrange(j as int, self@.transactions.len() as int), account_id),
            decreases j,
        {
            j = j - 1;
            let t: TransactionRecord = self.transactions[j];
            proof {
                let whole = self@.transactions;
                let suffix = whole.subrange(j as int + 1, whole.len() as int);
                assert(whole.subrange(j as int, whole.len() as int) =~= seq![whole[j as int]] + suffix);
                lemma_txs_desc_prepend(suffix, whole[j as int], account_id);
            }
            if t.account_id == account_id {
                r.push(t);
            }
            proof {
                let whole = self@.transactions;
                let suffix = whole.subrange(j as int + 1, whole.len() as int);
                assert(r@ =~= txs_desc(whole.subrange(j as int, whole.len() as int), account_id));
            }
        }
        proof {
            assert(self@.transactions.subrange(0, self@.transactions.len() as int) =~= self@.transactions);
        }
        r
    }
}

impl Ledger {
    /// The account rows, as they would be persisted.
    pub fn accounts(&self) -> (r: &Vec<Account>)
        ensures
            r@.len() == self@.accounts.len(),
            forall|i: int| 0 <= i < r@.len() ==> (#[trigger] r@[i])@ == self@.accounts[i],
    {
        &self.accounts
    }

    /// The transaction log, as it would be persisted.
    pub fn transactions(&self) -> (r: &Vec<TransactionRecord>)
        ensures
            r@ == self@.transactions,
    {
        &self.transactions
    }

    /// Rebuild a ledger from persisted rows. Rows read back unchanged
    /// yield exactly the ledger that wrote them; rows that do not form a
    /// well-formed ledger are refused.
    pub fn from_rows(accounts: Vec<Account>, transactions: Vec<TransactionRecord>) -> (r: Option<
        Ledger,
    >)
        ensures
            r is Some <==> rows_view(accounts@, transactions@).wf(),
            r matches Some(l) ==> l@ == rows_view(accounts@, transactions@),
    {
        let ghost rv = rows_view(accounts@, transactions@);
        if accounts.len() as u64 > i64::MAX as u64 {
            proof {
                assert(!rv.wf()) by {
                    if rv.wf() {
                        assert(rv.accounts[i64::MAX as int].id == i64::MAX as int + 1);
                    }
                }
            }
            return None;
        }
        let n_accounts: i64 = accounts.len() as i64;
        let mut i: usize = 0;
        while i < accounts.len()
            invariant
                i <= accounts@.len(),
                forall|k: int| 0 <= k < i ==> (#[trigger] accounts@[k]).id == k + 1,
                forall|k: int| 0 <= k < i ==> (#[trigger] accounts@[k]).holder@.len() > 0,
                accounts@.len() <= i64::MAX,
            decreases accounts@.len() - i,
        {
            let ok = accounts[i].id == i as i64 + 1 && !accounts[i].holder.as_str().is_empty();
            if !ok {
                proof {
                    let rv2 = rows_view(accounts@, transactions@);
                    assert(!rv2.wf()) by {
                        if rv2.wf() {
                            assert(rv2.accounts[i as int] == accounts@[i as int]@);
                        }
                    }
                }
                return None;
            }
            i = i + 1;
        }
        if transactions.len() as u64 > i64::MAX as u64 {
            proof {
                assert(!rv.wf()) by {
                    if rv.wf() {
                        assert(rv.transactions[i64::MAX as int].id == i64::MAX as int + 1);
                    }
                }
            }
            return None;
        }
        let mut j: usize = 0;
        while j < transactions.len()
            invariant
                j <= transactions@.len(),
                forall|k: int| 0 <= k < j ==> (#[trigger] transactions@[k]).id == k + 1,
                forall|k: int| 0 <= k < j ==> (#[trigger] transactions@[k]).timestamp == k + 1,
                forall|k: int|
                    0 <= k < j ==> 1 <= (#[trigger] transactions@[k]).account_id <= accounts@.len(),
                transactions@.len() <= i64::MAX,
                accounts@.len() <= i64::MAX,
                n_accounts == accounts@.len(),
            decreases transactions@.len() - j,
        {
            let t = transactions[j];
            let ok = t.id == j as i64 + 1 && t.timestamp == j as i64 + 1 && 1 <= t.account_id
                && t.account_id <= n_accounts;
            if !ok {
                proof {
                    let rv2 = rows_view(accounts@, transactions@);
                    assert(!rv2.wf()) by {
                        if rv2.wf() {
                            assert(rv2.transactions[j as int] == transactions@[j as int]);
                        }
                    }
                }
                return None;
            }
            j = j + 1;
        }
        let l = Ledger { accounts, transactions };
        proof {
            assert(l@ =~= rv);
            assert(rv.wf());
        }
        Some(l)
    }
}

/// Prepending one record to the log appends it (when it matches) to the
/// descending listing of the rest.
proof fn lemma_txs_desc_prepend(s: Seq<TransactionRecord>, x: TransactionRecord, account_id: i64)
    ensures
        txs_desc(seq![x] + s, account_id) == txs_desc(s, account_id)
            + (if x.account_id == account_id { seq![x] } else { Seq::<TransactionRecord>::empty() }),
    decreases s.len(),
{
    let w = seq![x] + s;
    if s.len() == 0 {
        assert(w =~= seq![x]);
        assert(s =~= Seq::<TransactionRecord>::empty());
        assert(w.drop_last() =~= s);
        assert(w.last() == x);
        assert(txs_desc(w, account_id) =~= txs_desc(s, account_id)
            + (if x.account_id == account_id { seq![x] } else { Seq::<TransactionRecord>::empty() }));
    } else {
        let rest = s.drop_last();
        let tailx: Seq<TransactionRecord> = if x.account_id == account_id {
            seq![x]
        } else {
            Seq::<TransactionRecord>::empty()
        };
        assert(w.last() == s.last());
        assert(w.drop_last() =~= seq![x] + rest);
        lemma_txs_desc_prepend(rest, x, account_id);
        assert(txs_desc(w.drop_last(), account_id) == txs_desc(rest, account_id) + tailx);
        if s.last().account_id == account_id {
            assert(txs_desc(w, account_id) == seq![s.last()] + (txs_desc(rest, account_id) + tailx));
            assert(txs_desc(s, account_id) == seq![s.last()] + txs_desc(rest, account_id));
            assert(txs_desc(w, account_id) =~= txs_desc(s, account_id) + tailx);
        } else {
            assert(txs_desc(w, account_id) == txs_desc(rest, account_id) + tailx);
            assert(txs_desc(s, account_id) == txs_desc(rest, account_id));
            assert(txs_desc(w, account_id) =~= txs_desc(s, account_id) + tailx);
        }
    }
}

/// `a + b` when the sum is representable, `None` when it is not.
pub fn checked_add_i64(a: i64, b: i64) -> (r: Option<i64>)
    ensures
        r is Some <==> fits_i64(a + b),
        r is Some ==> r->0 == a + b,
{
    let wide: i128 = a as i128 + b as i128;
    if wide < i64::MIN as i128 || wide > i64::MAX as i128 {
        None
    } else {
        Some(wide as i64)
    }
}

/// `a - b` when the difference is representable, `None` when it is not.
pub fn checked_sub_i64(a: i64, b: i64) -> (r: Option<i64>)
    ensures
        r is Some <==> fits_i64(a - b),
        r is Some ==> r->0 == a - b,
{
    let wide: i128 = a as i128 - b as i128;
    if wide < i64::MIN as i128 || wide > i64::MAX as i128 {
        None
    } else {
        Some(wide as i64)
    }
}

} // verus!
