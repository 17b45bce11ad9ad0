//! Ledger events recorded by an account.
use vstd::prelude::*;

verus! {

/// One recorded ledger event.
pub enum Transaction {
    /// Money paid in on `date`, a caller-supplied text that is never parsed.
    Deposit { date: String, amount: u64 },
}

/// The mathematical value of a [`Transaction`].
pub enum TransactionView {
    Deposit { date: Seq<char>, amount: u64 },
}

impl TransactionView {
    pub open spec fn date(self) -> Seq<char> {
        match self {
            TransactionView::Deposit { date, .. } => date,
        }
    }

    pub open spec fn amount(self) -> nat {
        match self {
            TransactionView::Deposit { amount, .. } => amount as nat,
        }
    }
}

impl View for Transaction {
    type V = TransactionView;

    open spec fn view(&self) -> TransactionView {
        match self {
            Transaction::Deposit { date, amount } => TransactionView::Deposit {
                date: date@,
                amount: *amount,
            },
        }
    }
}

/// The views of a sequence of transactions, in the same order.
pub open spec fn views(s: Seq<Transaction>) -> Seq<TransactionView> {
    s.map_values(|t: Transaction| t@)
}

impl Transaction {
    /// A deposit of `amount` dated `date`.
    pub fn deposit(date: String, amount: u64) -> (r: Transaction)
        ensures
            r@ == (TransactionView::Deposit { date: date@, amount }),
    {
        Transaction::Deposit { date, amount }
    }

    /// An independent copy of this transaction.
    pub fn duplicate(&self) -> (r: Transaction)
        ensures
            r@ == self@,
    {
        match self {
            Transaction::Deposit { date, amount } => Transaction::Deposit {
                date: date.clone(),
                amount: *amount,
            },
        }
    }

    /// The amount of money this transaction moves.
    pub fn amount(&self) -> (r: u64)
        ensures
            r as nat == self@.amount(),
    {
        match self {
            Transaction::Deposit { amount, .. } => *amount,
        }
    }

    /// The date this transaction was recorded on.
    pub fn date(&self) -> (r: &String)
        ensures
            r@ == self@.date(),
    {
        match self {
            Transaction::Deposit { date, .. } => date,
        }
    }
}

} // verus!
