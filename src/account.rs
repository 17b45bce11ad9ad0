//! An account that records deposits and prints its statement.
use vstd::prelude::*;
use crate::calendar::Calendar;
use crate::printer::Printer;
use crate::repository::TransactionsRepository;
use crate::statement::{statement, statement_lines, texts};
use crate::transaction::{Transaction, TransactionView};

verus! {

/// Failures of an account operation.
#[derive(Clone, Copy, Debug, PartialEq, Eq, Structural)]
pub enum AccountError {
    /// The operation has no defined behaviour yet.
    UnsupportedOperation,
}

/// An account over a printer, a store of transactions and a calendar.
pub struct Account<P: Printer, TR: TransactionsRepository, C: Calendar> {
    pub printer: P,
    pub transactions_repository: TR,
    pub calendar: C,
}

impl<P: Printer, TR: TransactionsRepository, C: Calendar> Account<P, TR, C> {
    /// The history of the account, oldest first.
    pub open spec fn history(&self) -> Seq<TransactionView> {
        self.transactions_repository.history()
    }

    /// An account over the given collaborators.
    pub fn new(printer: P, transactions_repository: TR, calendar: C) -> (r: Self)
        ensures
            r.printer == printer,
            r.transactions_repository == transactions_repository,
            r.calendar == calendar,
    {
        Account { printer, transactions_repository, calendar }
    }

    /// Records a deposit of `value` dated `date`.
    pub fn deposit_on(&mut self, date: String, value: u64)
        ensures
            final(self).history() == old(self).history().push(
                TransactionView::Deposit { date: date@, amount: value },
            ),
            final(self).printer == old(self).printer,
            final(self).calendar == old(self).calendar,
    {
        self.transactions_repository.add(Transaction::deposit(date, value));
    }

    /// Records a deposit of `value` dated with the calendar's current date.
    pub fn deposit(&mut self, value: u64)
        ensures
            final(self).history() == old(self).history().push(
                TransactionView::Deposit { date: final(self).history().last().date(), amount: value },
            ),
            final(self).printer == old(self).printer,
            final(self).calendar == old(self).calendar,
    {
        let date = self.calendar.today();
        self.deposit_on(date, value);
    }

    /// Withdrawals have no defined behaviour: this always fails and changes
    /// nothing.
    pub fn withdraw(&mut self, value: u64) -> (r: Result<(), AccountError>)
        ensures
            r == Err::<(), AccountError>(AccountError::UnsupportedOperation),
            *final(self) == *old(self),
    {
        Err(AccountError::UnsupportedOperation)
    }

    /// Sends the statement of the history to the printer, one line at a time:
    /// the header, then each transaction, most recent first.
    pub fn print_statement(&mut self)
        ensures
            final(self).printer.printed() == old(self).printer.printed() + statement(
                old(self).history(),
            ),
            final(self).transactions_repository == old(self).transactions_repository,
            final(self).calendar == old(self).calendar,
    {
        let history = self.transactions_repository.all();
        let lines = statement_lines(&history);
        let mut k: usize = 0;
        while k < lines.len()
            invariant
                k <= lines@.len(),
                texts(lines@) == statement(old(self).history()),
                self.printer.printed() == old(self).printer.printed() + texts(lines@).take(k as int),
                self.transactions_repository == old(self).transactions_repository,
                self.calendar == old(self).calendar,
            decreases lines@.len() - k,
        {
            self.printer.print(lines[k].as_str());
            assert(texts(lines@).take(k + 1) =~= texts(lines@).take(k as int).push(lines@[k as int]@));
            k = k + 1;
        }
        assert(texts(lines@).take(k as int) =~= texts(lines@));
    }
}

/// Printing the statement twice with nothing recorded in between sends the
/// same lines both times: `a1` is `a0` after one print, `a2` is `a1` after
/// another.
pub proof fn lemma_print_statement_repeatable<P: Printer, TR: TransactionsRepository, C: Calendar>(
    a0: Account<P, TR, C>,
    a1: Account<P, TR, C>,
    a2: Account<P, TR, C>,
)
    requires
        a1.printer.printed() == a0.printer.printed() + statement(a0.history()),
        a1.transactions_repository == a0.transactions_repository,
        a2.printer.printed() == a1.printer.printed() + statement(a1.history()),
    ensures
        a2.printer.printed().skip(a0.printer.printed().len() as int) == statement(a0.history())
            + statement(a0.history()),
        a2.printer.printed().subrange(
            a0.printer.printed().len() as int,
            a1.printer.printed().len() as int,
        ) == a2.printer.printed().skip(a1.printer.printed().len() as int),
{
    let s = statement(a0.history());
    let p0 = a0.printer.printed();
    assert(a2.printer.printed() =~= p0 + s + s);
    assert(a2.printer.printed().skip(p0.len() as int) =~= s + s);
    assert(a2.printer.printed().subrange(p0.len() as int, a1.printer.printed().len() as int) =~= s);
    assert(a2.printer.printed().skip(a1.printer.printed().len() as int) =~= s);
}

} // verus!
