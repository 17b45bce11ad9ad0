//! Append-only, insertion-ordered storage of transactions.
use vstd::prelude::*;
use crate::transaction::{views, Transaction, TransactionView};

verus! {

/// Where an account keeps its history.
pub trait TransactionsRepository {
    /// The stored transactions, oldest first.
    spec fn history(&self) -> Seq<TransactionView>;

    /// Appends `transaction` at the end of the history.
    fn add(&mut self, transaction: Transaction)
        ensures
            final(self).history() == old(self).history().push(transaction@),
    ;

    /// A snapshot of the whole history, oldest first.
    fn all(&self) -> (r: Vec<Transaction>)
        ensures
            views(r@) == self.history(),
    ;
}

/// A repository that keeps its transactions in memory.
pub struct InMemoryTransactionRepository {
    records: Vec<Transaction>,
}

impl InMemoryTransactionRepository {
    /// A repository with an empty history.
    pub fn new() -> (r: InMemoryTransactionRepository)
        ensures
            r.history() == Seq::<TransactionView>::empty(),
    {
        let r = InMemoryTransactionRepository { records: Vec::new() };
        assert(views(r.records@) =~= Seq::<TransactionView>::empty());
        r
    }
}

impl TransactionsRepository for InMemoryTransactionRepository {
    closed spec fn history(&self) -> Seq<TransactionView> {
        views(self.records@)
    }

    fn add(&mut self, transaction: Transaction) {
        self.records.push(transaction);
        assert(views(self.records@) =~= views(old(self).records@).push(transaction@));
    }

    fn all(&self) -> (r: Vec<Transaction>) {
        let mut r: Vec<Transaction> = Vec::new();
        let mut i: usize = 0;
        while i < self.records.len()
            invariant
                i <= self.records@.len(),
                views(r@) == views(self.records@).take(i as int),
            decreases self.records@.len() - i,
        {
            let t = self.records[i].duplicate();
            let ghost before = r@;
            r.push(t);
            assert(views(r@) =~= views(before).push(t@));
            assert(views(self.records@).take(i + 1) =~= views(self.records@).take(i as int).push(
                self.records@[i as int]@,
            ));
            i = i + 1;
        }
        assert(views(self.records@).take(i as int) =~= views(self.records@));
        r
    }
}

} // verus!
