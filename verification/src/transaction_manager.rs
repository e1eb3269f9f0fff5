//! The registry of transactions in flight: which session and handle an
//! asynchronous reply to a transaction belongs to.

use crate::fifo::{has_key, lookup, put, without, BoundedMap, Entries};
use vstd::prelude::*;

verus! {

/// Where the request behind a transaction came from.
#[derive(Debug, Clone, Copy, PartialEq, Eq, Structural)]
pub struct PendingTransaction {
    pub session_id: Option<u64>,
    pub handle_id: Option<u64>,
}

/// A bounded registry of pending transactions. When it is full, the
/// transaction registered first is forgotten first.
pub struct TransactionManager {
    transactions: BoundedMap<PendingTransaction>,
}

impl TransactionManager {
    /// The pending transactions, oldest first.
    pub closed spec fn pending(&self) -> Entries<Seq<char>, PendingTransaction> {
        self.transactions@
    }

    /// The number of transactions the registry has room for.
    pub closed spec fn capacity(&self) -> nat {
        self.transactions.spec_bound()
    }

    /// What holds of every registry: no transaction is registered twice and
    /// the pending ones never outnumber the capacity.
    pub closed spec fn wf(&self) -> bool {
        self.transactions.wf()
    }

    /// A well-formed registry holds at most `capacity` transactions.
    pub proof fn lemma_bounded(&self)
        requires
            self.wf(),
        ensures
            self.pending().len() <= self.capacity(),
    {
    }

    /// An empty registry with room for `capacity` transactions.
    pub fn new(capacity: usize) -> (r: Self)
        ensures
            r.wf(),
            r.pending() == Seq::<(Seq<char>, PendingTransaction)>::empty(),
            r.capacity() == capacity,
    {
        TransactionManager { transactions: BoundedMap::new(capacity) }
    }

    /// The number of pending transactions.
    pub fn len(&self) -> (r: usize)
        requires
            self.wf(),
        ensures
            r == self.pending().len(),
            r <= self.capacity(),
    {
        self.transactions.len()
    }

    /// Whether `transaction` is pending.
    pub fn contains(&self, transaction: &String) -> (r: bool)
        requires
            self.wf(),
        ensures
            r == has_key(self.pending(), transaction@),
    {
        self.transactions.contains_key(transaction)
    }

    /// Registers `transaction` as sent on behalf of the given session and
    /// handle, forgetting the oldest pending transaction if the registry is
    /// full.
    pub fn create(&mut self, transaction: String, session_id: Option<u64>, handle_id: Option<u64>)
        requires
            old(self).wf(),
        ensures
            final(self).wf(),
            final(self).capacity() == old(self).capacity(),
            final(self).pending() == put(
                old(self).pending(),
                transaction@,
                PendingTransaction { session_id, handle_id },
                old(self).capacity(),
            ),
    {
        self.transactions.insert(transaction, PendingTransaction { session_id, handle_id });
    }

    /// Where the request behind `transaction` came from, if it is pending.
    pub fn get(&self, transaction: &String) -> (r: Option<PendingTransaction>)
        requires
            self.wf(),
        ensures
            r == lookup(self.pending(), transaction@),
    {
        match self.transactions.get(transaction) {
            Some(pending) => Some(*pending),
            None => None,
        }
    }

    /// Retires `transaction` after its exchange completed. Returns whether
    /// it was pending.
    pub fn success_close(&mut self, transaction: &String) -> (was_pending: bool)
        requires
            old(self).wf(),
        ensures
            final(self).wf(),
            final(self).capacity() == old(self).capacity(),
            final(self).pending() == without(old(self).pending(), transaction@),
            was_pending == has_key(old(self).pending(), transaction@),
            !has_key(final(self).pending(), transaction@),
    {
        self.transactions.remove(transaction).is_some()
    }

    /// Retires `transaction` after its exchange failed. Returns whether it
    /// was pending.
    pub fn error_close(&mut self, transaction: &String) -> (was_pending: bool)
        requires
            old(self).wf(),
        ensures
            final(self).wf(),
            final(self).capacity() == old(self).capacity(),
            final(self).pending() == without(old(self).pending(), transaction@),
            was_pending == has_key(old(self).pending(), transaction@),
            !has_key(final(self).pending(), transaction@),
    {
        self.transactions.remove(transaction).is_some()
    }
}

} // verus!
