//! The bounded response cache: a rendezvous between the reader, which
//! stores replies, and the callers, which wait for them by key.

use crate::fifo::{distinct_keys, has_key, lookup, put, BoundedMap, Entries};
use vstd::prelude::*;

verus! {

/// What a caller finds when it asks for a key.
pub enum Nap<'a, V> {
    /// The value is there.
    Ready(&'a V),
    /// Nothing is stored under the key yet: the caller has to wait.
    Pending,
    /// The cache has been closed: nothing will ever arrive.
    Closed,
}

/// The keys a list of keys holds.
pub open spec fn keys_of(keys: Seq<String>) -> Set<Seq<char>> {
    Set::new(|k: Seq<char>| exists|i: int| 0 <= i < keys.len() && (#[trigger] keys[i])@ == k)
}

/// A bounded cache in which a caller can wait for a key to be populated.
///
/// The cache itself never suspends anybody. It records who waits; `insert`
/// says whether somebody has to be woken, and `close` hands out everybody
/// who still waits.
pub struct NapMap<V> {
    map: BoundedMap<V>,
    waiters: Vec<String>,
    closed: bool,
}

impl<V> NapMap<V> {
    /// The cached entries, oldest first.
    pub closed spec fn entries(&self) -> Entries<Seq<char>, V> {
        self.map@
    }

    /// The number of entries the cache has room for.
    pub closed spec fn capacity(&self) -> nat {
        self.map.spec_bound()
    }

    /// The keys somebody waits on.
    pub closed spec fn waiting(&self) -> Set<Seq<char>> {
        keys_of(self.waiters@)
    }

    /// Whether the cache has been closed.
    pub closed spec fn is_closed(&self) -> bool {
        self.closed
    }

    /// What holds of every cache: the keys are distinct and the entries
    /// never outnumber the capacity.
    pub closed spec fn wf(&self) -> bool {
        &&& self.map.wf()
        &&& self.closed ==> self.waiters@.len() == 0
        &&& forall|i: int, j: int|
            0 <= i < j < self.waiters@.len() ==> (#[trigger] self.waiters@[i])@ != (
            #[trigger] self.waiters@[j])@
    }

    /// A well-formed cache holds distinct keys and at most `capacity`
    /// entries, and nobody waits on a closed one.
    pub proof fn lemma_bounded(&self)
        requires
            self.wf(),
        ensures
            self.entries().len() <= self.capacity(),
            distinct_keys(self.entries()),
            self.is_closed() ==> self.waiting() == Set::<Seq<char>>::empty(),
    {
    }

    /// An open, empty cache with room for `capacity` entries.
    pub fn new(capacity: usize) -> (r: Self)
        ensures
            r.wf(),
            r.entries() == Seq::<(Seq<char>, V)>::empty(),
            r.capacity() == capacity,
            r.waiting() == Set::<Seq<char>>::empty(),
            !r.is_closed(),
    {
        let r = NapMap { map: BoundedMap::new(capacity), waiters: Vec::new(), closed: false };
        r
    }

    /// The number of cached entries, never more than the capacity.
    pub fn len(&self) -> (r: usize)
        requires
            self.wf(),
        ensures
            r == self.entries().len(),
            r <= self.capacity(),
    {
        self.map.len()
    }

    /// The number of entries the cache has room for.
    pub fn bound(&self) -> (r: usize)
        ensures
            r == self.capacity(),
    {
        self.map.bound()
    }

    /// Whether the cache has been closed.
    pub fn closed(&self) -> (r: bool)
        ensures
            r == self.is_closed(),
    {
        self.closed
    }

    fn waiter_position(&self, key: &String) -> (r: Option<usize>)
        requires
            self.wf(),
        ensures
            r is Some == self.waiting().contains(key@),
            r matches Some(i) ==> i < self.waiters@.len() && self.waiters@[i as int]@ == key@,
    {
        let mut i: usize = 0;
        while i < self.waiters.len()
            invariant
                i <= self.waiters.len(),
                forall|j: int| 0 <= j < i ==> (#[trigger] self.waiters@[j])@ != key@,
            decreases self.waiters.len() - i,
        {
            if self.waiters[i] == *key {
                return Some(i);
            }
            i += 1;
        }
        None
    }

    /// Stores `value` under `key`, overwriting what was there and evicting
    /// the oldest entry if the cache is full. Returns whether somebody
    /// waited on `key` and has to be woken; nobody waits on it afterwards.
    /// A closed cache stores nothing.
    pub fn insert(&mut self, key: String, value: V) -> (woken: bool)
        requires
            old(self).wf(),
        ensures
            final(self).wf(),
            final(self).capacity() == old(self).capacity(),
            final(self).is_closed() == old(self).is_closed(),
            final(self).entries().len() <= final(self).capacity(),
            old(self).is_closed() ==> !woken && final(self).entries() == old(self).entries()
                && final(self).waiting() == old(self).waiting(),
            !old(self).is_closed() ==> woken == old(self).waiting().contains(key@)
                && final(self).entries() == put(
                old(self).entries(),
                key@,
                value,
                old(self).capacity(),
            ) && final(self).waiting() == old(self).waiting().remove(key@),
    {
        if self.closed {
            return false;
        }
        let woken = self.unpark(&key);
        self.map.insert(key, value);
        woken
    }

    /// What is cached under `key`, without waiting.
    pub fn get(&self, key: &String) -> (r: Option<&V>)
        requires
            self.wf(),
        ensures
            r is Some == has_key(self.entries(), key@),
            r matches Some(v) ==> lookup(self.entries(), key@) == Some(*v),
    {
        self.map.get(key)
    }

    /// What a caller that wants `key` has to do now: take the value, wait,
    /// or give up because the cache is closed. Looking does not change the
    /// cache, so every caller that asks for the same key sees the same
    /// value.
    pub fn poll(&self, key: &String) -> (r: Nap<'_, V>)
        requires
            self.wf(),
        ensures
            self.is_closed() ==> r is Closed,
            !self.is_closed() && has_key(self.entries(), key@) ==> (r matches Nap::Ready(v)
                && lookup(self.entries(), key@) == Some(*v)),
            !self.is_closed() && !has_key(self.entries(), key@) ==> r is Pending,
    {
        if self.closed {
            return Nap::Closed;
        }
        match self.map.get(key) {
            Some(v) => Nap::Ready(v),
            None => Nap::Pending,
        }
    }

    /// Records that somebody waits on `key`. The entries stay as they are.
    /// On a closed cache nobody can wait.
    pub fn park(&mut self, key: String)
        requires
            old(self).wf(),
        ensures
            final(self).wf(),
            final(self).entries() == old(self).entries(),
            final(self).capacity() == old(self).capacity(),
            final(self).is_closed() == old(self).is_closed(),
            final(self).waiting() == if old(self).is_closed() {
                old(self).waiting()
            } else {
                old(self).waiting().insert(key@)
            },
    {
        if self.closed {
            return ;
        }
        let ghost before = self.waiters@;
        match self.waiter_position(&key) {
            Some(_) => {},
            None => {
                self.waiters.push(key);
                proof {
                    let after = self.waiters@;
                    assert(after[before.len() as int]@ == key@);
                    assert forall|k: Seq<char>| #[trigger]
                        self.waiting().contains(k) == old(self).waiting().insert(key@).contains(
                            k,
                        ) by {
                        if old(self).waiting().contains(k) {
                            let b = choose|b: int|
                                0 <= b < before.len() && (#[trigger] before[b])@ == k;
                            assert(after[b] == before[b]);
                        }
                    }
                }
            },
        }
    }

    /// Records that nobody waits on `key` any longer, as after a timeout.
    /// Returns whether somebody did.
    pub fn unpark(&mut self, key: &String) -> (was_waiting: bool)
        requires
            old(self).wf(),
        ensures
            final(self).wf(),
            final(self).entries() == old(self).entries(),
            final(self).capacity() == old(self).capacity(),
            final(self).is_closed() == old(self).is_closed(),
            was_waiting == old(self).waiting().contains(key@),
            final(self).waiting() == old(self).waiting().remove(key@),
    {
        let ghost before = self.waiters@;
        match self.waiter_position(key) {
            Some(i) => {
                self.waiters.remove(i);
                proof {
                    let after = self.waiters@;
                    assert forall|k: Seq<char>| #[trigger]
                        self.waiting().contains(k) == old(self).waiting().remove(key@).contains(
                            k,
                        ) by {
                        if old(self).waiting().remove(key@).contains(k) {
                            let b = choose|b: int|
                                0 <= b < before.len() && (#[trigger] before[b])@ == k;
                            let a = if b < i { b } else { b - 1 };
                            assert(after[a] == before[b]);
                        }
                    }
                }
                true
            },
            None => false,
        }
    }

    /// Closes the cache. Everybody who waited is handed out, to be
    /// completed with an error; nobody waits afterwards, and from now on
    /// every `poll` answers `Closed`.
    pub fn close(&mut self) -> (woken: Vec<String>)
        requires
            old(self).wf(),
        ensures
            final(self).wf(),
            final(self).is_closed(),
            final(self).waiting() == Set::<Seq<char>>::empty(),
            final(self).entries() == old(self).entries(),
            final(self).capacity() == old(self).capacity(),
            keys_of(woken@) == old(self).waiting(),
    {
        self.closed = true;
        let mut woken: Vec<String> = Vec::new();
        std::mem::swap(&mut self.waiters, &mut woken);
        woken
    }
}

} // verus!
