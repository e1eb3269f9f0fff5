//! Keyed entries in arrival order, and a map from text keys to values that
//! holds a bounded number of them and forgets the oldest one first.

use vstd::prelude::*;

verus! {

/// The entries of a map in the order in which their keys arrived.
pub type Entries<K, V> = Seq<(K, V)>;

/// Whether some entry is stored under `key`.
pub open spec fn has_key<K, V>(s: Entries<K, V>, key: K) -> bool {
    exists|i: int| 0 <= i < s.len() && (#[trigger] s[i]).0 == key
}

/// The place of the entry stored under `key`.
pub open spec fn index_of<K, V>(s: Entries<K, V>, key: K) -> int {
    choose|i: int| 0 <= i < s.len() && (#[trigger] s[i]).0 == key
}

/// What is stored under `key`, if anything.
pub open spec fn lookup<K, V>(s: Entries<K, V>, key: K) -> Option<V> {
    if has_key(s, key) {
        Some(s[index_of(s, key)].1)
    } else {
        None
    }
}

/// No key occurs twice.
pub open spec fn distinct_keys<K, V>(s: Entries<K, V>) -> bool {
    forall|i: int, j: int| 0 <= i < j < s.len() ==> (#[trigger] s[i]).0 != (#[trigger] s[j]).0
}

/// The entries after storing `value` under `key` with room for `bound`
/// entries: a key already present keeps its place and gets the new value; a
/// new key goes to the back, and the oldest entry leaves if the map is full.
pub open spec fn put<K, V>(s: Entries<K, V>, key: K, value: V, bound: nat) -> Entries<K, V> {
    if has_key(s, key) {
        s.update(index_of(s, key), (key, value))
    } else if s.len() + 1 > bound {
        s.push((key, value)).drop_first()
    } else {
        s.push((key, value))
    }
}

/// The entries after forgetting `key`.
pub open spec fn without<K, V>(s: Entries<K, V>, key: K) -> Entries<K, V> {
    if has_key(s, key) {
        s.remove(index_of(s, key))
    } else {
        s
    }
}

/// With distinct keys, the place of a key is the one place that holds it.
pub proof fn lemma_index_unique<K, V>(s: Entries<K, V>, key: K, i: int)
    requires
        distinct_keys(s),
        0 <= i < s.len(),
        s[i].0 == key,
    ensures
        has_key(s, key),
        index_of(s, key) == i,
        lookup(s, key) == Some(s[i].1),
{
}

/// Storing keeps the keys distinct and the map within its bound.
pub proof fn lemma_put_keeps_shape<K, V>(s: Entries<K, V>, key: K, value: V, bound: nat)
    requires
        distinct_keys(s),
        s.len() <= bound,
    ensures
        distinct_keys(put(s, key, value, bound)),
        put(s, key, value, bound).len() <= bound,
{
}

/// After storing on a map with room for at least one entry, the key is
/// present with the value just stored.
pub proof fn lemma_put_then_lookup<K, V>(s: Entries<K, V>, key: K, value: V, bound: nat)
    requires
        distinct_keys(s),
        s.len() <= bound,
        bound > 0,
    ensures
        lookup(put(s, key, value, bound), key) == Some(value),
{
    let t = put(s, key, value, bound);
    if has_key(s, key) {
        lemma_index_unique(t, key, index_of(s, key));
    } else {
        lemma_index_unique(t, key, t.len() - 1);
    }
}

/// Forgetting a key keeps the keys distinct, never grows the map, and the
/// key is gone.
pub proof fn lemma_without_keeps_shape<K, V>(s: Entries<K, V>, key: K)
    requires
        distinct_keys(s),
    ensures
        distinct_keys(without(s, key)),
        without(s, key).len() <= s.len(),
        !has_key(without(s, key), key),
{
}

/// Storing under one key leaves what is stored under every other key, as
/// long as nothing is evicted.
pub proof fn lemma_put_keeps_others<K, V>(s: Entries<K, V>, key: K, value: V, bound: nat, other: K)
    requires
        distinct_keys(s),
        other != key,
        has_key(s, key) || s.len() < bound,
    ensures
        lookup(put(s, key, value, bound), other) == lookup(s, other),
{
    let t = put(s, key, value, bound);
    lemma_put_keeps_shape(s, key, value, if bound >= s.len() { bound } else { s.len() });
    if has_key(s, other) {
        let i = index_of(s, other);
        lemma_index_unique(t, other, i);
    }
}

/// Forgetting one key leaves what is stored under every other key.
pub proof fn lemma_without_keeps_others<K, V>(s: Entries<K, V>, key: K, other: K)
    requires
        distinct_keys(s),
        other != key,
    ensures
        lookup(without(s, key), other) == lookup(s, other),
{
    let t = without(s, key);
    lemma_without_keeps_shape(s, key);
    if has_key(s, key) {
        let k = index_of(s, key);
        if has_key(s, other) {
            let i = index_of(s, other);
            let a = if i < k { i } else { i - 1 };
            lemma_index_unique(t, other, a);
        }
    }
}

/// When a new key arrives at a full map, the oldest entry is the one that
/// leaves, and every other entry stays.
pub proof fn lemma_put_evicts_oldest<K, V>(s: Entries<K, V>, key: K, value: V, bound: nat, other: K)
    requires
        distinct_keys(s),
        !has_key(s, key),
        s.len() == bound,
        bound > 0,
        other != key,
    ensures
        !has_key(put(s, key, value, bound), s[0].0),
        other != s[0].0 ==> lookup(put(s, key, value, bound), other) == lookup(s, other),
{
    let t = put(s, key, value, bound);
    if other != s[0].0 {
        if has_key(s, other) {
            let i = index_of(s, other);
            lemma_index_unique(t, other, i - 1);
        }
    }
}

/// One stored entry.
pub struct Entry<V> {
    pub key: String,
    pub value: V,
}

/// A bounded map with first-in-first-out eviction.
pub struct BoundedMap<V> {
    entries: Vec<Entry<V>>,
    bound: usize,
}

impl<V> View for BoundedMap<V> {
    type V = Entries<Seq<char>, V>;

    closed spec fn view(&self) -> Entries<Seq<char>, V> {
        self.entries@.map_values(|e: Entry<V>| (e.key@, e.value))
    }
}

impl<V> BoundedMap<V> {
    /// The number of entries the map has room for.
    pub closed spec fn spec_bound(&self) -> nat {
        self.bound as nat
    }

    /// What holds of every map: no key occurs twice and the entries fit the
    /// bound.
    pub open spec fn wf(&self) -> bool {
        distinct_keys(self@) && self@.len() <= self.spec_bound()
    }

    /// An empty map with room for `bound` entries.
    pub fn new(bound: usize) -> (r: Self)
        ensures
            r@ == Seq::<(Seq<char>, V)>::empty(),
            r.spec_bound() == bound,
            r.wf(),
    {
        let r = BoundedMap { entries: Vec::new(), bound };
        r
    }

    /// The number of entries the map has room for.
    pub fn bound(&self) -> (r: usize)
        ensures
            r == self.spec_bound(),
    {
        self.bound
    }

    /// The number of entries held, never more than the bound.
    pub fn len(&self) -> (r: usize)
        ensures
            r == self@.len(),
    {
        self.entries.len()
    }

    fn position(&self, key: &String) -> (r: Option<usize>)
        requires
            self.wf(),
        ensures
            r is Some == has_key(self@, key@),
            r matches Some(i) ==> i == index_of(self@, key@) && i < self@.len(),
    {
        let mut i: usize = 0;
        while i < self.entries.len()
            invariant
                self.wf(),
                i <= self.entries.len(),
                forall|j: int| 0 <= j < i ==> (#[trigger] self@[j]).0 != key@,
            decreases self.entries.len() - i,
        {
            if self.entries[i].key == *key {
                proof {
                    lemma_index_unique(self@, key@, i as int);
                }
                return Some(i);
            }
            i += 1;
        }
        None
    }

    /// Whether an entry is stored under `key`.
    pub fn contains_key(&self, key: &String) -> (r: bool)
        requires
            self.wf(),
        ensures
            r == has_key(self@, key@),
    {
        self.position(key).is_some()
    }

    /// The value stored under `key`, if any.
    pub fn get(&self, key: &String) -> (r: Option<&V>)
        requires
            self.wf(),
        ensures
            r is Some == has_key(self@, key@),
            r matches Some(v) ==> lookup(self@, key@) == Some(*v),
    {
        match self.position(key) {
            Some(i) => Some(&self.entries[i].value),
            None => None,
        }
    }

    /// Stores `value` under `key`. A key already present keeps its place in
    /// the eviction order; a new key evicts the oldest entry when the map is
    /// full.
    pub fn insert(&mut self, key: String, value: V)
        requires
            old(self).wf(),
        ensures
            final(self)@ == put(old(self)@, key@, value, old(self).spec_bound()),
            final(self).spec_bound() == old(self).spec_bound(),
            final(self).wf(),
    {
        match self.position(&key) {
            Some(i) => {
                self.entries.set(i, Entry { key, value });
            },
            None => {
                if self.bound == 0 {
                    return ;
                }
                if self.entries.len() >= self.bound {
                    self.entries.remove(0);
                    self.entries.push(Entry { key, value });
                } else {
                    self.entries.push(Entry { key, value });
                }
            },
        }
    }

    /// Forgets `key` and hands back what was stored under it.
    pub fn remove(&mut self, key: &String) -> (r: Option<V>)
        requires
            old(self).wf(),
        ensures
            final(self)@ == without(old(self)@, key@),
            final(self).spec_bound() == old(self).spec_bound(),
            r == lookup(old(self)@, key@),
            final(self).wf(),
    {
        match self.position(key) {
            Some(i) => {
                let entry = self.entries.remove(i);
                Some(entry.value)
            },
            None => None,
        }
    }

    /// The key of the entry at place `i` in arrival order.
    pub fn key_at(&self, i: usize) -> (r: &String)
        requires
            i < self@.len(),
        ensures
            r@ == self@[i as int].0,
    {
        &self.entries[i].key
    }
}

} // verus!
