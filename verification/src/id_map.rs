//! A map from numeric identifiers to values that remembers the order in
//! which its keys arrived.
//!
//! Lookups go through a hash table; walks go over the keys in arrival order,
//! so that everything computed by walking the map is a function of its
//! history and not of a hasher.

use std::collections::HashMap;
use vstd::prelude::*;

verus! {

broadcast use vstd::std_specs::hash::group_hash_axioms;

/// A key that stands for a number, one key for each number it can stand for.
pub trait Id: Copy {
    /// The number behind the key.
    spec fn raw(self) -> u64;

    fn to_raw(self) -> (r: u64)
        ensures
            r == self.raw(),
    ;

    /// Two keys with the same number are the same key.
    proof fn lemma_raw_injective(a: Self, b: Self)
        requires
            a.raw() == b.raw(),
        ensures
            a == b,
    ;
}

/// `keys` without `key`; `keys` itself where `key` does not occur.
pub open spec fn without_key<K>(keys: Seq<K>, key: K) -> Seq<K> {
    if keys.contains(key) {
        keys.remove(keys.index_of(key))
    } else {
        keys
    }
}

/// Removing one key from a duplicate-free list leaves exactly the other keys,
/// still free of duplicates, in their old order.
pub proof fn lemma_without_key<K>(keys: Seq<K>, key: K)
    requires
        keys.no_duplicates(),
    ensures
        without_key(keys, key).no_duplicates(),
        !without_key(keys, key).contains(key),
        forall|k: K| k != key ==> (without_key(keys, key).contains(k) <==> keys.contains(k)),
        keys.contains(key) ==> without_key(keys, key).len() == keys.len() - 1,
{
    if keys.contains(key) {
        let i = keys.index_of(key);
        let rest = keys.remove(i);
        keys.remove_ensures(i);
        assert forall|k: K| k != key implies (rest.contains(k) <==> keys.contains(k)) by {
            if keys.contains(k) {
                let a0 = keys.index_of(k);
                let a = if a0 < i { a0 } else { a0 - 1 };
                assert(rest[a] == k);
            }
        }
    }
}

/// A finite map whose keys keep their order of arrival.
pub struct IdMap<K: Id, V> {
    order: Vec<K>,
    map: HashMap<u64, V>,
}

impl<K: Id, V> View for IdMap<K, V> {
    type V = Map<K, V>;

    closed spec fn view(&self) -> Map<K, V> {
        Map::new(|k: K| self.map@.contains_key(k.raw()), |k: K| self.map@[k.raw()])
    }
}

impl<K: Id, V> IdMap<K, V> {
    /// The keys in order of arrival.
    pub closed spec fn keys(&self) -> Seq<K> {
        self.order@
    }

    /// The key list names each key of the map once.
    pub open spec fn wf(&self) -> bool {
        &&& self.keys().no_duplicates()
        &&& forall|k: K| self.keys().contains(k) <==> self@.contains_key(k)
    }

    pub fn new() -> (m: IdMap<K, V>)
        ensures
            m.wf(),
            m@ == Map::<K, V>::empty(),
            m.keys() == Seq::<K>::empty(),
    {
        IdMap { order: Vec::new(), map: HashMap::new() }
    }

    pub fn len(&self) -> (n: usize)
        ensures
            n == self.keys().len(),
    {
        self.order.len()
    }

    /// A sound map has as many keys as its key list is long.
    pub proof fn lemma_len(&self)
        requires
            self.wf(),
        ensures
            self@.dom().finite(),
            self@.dom().len() == self.keys().len(),
    {
        self.keys().unique_seq_to_set();
        assert(self.keys().to_set() =~= self@.dom());
    }

    /// The `i`-th key in order of arrival.
    pub fn key_at(&self, i: usize) -> (k: K)
        requires
            i < self.keys().len(),
        ensures
            k == self.keys()[i as int],
    {
        self.order[i]
    }

    /// The keys in order of arrival, as a list of their own.
    pub fn key_list(&self) -> (list: Vec<K>)
        ensures
            list@ == self.keys(),
    {
        let mut list: Vec<K> = Vec::new();
        let n: usize = self.order.len();
        let mut i: usize = 0;
        while i < n
            invariant
                i <= n,
                n == self.order@.len(),
                list@ == self.order@.take(i as int),
            decreases n - i,
        {
            list.push(self.order[i]);
            i += 1;
        }
        list
    }

    pub fn contains_key(&self, key: K) -> (r: bool)
        ensures
            r == self@.contains_key(key),
    {
        self.map.contains_key(&key.to_raw())
    }

    pub fn get(&self, key: K) -> (r: Option<&V>)
        ensures
            match r {
                Some(v) => self@.contains_key(key) && *v == self@[key],
                None => !self@.contains_key(key),
            },
    {
        self.map.get(&key.to_raw())
    }

    /// Binds `key` to `value`. A key that is new goes to the end of the key
    /// list; one that was bound keeps its place. Returns the old value.
    pub fn insert(&mut self, key: K, value: V) -> (previous: Option<V>)
        requires
            old(self).wf(),
        ensures
            final(self).wf(),
            final(self)@ == old(self)@.insert(key, value),
            final(self).keys() == if old(self)@.contains_key(key) {
                old(self).keys()
            } else {
                old(self).keys().push(key)
            },
            match previous {
                Some(v) => old(self)@.contains_key(key) && v == old(self)@[key],
                None => !old(self)@.contains_key(key),
            },
    {
        let previous = self.map.insert(key.to_raw(), value);
        let ghost before = old(self).keys();
        if previous.is_none() {
            self.order.push(key);
        }
        proof {
            let after = self.order@;
            assert(self@ =~= old(self)@.insert(key, value)) by {
                assert forall|k: K| k != key implies k.raw() != key.raw() by {
                    if k.raw() == key.raw() {
                        K::lemma_raw_injective(k, key);
                    }
                }
            }
            if previous.is_none() {
                assert(!before.contains(key));
                assert forall|k: K| after.contains(k) <==> self@.contains_key(k) by {
                    if after.contains(k) {
                        let a = after.index_of(k);
                        if a < before.len() {
                            assert(before.contains(before[a]));
                        }
                    }
                    if self@.contains_key(k) {
                        if k == key {
                            assert(after[before.len() as int] == key);
                        } else {
                            assert(before.contains(k));
                            let a = before.index_of(k);
                            assert(after[a] == k);
                        }
                    }
                }
            }
        }
        previous
    }

    /// Unbinds `key` and returns its value. The other keys keep their order.
    pub fn remove(&mut self, key: K) -> (previous: Option<V>)
        requires
            old(self).wf(),
        ensures
            final(self).wf(),
            final(self)@ == old(self)@.remove(key),
            final(self).keys() == without_key(old(self).keys(), key),
            match previous {
                Some(v) => old(self)@.contains_key(key) && v == old(self)@[key],
                None => !old(self)@.contains_key(key),
            },
    {
        let raw = key.to_raw();
        let previous = self.map.remove(&raw);
        let ghost before = old(self).keys();
        proof {
            assert(self@ =~= old(self)@.remove(key)) by {
                assert forall|k: K| k != key implies k.raw() != key.raw() by {
                    if k.raw() == key.raw() {
                        K::lemma_raw_injective(k, key);
                    }
                }
            }
        }
        if previous.is_some() {
            assert(before.contains(key));
            let ghost at = before.index_of(key);
            let n: usize = self.order.len();
            let mut i: usize = 0;
            while self.order[i].to_raw() != raw
                invariant
                    self.order@ == before,
                    0 <= at < self.order@.len(),
                    n == self.order@.len(),
                    self.order@[at] == key,
                    raw == key.raw(),
                    i <= at,
                decreases at - i,
            {
                i += 1;
            }
            proof {
                K::lemma_raw_injective(self.order@[i as int], key);
                lemma_without_key(before, key);
            }
            self.order.remove(i);
            proof {
                let after = self.order@;
                assert forall|k: K| after.contains(k) <==> self@.contains_key(k) by {
                    if k != key {
                        assert(before.contains(k) <==> old(self)@.contains_key(k));
                    }
                }
            }
        }
        previous
    }
}

} // verus!
