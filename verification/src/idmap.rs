//! A small insertion-ordered map keyed by 128-bit IDs.

use vstd::prelude::*;

use crate::strmap::{
    has_key, inserted, lemma_insert_at_unique, lemma_inserted_unique, lemma_position_of, lemma_removed_at_unique, lookup,
    position_of, removed, unique_keys,
};

verus! {

/// Values stored under 128-bit IDs, in insertion order; an ID is stored at
/// most once.
#[derive(Debug)]
pub struct IdMap<T> {
    entries: Vec<(u128, T)>,
}

impl<T> View for IdMap<T> {
    type V = Seq<(u128, T)>;

    closed spec fn view(&self) -> Seq<(u128, T)> {
        self.entries@
    }
}

impl<T> IdMap<T> {
    /// No ID is stored twice.
    #[verifier::type_invariant]
    spec fn keys_unique(self) -> bool {
        unique_keys(self@)
    }

    /// An empty map.
    pub fn new() -> (m: Self)
        ensures
            m@ == Seq::<(u128, T)>::empty(),
    {
        IdMap { entries: Vec::new() }
    }

    /// The number of entries.
    pub fn len(&self) -> (n: usize)
        ensures
            n == self@.len(),
            unique_keys(self@),
    {
        proof {
            use_type_invariant(self);
        }
        self.entries.len()
    }

    /// The ID of the `i`-th entry.
    pub fn key_at(&self, i: usize) -> (k: u128)
        requires
            i < self@.len(),
        ensures
            k == self@[i as int].0,
    {
        self.entries[i].0
    }

    /// The value of the `i`-th entry.
    pub fn value_at(&self, i: usize) -> (v: &T)
        requires
            i < self@.len(),
        ensures
            *v == self@[i as int].1,
    {
        &self.entries[i].1
    }

    /// The position of the entry stored under `k`, if any.
    pub fn index_of(&self, k: u128) -> (r: Option<usize>)
        ensures
            r is None <==> !has_key(self@, k),
            r matches Some(i) ==> i == position_of(self@, k) && i < self@.len(),
            unique_keys(self@),
    {
        proof {
            use_type_invariant(self);
        }
        let mut i: usize = 0;
        while i < self.entries.len()
            invariant
                i <= self.entries@.len(),
                unique_keys(self@),
                forall|j: int| 0 <= j < i ==> self@[j].0 != k,
            decreases self.entries.len() - i,
        {
            if self.entries[i].0 == k {
                proof {
                    lemma_position_of(self@, k);
                    let p = position_of(self@, k);
                    if p < i {
                        assert(self@[p].0 != k);
                    }
                    if p > i {
                        assert(self@[i as int].0 != k);
                    }
                }
                return Some(i);
            }
            i = i + 1;
        }
        None
    }

    /// Whether an ID is stored.
    pub fn contains_key(&self, k: u128) -> (b: bool)
        ensures
            b == has_key(self@, k),
            unique_keys(self@),
    {
        self.index_of(k).is_some()
    }

    /// The value stored under an ID.
    pub fn get(&self, k: u128) -> (r: Option<&T>)
        ensures
            r matches Some(v) ==> lookup(self@, k) == Some(*v),
            r is None ==> lookup(self@, k) is None,
            unique_keys(self@),
    {
        match self.index_of(k) {
            Some(i) => {
                proof {
                    lemma_position_of(self@, k);
                }
                Some(&self.entries[i].1)
            },
            None => None,
        }
    }

    /// Stores `v` under `k`, replacing an existing value in place.
    pub fn insert(&mut self, k: u128, v: T)
        ensures
            final(self)@ == inserted(old(self)@, k, v),
    {
        let found = self.index_of(k);
        proof {
            lemma_inserted_unique(self@, k, v);
        }
        let mut es: Vec<(u128, T)> = Vec::new();
        std::mem::swap(&mut es, &mut self.entries);
        match found {
            Some(i) => {
                es.set(i, (k, v));
            },
            None => {
                es.push((k, v));
            },
        }
        self.entries = es;
    }

    /// Puts `v` in place of the value of the `i`-th entry and returns the
    /// value it held.
    pub fn replace_at(&mut self, i: usize, v: T) -> (old_value: T)
        requires
            i < old(self)@.len(),
        ensures
            old_value == old(self)@[i as int].1,
            final(self)@ == old(self)@.update(i as int, (old(self)@[i as int].0, v)),
    {
        proof {
            use_type_invariant(&*self);
        }
        let mut es: Vec<(u128, T)> = Vec::new();
        std::mem::swap(&mut es, &mut self.entries);
        let k = es[i].0;
        let mut entry = (k, v);
        std::mem::swap(&mut entry, &mut es[i]);
        assert forall|a: int, b: int| 0 <= a < b < es@.len() implies es@[a].0 != es@[b].0 by {
            assert(es@[a].0 == old(self)@[a].0 && es@[b].0 == old(self)@[b].0);
        }
        self.entries = es;
        entry.1
    }

    /// Takes out the `i`-th entry, leaving the others in order.
    pub fn take_at(&mut self, i: usize) -> (e: (u128, T))
        requires
            i < old(self)@.len(),
        ensures
            e == old(self)@[i as int],
            final(self)@ == old(self)@.remove(i as int),
            !has_key(final(self)@, e.0),
    {
        proof {
            use_type_invariant(&*self);
            lemma_removed_at_unique(self@, i as int);
        }
        let mut es: Vec<(u128, T)> = Vec::new();
        std::mem::swap(&mut es, &mut self.entries);
        let e = es.remove(i);
        self.entries = es;
        e
    }

    /// Puts an entry back at position `i`.
    pub fn put_at(&mut self, i: usize, k: u128, v: T)
        requires
            i <= old(self)@.len(),
            !has_key(old(self)@, k),
        ensures
            final(self)@ == old(self)@.insert(i as int, (k, v)),
    {
        proof {
            use_type_invariant(&*self);
            lemma_insert_at_unique(self@, i as int, k, v);
        }
        let mut es: Vec<(u128, T)> = Vec::new();
        std::mem::swap(&mut es, &mut self.entries);
        es.insert(i, (k, v));
        self.entries = es;
    }

    /// Removes the entry stored under `k`, returning its value.
    pub fn remove(&mut self, k: u128) -> (r: Option<T>)
        ensures
            final(self)@ == removed(old(self)@, k),
            r matches Some(v) ==> lookup(old(self)@, k) == Some(v),
            r is None <==> lookup(old(self)@, k) is None,
    {
        match self.index_of(k) {
            Some(i) => {
                proof {
                    lemma_position_of(self@, k);
                }
                let e = self.take_at(i);
                Some(e.1)
            },
            None => None,
        }
    }
}

} // verus!
