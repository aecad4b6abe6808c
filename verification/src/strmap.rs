//! Small insertion-ordered maps keyed by strings, and the laws of
//! insertion-ordered entry lists that they and other maps share.

use vstd::prelude::*;

use crate::text::str_eq;

verus! {

/// Key/value pairs in insertion order; a key is stored at most once.
#[derive(Debug)]
pub struct StrMap<T: View> {
    entries: Vec<(String, T)>,
}

/// Whether no key occurs twice.
pub open spec fn unique_keys<K, T>(es: Seq<(K, T)>) -> bool {
    forall|i: int, j: int| 0 <= i < j < es.len() ==> es[i].0 != es[j].0
}

/// Whether `k` is a key of the entries.
pub open spec fn has_key<K, T>(es: Seq<(K, T)>, k: K) -> bool {
    exists|i: int| 0 <= i < es.len() && es[i].0 == k
}

/// The position of the first entry with key `k`.
pub open spec fn position_of<K, T>(es: Seq<(K, T)>, k: K) -> int {
    choose|i: int| 0 <= i < es.len() && es[i].0 == k && forall|j: int| 0 <= j < i ==> es[j].0 != k
}

/// The value stored under `k`, if any.
pub open spec fn lookup<K, T>(es: Seq<(K, T)>, k: K) -> Option<T> {
    if has_key(es, k) {
        Some(es[position_of(es, k)].1)
    } else {
        None
    }
}

/// The entries after storing `v` under `k`: an existing entry keeps its
/// place and takes the new value, a new key goes last.
pub open spec fn inserted<K, T>(es: Seq<(K, T)>, k: K, v: T) -> Seq<(K, T)> {
    if has_key(es, k) {
        es.update(position_of(es, k), (k, v))
    } else {
        es.push((k, v))
    }
}

/// The entries after removing the entry with key `k`, if any.
pub open spec fn removed<K, T>(es: Seq<(K, T)>, k: K) -> Seq<(K, T)> {
    if has_key(es, k) {
        es.remove(position_of(es, k))
    } else {
        es
    }
}

/// Facts about the first position of a key.
pub proof fn lemma_position_of<K, T>(es: Seq<(K, T)>, k: K)
    requires
        has_key(es, k),
    ensures
        0 <= position_of(es, k) < es.len(),
        es[position_of(es, k)].0 == k,
        forall|j: int| 0 <= j < position_of(es, k) ==> es[j].0 != k,
{
    let i = choose|i: int| 0 <= i < es.len() && es[i].0 == k;
    lemma_least_position(es, k, i);
}

proof fn lemma_least_position<K, T>(es: Seq<(K, T)>, k: K, i: int)
    requires
        0 <= i < es.len(),
        es[i].0 == k,
    ensures
        exists|m: int| 0 <= m < es.len() && es[m].0 == k && forall|j: int| 0 <= j < m ==> es[j].0 != k,
    decreases i,
{
    if exists|j: int| 0 <= j < i && es[j].0 == k {
        let j = choose|j: int| 0 <= j < i && es[j].0 == k;
        lemma_least_position(es, k, j);
    } else {
        assert(forall|j: int| 0 <= j < i ==> es[j].0 != k);
    }
}

/// Storing a value keeps the keys unique.
pub proof fn lemma_inserted_unique<K, T>(es: Seq<(K, T)>, k: K, v: T)
    requires
        unique_keys(es),
    ensures
        unique_keys(inserted(es, k, v)),
{
    if has_key(es, k) {
        lemma_position_of(es, k);
    }
}

/// Taking out one entry keeps the keys unique.
pub(crate) proof fn lemma_removed_at_unique<K, T>(es: Seq<(K, T)>, i: int)
    requires
        unique_keys(es),
        0 <= i < es.len(),
    ensures
        unique_keys(es.remove(i)),
        !has_key(es.remove(i), es[i].0),
{
    let r = es.remove(i);
    assert forall|a: int, b: int| 0 <= a < b < r.len() implies r[a].0 != r[b].0 by {
        let a2 = if a < i { a } else { a + 1 };
        let b2 = if b < i { b } else { b + 1 };
        assert(r[a] == es[a2] && r[b] == es[b2]);
    }
    if has_key(r, es[i].0) {
        let j = choose|j: int| 0 <= j < r.len() && r[j].0 == es[i].0;
        let j2 = if j < i { j } else { j + 1 };
        assert(r[j] == es[j2]);
    }
}

/// Putting in an entry whose key is absent keeps the keys unique.
pub(crate) proof fn lemma_insert_at_unique<K, T>(es: Seq<(K, T)>, i: int, k: K, v: T)
    requires
        unique_keys(es),
        0 <= i <= es.len(),
        !has_key(es, k),
    ensures
        unique_keys(es.insert(i, (k, v))),
{
    let r = es.insert(i, (k, v));
    assert forall|a: int, b: int| 0 <= a < b < r.len() implies r[a].0 != r[b].0 by {
        if a != i && b != i {
            let a2 = if a < i { a } else { a - 1 };
            let b2 = if b < i { b } else { b - 1 };
            assert(r[a] == es[a2] && r[b] == es[b2]);
        } else if a == i {
            let b2 = b - 1;
            assert(r[b] == es[b2]);
        } else {
            let a2 = if a < i { a } else { a - 1 };
            assert(r[a] == es[a2]);
        }
    }
}

/// A read after a write: the key written gives back the value written,
/// and every other key gives what it gave before.
pub proof fn lemma_lookup_inserted<K, T>(es: Seq<(K, T)>, k: K, v: T, q: K)
    ensures
        q == k ==> lookup(inserted(es, k, v), q) == Some(v),
        q != k ==> lookup(inserted(es, k, v), q) == lookup(es, q),
{
    let w = inserted(es, k, v);
    if has_key(es, k) {
        lemma_position_of(es, k);
        let p = position_of(es, k);
        assert(w[p].0 == k);
        lemma_position_of(w, k);
        let pw = position_of(w, k);
        if pw < p {
            assert(w[pw] == es[pw]);
        }
        if pw > p {
            assert(w[p].0 != k);
        }
        if q != k {
            if has_key(es, q) {
                lemma_position_of(es, q);
                let i = position_of(es, q);
                assert(w[i] == es[i]);
                assert(has_key(w, q));
                lemma_position_of(w, q);
                let j = position_of(w, q);
                if j < i {
                    assert(w[j] == es[j]);
                }
                if i < j {
                    assert(w[i].0 != q);
                }
            } else {
                if has_key(w, q) {
                    let j = choose|j: int| 0 <= j < w.len() && w[j].0 == q;
                    assert(es[j].0 == q);
                }
            }
        }
    } else {
        let n = es.len() as int;
        assert(w[n].0 == k);
        lemma_position_of(w, k);
        let pw = position_of(w, k);
        if pw < n {
            assert(w[pw] == es[pw]);
        }
        if q != k {
            if has_key(es, q) {
                lemma_position_of(es, q);
                let i = position_of(es, q);
                assert(w[i] == es[i]);
                assert(has_key(w, q));
                lemma_position_of(w, q);
                let j = position_of(w, q);
                if j < i {
                    assert(w[j] == es[j]);
                }
                if i < j {
                    assert(w[i].0 != q);
                }
            } else {
                if has_key(w, q) {
                    let j = choose|j: int| 0 <= j < w.len() && w[j].0 == q;
                    assert(es[j].0 == q);
                }
            }
        }
    }
}

impl<T: View> View for StrMap<T> {
    type V = Seq<(Seq<char>, T::V)>;

    closed spec fn view(&self) -> Seq<(Seq<char>, T::V)> {
        self.entries@.map_values(|e: (String, T)| (e.0@, e.1@))
    }
}

impl<T: View> StrMap<T> {
    /// No key is stored twice.
    #[verifier::type_invariant]
    spec fn keys_unique(self) -> bool {
        unique_keys(self@)
    }

    /// An empty map.
    pub fn new() -> (m: Self)
        ensures
            m@ == Seq::<(Seq<char>, T::V)>::empty(),
    {
        let m = StrMap { entries: Vec::new() };
        assert(m@ =~= Seq::<(Seq<char>, T::V)>::empty());
        m
    }

    /// The number of entries.
    pub fn len(&self) -> (n: usize)
        ensures
            n == self@.len(),
            unique_keys(self@),
    {
        proof {
            use_type_invariant(self);
        }
        self.entries.len()
    }

    /// The key of the `i`-th entry.
    pub fn key_at(&self, i: usize) -> (k: &String)
        requires
            i < self@.len(),
        ensures
            k@ == self@[i as int].0,
    {
        &self.entries[i].0
    }

    /// The value of the `i`-th entry.
    pub fn value_at(&self, i: usize) -> (v: &T)
        requires
            i < self@.len(),
        ensures
            v@ == self@[i as int].1,
    {
        &self.entries[i].1
    }

    fn find(&self, k: &str) -> (r: Option<usize>)
        ensures
            r is None <==> !has_key(self@, k@),
            r matches Some(i) ==> i == position_of(self@, k@) && i < self@.len() && i
                < self.entries@.len(),
    {
        let mut i: usize = 0;
        while i < self.entries.len()
            invariant
                i <= self.entries.len(),
                self@.len() == self.entries.len(),
                forall|j: int| 0 <= j < i ==> self@[j].0 != k@,
            decreases self.entries.len() - i,
        {
            if str_eq(self.entries[i].0.as_str(), k) {
                proof {
                    assert(self@[i as int].0 == k@);
                    lemma_position_of(self@, k@);
                    let p = position_of(self@, k@);
                    if p < i {
                        assert(self@[p].0 != k@);
                    }
                    if p > i {
                        assert(self@[i as int].0 != k@);
                    }
                }
                return Some(i);
            }
            i = i + 1;
        }
        None
    }

    /// The position of the entry stored under `k`, if any.
    pub fn index_of(&self, k: &str) -> (r: Option<usize>)
        ensures
            r is None <==> !has_key(self@, k@),
            r matches Some(i) ==> i == position_of(self@, k@) && i < self@.len(),
            unique_keys(self@),
    {
        proof {
            use_type_invariant(self);
        }
        self.find(k)
    }

    /// Takes out the `i`-th entry, leaving the others in order.
    pub fn take_at(&mut self, i: usize) -> (e: (String, T))
        requires
            i < old(self)@.len(),
        ensures
            e.0@ == old(self)@[i as int].0,
            e.1@ == old(self)@[i as int].1,
            final(self)@ == old(self)@.remove(i as int),
            !has_key(final(self)@, e.0@),
    {
        proof {
            use_type_invariant(&*self);
        }
        let mut es: Vec<(String, T)> = Vec::new();
        std::mem::swap(&mut es, &mut self.entries);
        let ghost before = es@.map_values(|e: (String, T)| (e.0@, e.1@));
        assert(before == old(self)@);
        let e = es.remove(i);
        let ghost after = es@.map_values(|e: (String, T)| (e.0@, e.1@));
        assert(after =~= before.remove(i as int));
        proof {
            lemma_removed_at_unique(before, i as int);
        }
        self.entries = es;
        e
    }

    /// Puts an entry back at position `i`.
    pub fn put_at(&mut self, i: usize, k: String, v: T)
        requires
            i <= old(self)@.len(),
            !has_key(old(self)@, k@),
        ensures
            final(self)@ == old(self)@.insert(i as int, (k@, v@)),
    {
        proof {
            use_type_invariant(&*self);
        }
        let ghost kv = k@;
        let ghost vv = v@;
        let mut es: Vec<(String, T)> = Vec::new();
        std::mem::swap(&mut es, &mut self.entries);
        let ghost before = es@.map_values(|e: (String, T)| (e.0@, e.1@));
        assert(before == old(self)@);
        es.insert(i, (k, v));
        let ghost after = es@.map_values(|e: (String, T)| (e.0@, e.1@));
        assert(after =~= before.insert(i as int, (kv, vv)));
        proof {
            lemma_insert_at_unique(before, i as int, kv, vv);
        }
        self.entries = es;
    }

    /// Whether a key is stored.
    pub fn contains_key(&self, k: &str) -> (b: bool)
        ensures
            b == has_key(self@, k@),
            unique_keys(self@),
    {
        proof {
            use_type_invariant(self);
        }
        self.find(k).is_some()
    }

    /// The value stored under a key.
    pub fn get(&self, k: &str) -> (r: Option<&T>)
        ensures
            r matches Some(v) ==> lookup(self@, k@) == Some(v@),
            r is None ==> lookup(self@, k@) is None,
            unique_keys(self@),
    {
        proof {
            use_type_invariant(self);
        }
        match self.find(k) {
            Some(i) => Some(&self.entries[i].1),
            None => None,
        }
    }

    /// Stores `v` under `k`, replacing an existing value in place.
    pub fn insert(&mut self, k: String, v: T)
        ensures
            final(self)@ == inserted(old(self)@, k@, v@),
    {
        proof {
            use_type_invariant(&*self);
            lemma_inserted_unique(self@, k@, v@);
        }
        let found = self.find(k.as_str());
        let ghost kv = k@;
        let ghost vv = v@;
        let mut es: Vec<(String, T)> = Vec::new();
        std::mem::swap(&mut es, &mut self.entries);
        let ghost before = es@.map_values(|e: (String, T)| (e.0@, e.1@));
        assert(before == old(self)@);
        match found {
            Some(i) => {
                es.set(i, (k, v));
                assert(es@.map_values(|e: (String, T)| (e.0@, e.1@)) =~= before.update(i as int, (kv, vv)));
            },
            None => {
                es.push((k, v));
                assert(es@.map_values(|e: (String, T)| (e.0@, e.1@)) =~= before.push((kv, vv)));
            },
        }
        self.entries = es;
    }

    /// Removes the entry stored under `k`, returning its value.
    pub fn remove(&mut self, k: &str) -> (r: Option<T>)
        ensures
            final(self)@ == removed(old(self)@, k@),
            r matches Some(v) ==> lookup(old(self)@, k@) == Some(v@),
            r is None <==> lookup(old(self)@, k@) is None,
    {
        proof {
            use_type_invariant(&*self);
        }
        match self.find(k) {
            Some(i) => {
                let e = self.take_at(i);
                Some(e.1)
            },
            None => None,
        }
    }
}

impl StrMap<String> {
    /// A copy of a string map.
    pub fn clone_map(&self) -> (m: Self)
        ensures
            m@ == self@,
    {
        proof {
            use_type_invariant(self);
        }
        let mut entries: Vec<(String, String)> = Vec::new();
        let mut i: usize = 0;
        while i < self.entries.len()
            invariant
                i <= self.entries.len(),
                entries@.map_values(|e: (String, String)| (e.0@, e.1@)) =~= self@.subrange(0, i as int),
            decreases self.entries.len() - i,
        {
            let k = self.entries[i].0.clone();
            let v = self.entries[i].1.clone();
            let ghost old_entries = entries@;
            entries.push((k, v));
            assert(entries@.map_values(|e: (String, String)| (e.0@, e.1@)) =~= old_entries.map_values(
                |e: (String, String)| (e.0@, e.1@),
            ).push((k@, v@)));
            assert(self@.subrange(0, i + 1) =~= self@.subrange(0, i as int).push(self@[i as int]));
            i = i + 1;
        }
        assert(self@.subrange(0, self@.len() as int) =~= self@);
        let m = StrMap { entries };
        m
    }

    /// Stores every entry of `other` in turn, as `HashMap::extend` does.
    pub fn extend_strings(&mut self, other: &StrMap<String>)
        ensures
            final(self)@ == extended(old(self)@, other@),
    {
        let mut i: usize = 0;
        while i < other.len()
            invariant
                i <= other@.len(),
                self@ == extended(old(self)@, other@.subrange(0, i as int)),
            decreases other@.len() - i,
        {
            let k = other.key_at(i).clone();
            let v = other.value_at(i).clone();
            self.insert(k, v);
            assert(other@.subrange(0, i + 1).drop_last() =~= other@.subrange(0, i as int));
            i = i + 1;
        }
        assert(other@.subrange(0, other@.len() as int) =~= other@);
    }
}

impl Clone for StrMap<String> {
    fn clone(&self) -> (m: Self)
        ensures
            m@ == self@,
    {
        self.clone_map()
    }
}

/// The entries after storing each entry of `more` in turn.
pub open spec fn extended<K, T>(es: Seq<(K, T)>, more: Seq<(K, T)>) -> Seq<(K, T)>
    decreases more.len(),
{
    if more.len() == 0 {
        es
    } else {
        inserted(extended(es, more.drop_last()), more.last().0, more.last().1)
    }
}

/// A merge: after storing every entry of `more` in turn (no key twice in
/// `more`), a key of `more` gives its value there, and any other key gives
/// what it gave before.
pub proof fn lemma_lookup_extended<K, T>(es: Seq<(K, T)>, more: Seq<(K, T)>, q: K)
    requires
        unique_keys(more),
    ensures
        has_key(more, q) ==> lookup(extended(es, more), q) == lookup(more, q),
        !has_key(more, q) ==> lookup(extended(es, more), q) == lookup(es, q),
    decreases more.len(),
{
    if more.len() > 0 {
        let init = more.drop_last();
        let last = more.last();
        let n = more.len() - 1;
        assert forall|a: int, b: int| 0 <= a < b < init.len() implies init[a].0 != init[b].0 by {
            assert(init[a] == more[a] && init[b] == more[b]);
        }
        lemma_lookup_extended(es, init, q);
        lemma_lookup_inserted(extended(es, init), last.0, last.1, q);
        if q == last.0 {
            assert(more[n].0 == q);
            lemma_position_of(more, q);
            let p = position_of(more, q);
            assert(p == n);
            if has_key(init, q) {
                let i = choose|i: int| 0 <= i < init.len() && init[i].0 == q;
                assert(more[i].0 == q);
            }
        } else {
            if has_key(more, q) {
                lemma_position_of(more, q);
                let p = position_of(more, q);
                assert(p < n);
                assert(init[p] == more[p]);
                lemma_position_of(init, q);
                let pi = position_of(init, q);
                assert(init[pi] == more[pi]);
                assert(pi == p);
            }
            if has_key(init, q) {
                let i = choose|i: int| 0 <= i < init.len() && init[i].0 == q;
                assert(more[i] == init[i]);
            }
        }
    }
}
} // verus!
