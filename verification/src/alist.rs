//! Association lists with a `Map` view: the per-key storage primitive behind
//! the in-memory backend.
//!
//! Each list keeps at most one entry per key image, so its contents are
//! exactly a finite map from key views to value views, and every operation
//! is specified as the corresponding map operation.

use vstd::prelude::*;

verus! {

/// A key usable in an association list: comparable by its mathematical
/// image.
pub trait StoreKey: View + Sized {
    /// Compares two keys by their image.
    fn key_eq(&self, other: &Self) -> (r: bool)
        ensures
            r == (self@ == other@),
    ;

    /// Duplicates the key, preserving its image.
    fn dup(&self) -> (r: Self)
        ensures
            r@ == self@,
    ;
}

impl StoreKey for String {
    fn key_eq(&self, other: &Self) -> (r: bool) {
        self.eq(other)
    }

    fn dup(&self) -> (r: Self) {
        self.clone()
    }
}

/// The map described by a sequence of key-value pairs; later entries win,
/// though a well-formed list never repeats a key.
pub open spec fn pairs_map<K: View, V: View>(s: Seq<(K, V)>) -> Map<K::V, V::V>
    decreases s.len(),
{
    if s.len() == 0 {
        Map::empty()
    } else {
        pairs_map(s.drop_last()).insert(s.last().0@, s.last().1@)
    }
}

/// No two pairs of the sequence share a key image.
pub open spec fn distinct_keys<K: View, V: View>(s: Seq<(K, V)>) -> bool {
    forall|i: int, j: int| 0 <= i < j < s.len() ==> s[i].0@ != s[j].0@
}

/// The map contains exactly the key images present in the sequence.
pub proof fn lemma_pairs_map_contains<K: View, V: View>(s: Seq<(K, V)>, k: K::V)
    ensures
        pairs_map(s).contains_key(k) <==> exists|i: int| 0 <= i < s.len() && s[i].0@ == k,
    decreases s.len(),
{
    if s.len() > 0 {
        let t = s.drop_last();
        lemma_pairs_map_contains::<K, V>(t, k);
        if s.last().0@ == k {
            assert(s[s.len() - 1].0@ == k);
        } else {
            if pairs_map(s).contains_key(k) {
                let i = choose|i: int| 0 <= i < t.len() && t[i].0@ == k;
                assert(s[i].0@ == k);
            }
            if exists|i: int| 0 <= i < s.len() && s[i].0@ == k {
                let i = choose|i: int| 0 <= i < s.len() && s[i].0@ == k;
                assert(t[i] == s[i]);
            }
        }
    }
}

/// In a well-formed list, the entry at a matching index gives the map's
/// value at that key.
pub proof fn lemma_pairs_map_index<K: View, V: View>(s: Seq<(K, V)>, i: int)
    requires
        distinct_keys(s),
        0 <= i < s.len(),
    ensures
        pairs_map(s).contains_key(s[i].0@),
        pairs_map(s)[s[i].0@] == s[i].1@,
    decreases s.len(),
{
    let t = s.drop_last();
    assert(distinct_keys(t)) by {
        assert forall|a: int, b: int| 0 <= a < b < t.len() implies t[a].0@ != t[b].0@ by {
            assert(t[a] == s[a] && t[b] == s[b]);
        }
    }
    if i == s.len() - 1 {
    } else {
        lemma_pairs_map_index::<K, V>(t, i);
        assert(t[i] == s[i]);
        assert(s[i].0@ != s[s.len() - 1].0@);
    }
}

/// Replacing the entry at a matching index updates the map at that key.
pub proof fn lemma_pairs_map_update<K: View, V: View>(s: Seq<(K, V)>, i: int, p: (K, V))
    requires
        distinct_keys(s),
        0 <= i < s.len(),
        p.0@ == s[i].0@,
    ensures
        pairs_map(s.update(i, p)) =~= pairs_map(s).insert(p.0@, p.1@),
        distinct_keys(s.update(i, p)),
    decreases s.len(),
{
    let u = s.update(i, p);
    assert(distinct_keys(u)) by {
        assert forall|a: int, b: int| 0 <= a < b < u.len() implies u[a].0@ != u[b].0@ by {
            if a != i && b != i {
                assert(u[a] == s[a] && u[b] == s[b]);
            } else if a == i {
                assert(u[b] == s[b]);
            } else {
                assert(u[a] == s[a]);
            }
        }
    }
    if i == s.len() - 1 {
        assert(u.drop_last() =~= s.drop_last());
        assert(u.last() == p);
        assert(pairs_map(u) =~= pairs_map(s).insert(p.0@, p.1@));
    } else {
        let t = s.drop_last();
        assert(distinct_keys(t)) by {
            assert forall|a: int, b: int| 0 <= a < b < t.len() implies t[a].0@ != t[b].0@ by {
                assert(t[a] == s[a] && t[b] == s[b]);
            }
        }
        assert(t[i] == s[i]);
        lemma_pairs_map_update::<K, V>(t, i, p);
        assert(u.drop_last() =~= t.update(i, p));
        assert(u.last() == s.last());
        assert(p.0@ != s.last().0@) by {
            assert(s[i].0@ != s[s.len() - 1].0@);
        }
        assert(pairs_map(u) =~= pairs_map(s).insert(p.0@, p.1@));
    }
}

/// Removing the entry at a matching index removes the key from the map.
pub proof fn lemma_pairs_map_remove<K: View, V: View>(s: Seq<(K, V)>, i: int)
    requires
        distinct_keys(s),
        0 <= i < s.len(),
    ensures
        pairs_map(s.remove(i)) =~= pairs_map(s).remove(s[i].0@),
        distinct_keys(s.remove(i)),
    decreases s.len(),
{
    let u = s.remove(i);
    let k = s[i].0@;
    assert(distinct_keys(u)) by {
        assert forall|a: int, b: int| 0 <= a < b < u.len() implies u[a].0@ != u[b].0@ by {
            let a0 = if a < i {
                a
            } else {
                a + 1
            };
            let b0 = if b < i {
                b
            } else {
                b + 1
            };
            assert(u[a] == s[a0] && u[b] == s[b0]);
        }
    }
    let t = s.drop_last();
    assert(distinct_keys(t)) by {
        assert forall|a: int, b: int| 0 <= a < b < t.len() implies t[a].0@ != t[b].0@ by {
            assert(t[a] == s[a] && t[b] == s[b]);
        }
    }
    if i == s.len() - 1 {
        assert(u =~= t);
        assert(!pairs_map(t).contains_key(k)) by {
            lemma_pairs_map_contains::<K, V>(t, k);
            if exists|j: int| 0 <= j < t.len() && t[j].0@ == k {
                let j = choose|j: int| 0 <= j < t.len() && t[j].0@ == k;
                assert(s[j].0@ == s[i].0@);
            }
        }
        assert(pairs_map(u) =~= pairs_map(s).remove(k));
    } else {
        assert(t[i] == s[i]);
        lemma_pairs_map_remove::<K, V>(t, i);
        assert(u.drop_last() =~= t.remove(i)) by {
            assert(u.drop_last().len() == t.remove(i).len());
            assert forall|j: int| 0 <= j < u.drop_last().len() implies u.drop_last()[j] == t.remove(
                i,
            )[j] by {
                if j < i {
                    assert(u[j] == s[j]);
                } else {
                    assert(u[j] == s[j + 1]);
                }
            }
        }
        assert(u.last() == s.last()) by {
            assert(u[u.len() - 1] == s[s.len() - 1]);
        }
        assert(k != s.last().0@) by {
            assert(s[i].0@ != s[s.len() - 1].0@);
        }
        assert(pairs_map(u) =~= pairs_map(s).remove(k));
    }
}

/// An association list holding at most one entry per key image.
pub struct AList<K: StoreKey, V: View> {
    entries: Vec<(K, V)>,
}

impl<K: StoreKey, V: View> View for AList<K, V> {
    type V = Map<K::V, V::V>;

    closed spec fn view(&self) -> Map<K::V, V::V> {
        pairs_map(self.entries@)
    }
}

impl<K: StoreKey, V: View> AList<K, V> {
    /// Well-formedness: no key image occurs twice.
    pub closed spec fn wf(&self) -> bool {
        distinct_keys(self.entries@)
    }

    /// Creates an empty list.
    pub fn new() -> (r: Self)
        ensures
            r.wf(),
            r@ == Map::<K::V, V::V>::empty(),
    {
        AList { entries: Vec::new() }
    }

    /// The index of the entry matching the key, if any.
    fn index_of(&self, key: &K) -> (r: Option<usize>)
        requires
            self.wf(),
        ensures
            match r {
                Some(i) => i < self.entries@.len() && self.entries@[i as int].0@ == key@
                    && self@.contains_key(key@) && self@[key@] == self.entries@[i as int].1@,
                None => !self@.contains_key(key@),
            },
    {
        let n = self.entries.len();
        let mut i: usize = 0;
        while i < n
            invariant
                i <= n,
                n == self.entries@.len(),
                self.wf(),
                forall|t: int| 0 <= t < i ==> self.entries@[t].0@ != key@,
            decreases n - i,
        {
            if self.entries[i].0.key_eq(key) {
                proof {
                    lemma_pairs_map_index::<K, V>(self.entries@, i as int);
                }
                return Some(i);
            }
            i += 1;
        }
        proof {
            lemma_pairs_map_contains::<K, V>(self.entries@, key@);
        }
        None
    }

    /// The value stored under the key, if any.
    pub fn get(&self, key: &K) -> (r: Option<&V>)
        requires
            self.wf(),
        ensures
            match r {
                Some(v) => self@.contains_key(key@) && v@ == self@[key@],
                None => !self@.contains_key(key@),
            },
    {
        match self.index_of(key) {
            Some(i) => Some(&self.entries[i].1),
            None => None,
        }
    }

    /// Whether the key is present.
    pub fn contains(&self, key: &K) -> (r: bool)
        requires
            self.wf(),
        ensures
            r == self@.contains_key(key@),
    {
        self.index_of(key).is_some()
    }

    /// Stores the value under the key, replacing any previous value.
    pub fn insert(&mut self, key: K, value: V)
        requires
            old(self).wf(),
        ensures
            final(self).wf(),
            final(self)@ == old(self)@.insert(key@, value@),
    {
        match self.index_of(&key) {
            Some(i) => {
                let ghost s = self.entries@;
                let ghost ii = i as int;
                let pair = (key, value);
                let ghost p = pair;
                self.entries.set(i, pair);
                proof {
                    lemma_pairs_map_update::<K, V>(s, ii, p);
                }
            },
            None => {
                let ghost s = self.entries@;
                let pair = (key, value);
                let ghost p = pair;
                self.entries.push(pair);
                proof {
                    assert(self.entries@.drop_last() =~= s);
                    assert(self.entries@.last() == p);
                    assert(self@ =~= old(self)@.insert(p.0@, p.1@));
                    assert(distinct_keys(self.entries@)) by {
                        lemma_pairs_map_contains::<K, V>(s, p.0@);
                        assert forall|a: int, b: int|
                            0 <= a < b < self.entries@.len() implies self.entries@[a].0@
                            != self.entries@[b].0@ by {
                            if b < s.len() {
                                assert(self.entries@[a] == s[a] && self.entries@[b] == s[b]);
                            } else {
                                assert(self.entries@[a] == s[a]);
                                assert(self.entries@[b] == p);
                            }
                        }
                    }
                }
            },
        }
    }

    /// Duplicates the stored keys; their images cover the map's domain
    /// exactly.
    pub fn keys(&self) -> (r: Vec<K>)
        requires
            self.wf(),
        ensures
            forall|k: K::V| self@.contains_key(k) <==> exists|i: int|
                0 <= i < r@.len() && #[trigger] r@[i]@ == k,
    {
        let n = self.entries.len();
        let mut out: Vec<K> = Vec::new();
        let mut i: usize = 0;
        while i < n
            invariant
                i <= n,
                n == self.entries@.len(),
                self.wf(),
                out@.len() == i as int,
                forall|t: int| 0 <= t < i ==> out@[t]@ == self.entries@[t].0@,
            decreases n - i,
        {
            out.push(self.entries[i].0.dup());
            i += 1;
        }
        proof {
            assert forall|k: K::V| self@.contains_key(k) implies exists|t: int|
                0 <= t < out@.len() && #[trigger] out@[t]@ == k by {
                lemma_pairs_map_contains::<K, V>(self.entries@, k);
                let t = choose|t: int| 0 <= t < self.entries@.len() && self.entries@[t].0@ == k;
                assert(out@[t]@ == k);
            }
            assert forall|k: K::V|
                exists|t: int| 0 <= t < out@.len() && #[trigger] out@[t]@ == k implies self@.contains_key(
                k,
            ) by {
                let t = choose|t: int| 0 <= t < out@.len() && out@[t]@ == k;
                assert(self.entries@[t].0@ == k);
                lemma_pairs_map_contains::<K, V>(self.entries@, k);
            }
        }
        out
    }

    /// Removes the key; reports whether it was present.
    pub fn remove(&mut self, key: &K) -> (r: bool)
        requires
            old(self).wf(),
        ensures
            final(self).wf(),
            final(self)@ == old(self)@.remove(key@),
            r == old(self)@.contains_key(key@),
    {
        match self.index_of(key) {
            Some(i) => {
                let ghost s = self.entries@;
                let ghost ii = i as int;
                self.entries.remove(i);
                proof {
                    lemma_pairs_map_remove::<K, V>(s, ii);
                }
                true
            },
            None => {
                proof {
                    assert(self@ =~= old(self)@.remove(key@));
                }
                false
            },
        }
    }
}

} // verus!
