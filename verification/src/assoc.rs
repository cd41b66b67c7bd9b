//! A small association list: the keyed tables of the library whose keys are
//! strings (or that must stay generic over their values) live here, with the
//! invariant that no key occurs twice.
use vstd::prelude::*;

verus! {

/// Keys that can be compared and copied with a proved meaning.
pub trait KeyEq: Sized + View {
    fn key_eq(&self, other: &Self) -> (r: bool)
        ensures
            r == (self@ == other@);

    fn key_clone(&self) -> (r: Self)
        ensures
            r@ == self@;
}

impl KeyEq for String {
    fn key_eq(&self, other: &Self) -> (r: bool) {
        *self == *other
    }

    fn key_clone(&self) -> (r: Self) {
        self.clone()
    }
}

impl KeyEq for u16 {
    fn key_eq(&self, other: &Self) -> (r: bool) {
        *self == *other
    }

    fn key_clone(&self) -> (r: Self) {
        *self
    }
}

impl KeyEq for i64 {
    fn key_eq(&self, other: &Self) -> (r: bool) {
        *self == *other
    }

    fn key_clone(&self) -> (r: Self) {
        *self
    }
}

pub struct AssocList<K: KeyEq, V> {
    entries: Vec<(K, V)>,
}

pub open spec fn keys_distinct<K: View, V>(s: Seq<(K, V)>) -> bool {
    forall|i: int, j: int| 0 <= i < j < s.len() ==> (#[trigger] s[i]).0@ != (#[trigger] s[j]).0@
}

pub open spec fn has_key<K: View, V>(s: Seq<(K, V)>, k: K::V) -> bool {
    exists|i: int| 0 <= i < s.len() && (#[trigger] s[i]).0@ == k
}

pub open spec fn seq_to_map<K: View, V>(s: Seq<(K, V)>) -> Map<K::V, V> {
    Map::new(
        |k: K::V| has_key(s, k),
        |k: K::V| s[choose|i: int| 0 <= i < s.len() && (#[trigger] s[i]).0@ == k].1,
    )
}

proof fn lemma_map_at<K: View, V>(s: Seq<(K, V)>, i: int)
    requires
        keys_distinct(s),
        0 <= i < s.len(),
    ensures
        seq_to_map(s).contains_key(s[i].0@),
        seq_to_map(s)[s[i].0@] == s[i].1,
{
    let k = s[i].0@;
    assert(has_key(s, k));
    let j = choose|j: int| 0 <= j < s.len() && (#[trigger] s[j]).0@ == k;
    if j != i {
        if j < i { assert(s[j].0@ != s[i].0@); } else { assert(s[i].0@ != s[j].0@); }
    }
}

impl<K: KeyEq, V> AssocList<K, V> {
    pub closed spec fn wf(&self) -> bool {
        keys_distinct(self.entries@)
    }

    pub closed spec fn map(&self) -> Map<K::V, V> {
        seq_to_map(self.entries@)
    }

    /// The entries in the order they were first inserted.
    pub closed spec fn entries(&self) -> Seq<(K, V)> {
        self.entries@
    }

    pub proof fn lemma_entries_cover(&self)
        requires
            self.wf(),
        ensures
            forall|i: int| 0 <= i < self.entries().len() ==> self.map().contains_key(#[trigger] self.entries()[i].0@)
                && self.map()[self.entries()[i].0@] == self.entries()[i].1,
            forall|k: K::V| self.map().contains_key(k) ==> exists|i: int| 0 <= i < self.entries().len() && (#[trigger] self.entries()[i]).0@ == k,
            self.map().dom().finite(),
            self.map().dom().len() == self.entries().len(),
    {
        assert forall|i: int| 0 <= i < self.entries().len() implies self.map().contains_key(#[trigger] self.entries()[i].0@)
            && self.map()[self.entries()[i].0@] == self.entries()[i].1 by {
            lemma_map_at(self.entries@, i);
        }
        assert forall|k: K::V| self.map().contains_key(k) implies exists|i: int| 0 <= i < self.entries().len() && (#[trigger] self.entries()[i]).0@ == k by {
            let i = choose|i: int| 0 <= i < self.entries@.len() && (#[trigger] self.entries@[i]).0@ == k;
            assert(self.entries()[i] == self.entries@[i]);
        }
        let keys = self.entries@.map_values(|p: (K, V)| p.0@);
        assert(keys.to_set() =~= self.map().dom()) by {
            assert forall|k: K::V| self.map().dom().contains(k) implies keys.to_set().contains(k) by {
                let i = choose|i: int| 0 <= i < self.entries@.len() && (#[trigger] self.entries@[i]).0@ == k;
                assert(keys[i] == k);
            }
            assert forall|k: K::V| keys.to_set().contains(k) implies self.map().dom().contains(k) by {
                let i = choose|i: int| 0 <= i < keys.len() && keys[i] == k;
                assert(self.entries@[i].0@ == k);
            }
        }
        vstd::seq_lib::seq_to_set_is_finite(keys);
        assert(keys.no_duplicates()) by {
            assert forall|i: int, j: int| 0 <= i < keys.len() && 0 <= j < keys.len() && i != j implies keys[i] != keys[j] by {
                if i < j { assert(self.entries@[i].0@ != self.entries@[j].0@); } else { assert(self.entries@[j].0@ != self.entries@[i].0@); }
            }
        }
        keys.unique_seq_to_set();
    }

    pub fn new() -> (r: Self)
        ensures
            r.wf(),
            r.map().dom().is_empty(),
            r.entries().len() == 0,
    {
        let r = AssocList { entries: Vec::new() };
        assert(r.map().dom() =~= Set::empty());
        r
    }

    pub fn len(&self) -> (r: usize)
        requires
            self.wf(),
        ensures
            r == self.map().dom().len(),
            r == self.entries().len(),
    {
        proof { self.lemma_entries_cover(); }
        self.entries.len()
    }

    fn index_of(&self, k: &K) -> (r: Option<usize>)
        requires
            self.wf(),
        ensures
            match r {
                Some(i) => i < self.entries@.len() && self.entries@[i as int].0@ == k@,
                None => !has_key(self.entries@, k@),
            },
    {
        let mut i: usize = 0;
        while i < self.entries.len()
            invariant
                0 <= i <= self.entries@.len(),
                forall|j: int| 0 <= j < i ==> (#[trigger] self.entries@[j]).0@ != k@,
            decreases self.entries@.len() - i,
        {
            if self.entries[i].0.key_eq(k) {
                return Some(i);
            }
            i = i + 1;
        }
        None
    }

    pub fn contains_key(&self, k: &K) -> (r: bool)
        requires
            self.wf(),
        ensures
            r == self.map().contains_key(k@),
    {
        self.index_of(k).is_some()
    }

    pub fn get(&self, k: &K) -> (r: Option<&V>)
        requires
            self.wf(),
        ensures
            match r {
                Some(v) => self.map().contains_key(k@) && self.map()[k@] == *v,
                None => !self.map().contains_key(k@),
            },
    {
        match self.index_of(k) {
            Some(i) => {
                proof { lemma_map_at(self.entries@, i as int); }
                Some(&self.entries[i].1)
            }
            None => None,
        }
    }

    /// Binds `k` to `v`; an existing binding keeps its place in the order.
    pub fn insert(&mut self, k: K, v: V) -> (r: Option<V>)
        requires
            old(self).wf(),
        ensures
            final(self).wf(),
            final(self).map() == old(self).map().insert(k@, v),
            match r {
                Some(x) => old(self).map().contains_key(k@) && old(self).map()[k@] == x,
                None => !old(self).map().contains_key(k@),
            },
    {
        let ghost old_entries = self.entries@;
        match self.index_of(&k) {
            Some(i) => {
                proof { lemma_map_at(old_entries, i as int); }
                let ghost kv = k@;
                self.entries.push((k, v));
                let old_pair = self.entries.swap_remove(i);
                let ghost new_entries = self.entries@;
                assert(new_entries == old_entries.update(i as int, (new_entries[i as int].0, v)));
                assert(keys_distinct(new_entries));
                proof {
                    lemma_map_at(new_entries, i as int);
                    assert forall|key: K::V| #![auto] seq_to_map(new_entries).contains_key(key) == seq_to_map(old_entries).insert(kv, v).contains_key(key) by {
                        if has_key(old_entries, key) {
                            let j = choose|j: int| 0 <= j < old_entries.len() && (#[trigger] old_entries[j]).0@ == key;
                            if j != i { assert(new_entries[j] == old_entries[j]); }
                        }
                        if has_key(new_entries, key) {
                            let j = choose|j: int| 0 <= j < new_entries.len() && (#[trigger] new_entries[j]).0@ == key;
                            if j != i { assert(new_entries[j] == old_entries[j]); }
                        }
                    }
                    assert forall|key: K::V| seq_to_map(new_entries).contains_key(key) implies #[trigger] seq_to_map(new_entries)[key] == seq_to_map(old_entries).insert(kv, v)[key] by {
                        let j = choose|j: int| 0 <= j < new_entries.len() && (#[trigger] new_entries[j]).0@ == key;
                        lemma_map_at(new_entries, j);
                        if j != i {
                            assert(new_entries[j] == old_entries[j]);
                            lemma_map_at(old_entries, j);
                        }
                    }
                    assert(seq_to_map(new_entries) =~= seq_to_map(old_entries).insert(kv, v));
                }
                Some(old_pair.1)
            }
            None => {
                let ghost kv = k@;
                self.entries.push((k, v));
                let ghost new_entries = self.entries@;
                assert(keys_distinct(new_entries)) by {
                    assert forall|a: int, b: int| 0 <= a < b < new_entries.len() implies (#[trigger] new_entries[a]).0@ != (#[trigger] new_entries[b]).0@ by {
                        if b == new_entries.len() - 1 {
                            assert(new_entries[a] == old_entries[a]);
                        } else {
                            assert(new_entries[a] == old_entries[a]);
                            assert(new_entries[b] == old_entries[b]);
                        }
                    }
                }
                proof {
                    lemma_map_at(new_entries, new_entries.len() - 1);
                    assert forall|key: K::V| #![auto] seq_to_map(new_entries).contains_key(key) == seq_to_map(old_entries).insert(kv, v).contains_key(key) by {
                        if has_key(old_entries, key) {
                            let j = choose|j: int| 0 <= j < old_entries.len() && (#[trigger] old_entries[j]).0@ == key;
                            assert(new_entries[j] == old_entries[j]);
                        }
                        if has_key(new_entries, key) {
                            let j = choose|j: int| 0 <= j < new_entries.len() && (#[trigger] new_entries[j]).0@ == key;
                            if j < old_entries.len() { assert(new_entries[j] == old_entries[j]); }
                        }
                    }
                    assert forall|key: K::V| seq_to_map(new_entries).contains_key(key) implies #[trigger] seq_to_map(new_entries)[key] == seq_to_map(old_entries).insert(kv, v)[key] by {
                        let j = choose|j: int| 0 <= j < new_entries.len() && (#[trigger] new_entries[j]).0@ == key;
                        lemma_map_at(new_entries, j);
                        if j < old_entries.len() {
                            assert(new_entries[j] == old_entries[j]);
                            lemma_map_at(old_entries, j);
                        }
                    }
                    assert(seq_to_map(new_entries) =~= seq_to_map(old_entries).insert(kv, v));
                }
                None
            }
        }
    }

    /// Drops the binding of `k`, handing back its value; the other bindings
    /// keep their order.
    pub fn remove(&mut self, k: &K) -> (r: Option<V>)
        requires
            old(self).wf(),
        ensures
            final(self).wf(),
            final(self).map() == old(self).map().remove(k@),
            match r {
                Some(x) => old(self).map().contains_key(k@) && old(self).map()[k@] == x,
                None => !old(self).map().contains_key(k@),
            },
    {
        let ghost old_entries = self.entries@;
        match self.index_of(k) {
            Some(i) => {
                proof { lemma_map_at(old_entries, i as int); }
                let pair = self.entries.remove(i);
                let ghost new_entries = self.entries@;
                assert(new_entries == old_entries.remove(i as int));
                assert(keys_distinct(new_entries)) by {
                    assert forall|a: int, b: int| 0 <= a < b < new_entries.len() implies (#[trigger] new_entries[a]).0@ != (#[trigger] new_entries[b]).0@ by {
                        let oa = if a < i { a } else { a + 1 };
                        let ob = if b < i { b } else { b + 1 };
                        assert(new_entries[a] == old_entries[oa]);
                        assert(new_entries[b] == old_entries[ob]);
                    }
                }
                proof {
                    assert forall|key: K::V| #![auto] seq_to_map(new_entries).contains_key(key) == seq_to_map(old_entries).remove(k@).contains_key(key) by {
                        if has_key(old_entries, key) && key != k@ {
                            let j = choose|j: int| 0 <= j < old_entries.len() && (#[trigger] old_entries[j]).0@ == key;
                            if j < i { assert(new_entries[j] == old_entries[j]); } else { assert(j != i); assert(new_entries[j - 1] == old_entries[j]); }
                        }
                        if has_key(new_entries, key) {
                            let j = choose|j: int| 0 <= j < new_entries.len() && (#[trigger] new_entries[j]).0@ == key;
                            let oj = if j < i { j } else { j + 1 };
                            assert(new_entries[j] == old_entries[oj]);
                            assert(old_entries[oj].0@ != old_entries[i as int].0@);
                        }
                    }
                    assert forall|key: K::V| seq_to_map(new_entries).contains_key(key) implies #[trigger] seq_to_map(new_entries)[key] == seq_to_map(old_entries).remove(k@)[key] by {
                        let j = choose|j: int| 0 <= j < new_entries.len() && (#[trigger] new_entries[j]).0@ == key;
                        let oj = if j < i { j } else { j + 1 };
                        assert(new_entries[j] == old_entries[oj]);
                        lemma_map_at(new_entries, j);
                        lemma_map_at(old_entries, oj);
                    }
                    assert(seq_to_map(new_entries) =~= seq_to_map(old_entries).remove(k@));
                }
                Some(pair.1)
            }
            None => {
                assert(seq_to_map(old_entries) =~= seq_to_map(old_entries).remove(k@));
                None
            }
        }
    }

    /// Drops every binding.
    pub fn clear(&mut self)
        ensures
            final(self).wf(),
            final(self).map().dom().is_empty(),
    {
        self.entries.clear();
        assert(self.map().dom() =~= Set::empty());
    }
}

} // verus!
