//! A small keyed table: the form in which the ledger holds each kind of
//! persistent entry.  Its meaning is the finite map from keys to the views
//! of the stored values; no key is stored twice.

use vstd::prelude::*;

verus! {

/// Keys that a table can compare while it runs.
pub trait TableKey: Sized {
    fn same(&self, other: &Self) -> (b: bool)
        ensures
            b == (*self == *other),
    ;
}

impl TableKey for u32 {
    fn same(&self, other: &Self) -> (b: bool) {
        *self == *other
    }
}

impl TableKey for u64 {
    fn same(&self, other: &Self) -> (b: bool) {
        *self == *other
    }
}

impl TableKey for (u64, u64) {
    fn same(&self, other: &Self) -> (b: bool) {
        self.0 == other.0 && self.1 == other.1
    }
}

/// Entries in insertion order; each key at most once.
pub struct Table<K, V> {
    entries: Vec<(K, V)>,
}

/// Whether some entry of `s` has key `k`.
pub open spec fn has_key<K, V>(s: Seq<(K, V)>, k: K) -> bool {
    exists|i: int| 0 <= i < s.len() && #[trigger] s[i].0 == k
}

pub open spec fn keys_distinct<K, V>(s: Seq<(K, V)>) -> bool {
    forall|i: int, j: int| 0 <= i < s.len() && 0 <= j < s.len() && i != j ==> s[i].0 != s[j].0
}

/// The map that a sequence of entries with distinct keys stands for.
pub open spec fn entries_map<K, V: View>(s: Seq<(K, V)>) -> Map<K, V::V> {
    Map::new(
        |k: K| has_key(s, k),
        |k: K| s[choose|i: int| 0 <= i < s.len() && s[i].0 == k].1@,
    )
}

proof fn lemma_entry_value<K, V: View>(s: Seq<(K, V)>, i: int)
    requires
        keys_distinct(s),
        0 <= i < s.len(),
    ensures
        entries_map(s).dom().contains(s[i].0),
        entries_map(s)[s[i].0] == s[i].1@,
{
    let k = s[i].0;
    assert(has_key(s, k));
    let j = choose|j: int| 0 <= j < s.len() && s[j].0 == k;
    assert(j == i);
}

/// A map made from entries with distinct keys has one key per entry.
proof fn lemma_dom_len<K, V: View>(s: Seq<(K, V)>)
    requires
        keys_distinct(s),
    ensures
        entries_map(s).dom().finite(),
        entries_map(s).dom().len() == s.len(),
    decreases s.len(),
{
    let d = entries_map(s).dom();
    if s.len() == 0 {
        assert(d =~= Set::<K>::empty());
    } else {
        let t = s.drop_last();
        let k = s.last().0;
        assert(keys_distinct(t));
        lemma_dom_len(t);
        let dt = entries_map(t).dom();
        assert forall|q: K| #[trigger] d.contains(q) == dt.insert(k).contains(q) by {
            if has_key(s, q) {
                let j = choose|j: int| 0 <= j < s.len() && s[j].0 == q;
                if j < t.len() {
                    assert(t[j].0 == q);
                }
            }
            if dt.contains(q) {
                let j = choose|j: int| 0 <= j < t.len() && t[j].0 == q;
                assert(s[j].0 == q);
            }
            if q == k {
                assert(s[s.len() - 1].0 == q);
            }
        }
        assert(d =~= dt.insert(k));
        if dt.contains(k) {
            let j = choose|j: int| 0 <= j < t.len() && t[j].0 == k;
            assert(s[j].0 == k);
            assert(false);
        }
    }
}

impl<K: TableKey, V: View> View for Table<K, V> {
    type V = Map<K, V::V>;

    closed spec fn view(&self) -> Map<K, V::V> {
        entries_map(self.entries@)
    }
}

impl<K, V> Table<K, V> {
    #[verifier::type_invariant]
    closed spec fn distinct(self) -> bool {
        keys_distinct(self.entries@)
    }
}

impl<K: TableKey, V: View> Table<K, V> {
    pub fn new() -> (t: Self)
        ensures
            t@ == Map::<K, V::V>::empty(),
    {
        let t = Table { entries: Vec::new() };
        assert(t@ =~= Map::<K, V::V>::empty());
        t
    }

    /// The position of `k`, if it is stored.
    fn find(&self, k: &K) -> (r: Option<usize>)
        ensures
            match r {
                Some(i) => i < self.entries@.len() && self.entries@[i as int].0 == *k,
                None => !has_key(self.entries@, *k),
            },
    {
        let mut i: usize = 0;
        while i < self.entries.len()
            invariant
                i <= self.entries@.len(),
                forall|j: int| 0 <= j < i ==> self.entries@[j].0 != *k,
            decreases self.entries@.len() - i,
        {
            if self.entries[i].0.same(k) {
                return Some(i);
            }
            i = i + 1;
        }
        None
    }

    /// The value stored under `k`.
    pub fn get(&self, k: &K) -> (r: Option<&V>)
        ensures
            match r {
                Some(v) => self@.dom().contains(*k) && v@ == self@[*k],
                None => !self@.dom().contains(*k),
            },
    {
        proof {
            use_type_invariant(self);
        }
        match self.find(k) {
            Some(i) => {
                proof {
                    lemma_entry_value(self.entries@, i as int);
                }
                Some(&self.entries[i].1)
            },
            None => None,
        }
    }

    /// The stored keys, each once.
    pub fn keys(&self) -> (r: Vec<K>)
        where
            K: Copy,
        ensures
            r@.len() == self@.dom().len(),
            forall|i: int| 0 <= i < r@.len() ==> self@.dom().contains(#[trigger] r@[i]),
            forall|k: K| #[trigger] self@.dom().contains(k) ==> r@.contains(k),
    {
        proof {
            use_type_invariant(self);
        }
        let mut r: Vec<K> = Vec::new();
        let mut i: usize = 0;
        while i < self.entries.len()
            invariant
                i <= self.entries@.len(),
                r@.len() == i,
                forall|j: int| 0 <= j < i ==> #[trigger] r@[j] == self.entries@[j].0,
            decreases self.entries@.len() - i,
        {
            r.push(self.entries[i].0);
            i = i + 1;
        }
        proof {
            let s = self.entries@;
            assert forall|j: int| 0 <= j < r@.len() implies self@.dom().contains(#[trigger] r@[j]) by {
                assert(s[j].0 == r@[j]);
            }
            assert forall|k: K| #[trigger] self@.dom().contains(k) implies r@.contains(k) by {
                let j = choose|j: int| 0 <= j < s.len() && s[j].0 == k;
                assert(r@[j] == k);
            }
            lemma_dom_len(s);
        }
        r
    }

    /// Stores `v` under `k`, replacing what was there.
    pub fn insert(&mut self, k: K, v: V)
        ensures
            final(self)@ == old(self)@.insert(k, v@),
    {
        proof {
            use_type_invariant(&*self);
        }
        let found = self.find(&k);
        let mut entries: Vec<(K, V)> = Vec::new();
        std::mem::swap(&mut entries, &mut self.entries);
        let ghost s = entries@;
        match found {
            Some(i) => {
                entries.set(i, (k, v));
                proof {
                    let t = entries@;
                    assert(t == s.update(i as int, (k, v)));
                    assert(keys_distinct(t));
                    assert forall|q: K| #[trigger] entries_map(t).dom().contains(q) == entries_map(s).insert(k, v@).dom().contains(q) by {
                        if has_key(s, q) {
                            let j = choose|j: int| 0 <= j < s.len() && s[j].0 == q;
                            assert(t[j].0 == q);
                        }
                        if has_key(t, q) {
                            let j = choose|j: int| 0 <= j < t.len() && t[j].0 == q;
                            if j != i {
                                assert(s[j].0 == q);
                            }
                        }
                    }
                    assert forall|q: K| #[trigger] entries_map(t).dom().contains(q) implies entries_map(t)[q] == entries_map(s).insert(k, v@)[q] by {
                        let j = choose|j: int| 0 <= j < t.len() && t[j].0 == q;
                        lemma_entry_value(t, j);
                        if j != i {
                            lemma_entry_value(s, j);
                        }
                    }
                    assert(entries_map(t) =~= entries_map(s).insert(k, v@));
                }
            },
            None => {
                entries.push((k, v));
                proof {
                    let t = entries@;
                    assert(t == s.push((k, v)));
                    assert(keys_distinct(t)) by {
                        assert forall|a: int, b: int| 0 <= a < t.len() && 0 <= b < t.len() && a != b implies t[a].0 != t[b].0 by {
                            if a == s.len() as int {
                                assert(s[b].0 == t[b].0);
                            } else if b == s.len() as int {
                                assert(s[a].0 == t[a].0);
                            }
                        }
                    }
                    assert forall|q: K| #[trigger] entries_map(t).dom().contains(q) == entries_map(s).insert(k, v@).dom().contains(q) by {
                        if has_key(s, q) {
                            let j = choose|j: int| 0 <= j < s.len() && s[j].0 == q;
                            assert(t[j].0 == q);
                        }
                        if q == k {
                            assert(t[s.len() as int].0 == q);
                        }
                        if has_key(t, q) {
                            let j = choose|j: int| 0 <= j < t.len() && t[j].0 == q;
                            if j < s.len() {
                                assert(s[j].0 == q);
                            }
                        }
                    }
                    assert forall|q: K| #[trigger] entries_map(t).dom().contains(q) implies entries_map(t)[q] == entries_map(s).insert(k, v@)[q] by {
                        let j = choose|j: int| 0 <= j < t.len() && t[j].0 == q;
                        lemma_entry_value(t, j);
                        if j < s.len() {
                            lemma_entry_value(s, j);
                        }
                    }
                    assert(entries_map(t) =~= entries_map(s).insert(k, v@));
                }
            },
        }
        self.entries = entries;
    }

    /// Takes out what is stored under `k`.
    pub fn remove(&mut self, k: &K) -> (r: Option<V>)
        ensures
            final(self)@ == old(self)@.remove(*k),
            match r {
                Some(v) => old(self)@.dom().contains(*k) && v@ == old(self)@[*k],
                None => !old(self)@.dom().contains(*k),
            },
    {
        proof {
            use_type_invariant(&*self);
        }
        let found = self.find(k);
        match found {
            None => {
                assert(self@ =~= self@.remove(*k));
                None
            },
            Some(i) => {
                let mut entries: Vec<(K, V)> = Vec::new();
                std::mem::swap(&mut entries, &mut self.entries);
                let ghost s = entries@;
                proof {
                    lemma_entry_value(s, i as int);
                }
                let e = entries.remove(i);
                proof {
                    let t = entries@;
                    assert(t == s.remove(i as int));
                    assert(keys_distinct(t)) by {
                        assert forall|a: int, b: int| 0 <= a < t.len() && 0 <= b < t.len() && a != b implies t[a].0 != t[b].0 by {
                            let a2 = if a < i { a } else { a + 1 };
                            let b2 = if b < i { b } else { b + 1 };
                            assert(t[a] == s[a2]);
                            assert(t[b] == s[b2]);
                        }
                    }
                    assert forall|q: K| #[trigger] entries_map(t).dom().contains(q) == entries_map(s).remove(*k).dom().contains(q) by {
                        if has_key(s, q) && q != *k {
                            let j = choose|j: int| 0 <= j < s.len() && s[j].0 == q;
                            if j < i {
                                assert(t[j].0 == q);
                            } else {
                                assert(j != i);
                                assert(t[j - 1].0 == q);
                            }
                        }
                        if has_key(t, q) {
                            let j = choose|j: int| 0 <= j < t.len() && t[j].0 == q;
                            let j2 = if j < i { j } else { j + 1 };
                            assert(s[j2].0 == q);
                            assert(j2 != i);
                        }
                    }
                    assert forall|q: K| #[trigger] entries_map(t).dom().contains(q) implies entries_map(t)[q] == entries_map(s).remove(*k)[q] by {
                        let j = choose|j: int| 0 <= j < t.len() && t[j].0 == q;
                        lemma_entry_value(t, j);
                        let j2 = if j < i { j } else { j + 1 };
                        assert(t[j] == s[j2]);
                        lemma_entry_value(s, j2);
                    }
                    assert(entries_map(t) =~= entries_map(s).remove(*k));
                }
                self.entries = entries;
                Some(e.1)
            },
        }
    }
}

} // verus!
