use vstd::prelude::*;

verus! {

/// A key of a [`Store`]: two keys are the same when their views are equal.
pub trait StoreKey: View + Sized {
    fn same_key(&self, other: &Self) -> (r: bool)
        ensures
            r == (self@ == other@);
}

impl StoreKey for String {
    fn same_key(&self, other: &String) -> (r: bool) {
        *self == *other
    }
}

/// The map that a list of entries stands for: later entries win.
pub open spec fn entries_map<K: View, V>(s: Seq<(K, V)>) -> Map<K::V, V>
    decreases s.len(),
{
    if s.len() == 0 {
        Map::empty()
    } else {
        entries_map(s.drop_last()).insert(s.last().0@, s.last().1)
    }
}

/// No key occurs twice.
pub open spec fn keys_unique<K: View, V>(s: Seq<(K, V)>) -> bool {
    forall|i: int, j: int| 0 <= i < j < s.len() ==> (#[trigger] s[i]).0@ != (#[trigger] s[j]).0@
}

proof fn lemma_contains<K: View, V>(s: Seq<(K, V)>, k: K::V)
    ensures
        entries_map(s).contains_key(k) <==> exists|i: int| 0 <= i < s.len() && (#[trigger] s[i]).0@ == k,
    decreases s.len(),
{
    if s.len() > 0 {
        let d = s.drop_last();
        lemma_contains(d, k);
        if exists|i: int| 0 <= i < d.len() && (#[trigger] d[i]).0@ == k {
            let i = choose|i: int| 0 <= i < d.len() && (#[trigger] d[i]).0@ == k;
            assert(s[i] == d[i]);
        }
        if exists|i: int| 0 <= i < s.len() && (#[trigger] s[i]).0@ == k {
            let i = choose|i: int| 0 <= i < s.len() && (#[trigger] s[i]).0@ == k;
            if i < s.len() - 1 {
                assert(d[i] == s[i]);
            }
        }
    }
}

proof fn lemma_value<K: View, V>(s: Seq<(K, V)>, i: int)
    requires
        keys_unique(s),
        0 <= i < s.len(),
    ensures
        entries_map(s).contains_key(s[i].0@),
        entries_map(s)[s[i].0@] == s[i].1,
    decreases s.len(),
{
    lemma_contains(s, s[i].0@);
    if i < s.len() - 1 {
        let d = s.drop_last();
        assert(d[i] == s[i]);
        lemma_value(d, i);
        assert(s[i].0@ != s[s.len() - 1].0@);
    }
}

proof fn lemma_update<K: View, V>(s: Seq<(K, V)>, i: int, e: (K, V))
    requires
        keys_unique(s),
        0 <= i < s.len(),
        e.0@ == s[i].0@,
    ensures
        keys_unique(s.update(i, e)),
        entries_map(s.update(i, e)) == entries_map(s).insert(e.0@, e.1),
    decreases s.len(),
{
    let u = s.update(i, e);
    assert forall|a: int, b: int| 0 <= a < b < u.len() implies (#[trigger] u[a]).0@ != (#[trigger] u[b]).0@ by {
        assert(u[a].0@ == s[a].0@ && u[b].0@ == s[b].0@);
    }
    let d = s.drop_last();
    if i == s.len() - 1 {
        assert(u.drop_last() =~= d);
        lemma_contains(d, e.0@);
        assert(!entries_map(d).contains_key(e.0@)) by {
            if entries_map(d).contains_key(e.0@) {
                let j = choose|j: int| 0 <= j < d.len() && (#[trigger] d[j]).0@ == e.0@;
                assert(s[j] == d[j]);
            }
        }
        assert(entries_map(u) =~= entries_map(s).insert(e.0@, e.1));
    } else {
        assert(u.drop_last() =~= d.update(i, e));
        assert(d[i] == s[i]);
        lemma_update(d, i, e);
        assert(s.last().0@ != e.0@) by {
            assert(s[s.len() - 1] == s.last());
        }
        assert(entries_map(u) =~= entries_map(s).insert(e.0@, e.1));
    }
}

proof fn lemma_remove<K: View, V>(s: Seq<(K, V)>, i: int)
    requires
        keys_unique(s),
        0 <= i < s.len(),
    ensures
        keys_unique(s.remove(i)),
        entries_map(s.remove(i)) == entries_map(s).remove(s[i].0@),
    decreases s.len(),
{
    let r = s.remove(i);
    let k = s[i].0@;
    assert forall|a: int, b: int| 0 <= a < b < r.len() implies (#[trigger] r[a]).0@ != (#[trigger] r[b]).0@ by {
        let a2 = if a < i { a } else { a + 1 };
        let b2 = if b < i { b } else { b + 1 };
        assert(r[a] == s[a2] && r[b] == s[b2]);
    }
    let d = s.drop_last();
    if i == s.len() - 1 {
        assert(r =~= d);
        lemma_contains(d, k);
        assert(!entries_map(d).contains_key(k)) by {
            if entries_map(d).contains_key(k) {
                let j = choose|j: int| 0 <= j < d.len() && (#[trigger] d[j]).0@ == k;
                assert(s[j] == d[j]);
            }
        }
        assert(entries_map(r) =~= entries_map(s).remove(k));
    } else {
        assert(r.drop_last() =~= d.remove(i));
        assert(r.last() == s.last());
        assert(d[i] == s[i]);
        lemma_remove(d, i);
        assert(s.last().0@ != k) by {
            assert(s[s.len() - 1] == s.last());
        }
        assert(entries_map(r) =~= entries_map(s).remove(k));
    }
}

/// A keyed store: a map from the views of its keys to its values.
pub struct Store<K, V> {
    entries: Vec<(K, V)>,
}

impl<K: StoreKey, V> View for Store<K, V> {
    type V = Map<K::V, V>;

    closed spec fn view(&self) -> Map<K::V, V> {
        entries_map(self.entries@)
    }
}

impl<K: StoreKey, V> Store<K, V> {
    /// The store's internal invariant: each key occurs once.
    pub closed spec fn wf(&self) -> bool {
        keys_unique(self.entries@)
    }

    /// An empty store.
    pub fn new() -> (r: Self)
        ensures
            r.wf(),
            r@ == Map::<K::V, V>::empty(),
    {
        Store { entries: Vec::new() }
    }

    fn find(&self, k: &K) -> (r: Option<usize>)
        requires
            self.wf(),
        ensures
            r matches Some(i) ==> i < self.entries@.len() && self.entries@[i as int].0@ == k@,
            r is None ==> !self@.contains_key(k@),
    {
        let mut i: usize = 0;
        while i < self.entries.len()
            invariant
                i <= self.entries@.len(),
                forall|j: int| 0 <= j < i ==> (#[trigger] self.entries@[j]).0@ != k@,
            decreases self.entries@.len() - i,
        {
            if self.entries[i].0.same_key(k) {
                return Some(i);
            }
            i = i + 1;
        }
        proof {
            lemma_contains(self.entries@, k@);
        }
        None
    }

    /// The value stored under `k`, if any.
    pub fn get(&self, k: &K) -> (r: Option<&V>)
        requires
            self.wf(),
        ensures
            r matches Some(v) ==> self@.contains_key(k@) && *v == self@[k@],
            r is None ==> !self@.contains_key(k@),
    {
        match self.find(k) {
            Some(i) => {
                proof {
                    lemma_value(self.entries@, i as int);
                }
                Some(&self.entries[i].1)
            },
            None => None,
        }
    }

    /// Stores `v` under `k`, replacing what was there.
    pub fn insert(&mut self, k: K, v: V)
        requires
            old(self).wf(),
        ensures
            final(self).wf(),
            final(self)@ == old(self)@.insert(k@, v),
    {
        match self.find(&k) {
            Some(i) => {
                proof {
                    lemma_update(self.entries@, i as int, (k, v));
                }
                self.entries.set(i, (k, v));
            },
            None => {
                proof {
                    lemma_contains(self.entries@, k@);
                    let s = self.entries@;
                    assert(keys_unique(s.push((k, v)))) by {
                        assert forall|a: int, b: int| 0 <= a < b < s.len() + 1 implies (#[trigger] s.push((k, v))[a]).0@
                            != (#[trigger] s.push((k, v))[b]).0@ by {
                            assert(s.push((k, v))[a] == s[a]);
                            if b < s.len() {
                                assert(s.push((k, v))[b] == s[b]);
                            }
                        }
                    }
                    assert(s.push((k, v)).drop_last() =~= s);
                }
                self.entries.push((k, v));
            },
        }
    }

    /// Takes out the value stored under `k`, if any.
    pub fn remove(&mut self, k: &K) -> (r: Option<V>)
        requires
            old(self).wf(),
        ensures
            final(self).wf(),
            final(self)@ == old(self)@.remove(k@),
            r matches Some(v) ==> old(self)@.contains_key(k@) && v == old(self)@[k@],
            r is None ==> !old(self)@.contains_key(k@) && final(self)@ == old(self)@,
    {
        match self.find(k) {
            Some(i) => {
                proof {
                    lemma_value(self.entries@, i as int);
                    lemma_remove(self.entries@, i as int);
                }
                let (_, v) = self.entries.remove(i);
                Some(v)
            },
            None => {
                proof {
                    assert(self@.remove(k@) =~= self@);
                }
                None
            },
        }
    }

    /// Removes every entry.
    pub fn clear(&mut self)
        ensures
            final(self).wf(),
            final(self)@ == Map::<K::V, V>::empty(),
    {
        self.entries = Vec::new();
    }
}

} // verus!
