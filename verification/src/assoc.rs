//! Finite maps kept as a vector of entries without repeated keys.
//!
//! The entries keep the order in which their keys were first inserted.

use vstd::prelude::*;

verus! {

/// A key that can be compared for equality of what it stands for.
pub trait Key: View + Sized {
    /// Whether both keys stand for the same value.
    fn same(&self, other: &Self) -> (r: bool)
        ensures
            r == (self@ == other@),
    ;
}

impl Key for String {
    fn same(&self, other: &Self) -> (r: bool) {
        *self == *other
    }
}

/// No two entries have the same key.
pub open spec fn distinct_keys<K: Key, V>(s: Seq<(K, V)>) -> bool {
    forall|i: int, j: int|
        0 <= i < s.len() && 0 <= j < s.len() && i != j ==> (#[trigger] s[i]).0@ != (
        #[trigger] s[j]).0@
}

/// The map that a sequence of entries stands for.
pub open spec fn entry_map<K: Key, V>(s: Seq<(K, V)>) -> Map<K::V, V>
    decreases s.len(),
{
    if s.len() == 0 {
        Map::empty()
    } else {
        entry_map(s.drop_last()).insert(s.last().0@, s.last().1)
    }
}

proof fn lemma_entry_map<K: Key, V>(s: Seq<(K, V)>)
    requires
        distinct_keys(s),
    ensures
        entry_map(s).dom().finite(),
        entry_map(s).dom().len() == s.len(),
        forall|i: int|
            0 <= i < s.len() ==> entry_map(s).dom().contains((#[trigger] s[i]).0@) && entry_map(
                s,
            )[s[i].0@] == s[i].1,
        forall|k: K::V|
            entry_map(s).dom().contains(k) ==> exists|i: int|
                0 <= i < s.len() && (#[trigger] s[i]).0@ == k,
    decreases s.len(),
{
    if s.len() > 0 {
        let p = s.drop_last();
        assert(distinct_keys(p)) by {
            assert forall|i: int, j: int|
                0 <= i < p.len() && 0 <= j < p.len() && i != j implies (#[trigger] p[i]).0@ != (
            #[trigger] p[j]).0@ by {
                assert(p[i] == s[i] && p[j] == s[j]);
            }
        }
        lemma_entry_map(p);
        let last = s.last().0@;
        assert(!entry_map(p).dom().contains(last)) by {
            if entry_map(p).dom().contains(last) {
                let i = choose|i: int| 0 <= i < p.len() && (#[trigger] p[i]).0@ == last;
                assert(p[i] == s[i]);
                assert(s[i].0@ != s[s.len() - 1].0@);
            }
        }
        assert forall|i: int| 0 <= i < s.len() implies entry_map(s).dom().contains(
            (#[trigger] s[i]).0@,
        ) && entry_map(s)[s[i].0@] == s[i].1 by {
            if i < s.len() - 1 {
                assert(p[i] == s[i]);
                assert(s[i].0@ != s[s.len() - 1].0@);
            }
        }
        assert forall|k: K::V| entry_map(s).dom().contains(k) implies exists|i: int|
            0 <= i < s.len() && (#[trigger] s[i]).0@ == k by {
            if k != last {
                let i = choose|i: int| 0 <= i < p.len() && (#[trigger] p[i]).0@ == k;
                assert(s[i].0@ == k);
            } else {
                assert(s[s.len() - 1].0@ == k);
            }
        }
    }
}

/// Two entry sequences stand for the same map when they agree on every key.
proof fn lemma_same_map<K: Key, V>(s: Seq<(K, V)>, m: Map<K::V, V>)
    requires
        distinct_keys(s),
        forall|i: int|
            0 <= i < s.len() ==> m.dom().contains((#[trigger] s[i]).0@) && m[s[i].0@] == s[i].1,
        forall|k: K::V|
            m.dom().contains(k) ==> exists|i: int| 0 <= i < s.len() && (#[trigger] s[i]).0@ == k,
    ensures
        entry_map(s) == m,
{
    lemma_entry_map(s);
    assert(entry_map(s) =~= m) by {
        assert forall|k: K::V| entry_map(s).dom().contains(k) == m.dom().contains(k) by {
            if entry_map(s).dom().contains(k) {
                let i = choose|i: int| 0 <= i < s.len() && (#[trigger] s[i]).0@ == k;
                assert(s[i].0@ == k);
            }
            if m.dom().contains(k) {
                let i = choose|i: int| 0 <= i < s.len() && (#[trigger] s[i]).0@ == k;
                assert(s[i].0@ == k);
            }
        }
        assert forall|k: K::V| entry_map(s).dom().contains(k) implies entry_map(s)[k] == m[k] by {
            let i = choose|i: int| 0 <= i < s.len() && (#[trigger] s[i]).0@ == k;
            assert(s[i].0@ == k);
        }
    }
}

/// Replacing an entry by one with the same key is an insertion.
proof fn lemma_update<K: Key, V>(s: Seq<(K, V)>, i: int, key: K, value: V)
    requires
        distinct_keys(s),
        0 <= i < s.len(),
        s[i].0@ == key@,
    ensures
        distinct_keys(s.update(i, (key, value))),
        entry_map(s.update(i, (key, value))) == entry_map(s).insert(key@, value),
{
    lemma_entry_map(s);
    let t = s.update(i, (key, value));
    let m = entry_map(s).insert(key@, value);
    assert forall|k: K::V| m.dom().contains(k) implies exists|j: int|
        0 <= j < t.len() && (#[trigger] t[j]).0@ == k by {
        if k == key@ {
            assert(t[i].0@ == k);
        } else {
            let j = choose|j: int| 0 <= j < s.len() && (#[trigger] s[j]).0@ == k;
            assert(t[j] == s[j]);
        }
    }
    lemma_same_map(t, m);
}

/// Keys whose values satisfy a predicate.
pub open spec fn matching<K, V>(m: Map<K, V>, p: spec_fn(V) -> bool) -> Set<K> {
    m.dom().filter(|k: K| p(m[k]))
}

/// Setting a value puts its key in or out, as the predicate says.
pub proof fn matching_after_insert<K, V>(m: Map<K, V>, p: spec_fn(V) -> bool, key: K, value: V)
    requires
        m.dom().finite(),
    ensures
        matching(m, p).finite(),
        matching(m.insert(key, value), p).finite(),
        matching(m.insert(key, value), p).len() == matching(m, p).len() + (if p(value) {
            1int
        } else {
            0
        }) - (if m.dom().contains(key) && p(m[key]) {
            1int
        } else {
            0
        }),
{
    let before = matching(m, p);
    let after = matching(m.insert(key, value), p);
    m.dom().lemma_len_filter(|k: K| p(m[k]));
    if p(value) {
        assert(after =~= before.insert(key));
    } else {
        assert(after =~= before.remove(key));
    }
}

/// Taking a key out takes it out of the matching ones.
pub proof fn matching_after_remove<K, V>(m: Map<K, V>, p: spec_fn(V) -> bool, key: K)
    requires
        m.dom().finite(),
    ensures
        matching(m, p).finite(),
        matching(m.remove(key), p).finite(),
        matching(m.remove(key), p).len() == matching(m, p).len() - (if m.dom().contains(key) && p(
            m[key],
        ) {
            1int
        } else {
            0
        }),
{
    let before = matching(m, p);
    let after = matching(m.remove(key), p);
    m.dom().lemma_len_filter(|k: K| p(m[k]));
    assert(after =~= before.remove(key));
}

/// The matching keys among the first entries.
pub proof fn matching_prefix<K: Key, V>(s: Seq<(K, V)>, n: int, p: spec_fn(V) -> bool)
    requires
        distinct_keys(s),
        0 <= n < s.len(),
    ensures
        distinct_keys(s.take(n)),
        distinct_keys(s.take(n + 1)),
        matching(entry_map(s.take(n + 1)), p).len() == matching(entry_map(s.take(n)), p).len() + (
        if p(s[n].1) {
            1int
        } else {
            0
        }),
{
    let a = s.take(n);
    let b = s.take(n + 1);
    assert(b.drop_last() =~= a);
    assert forall|i: int, j: int|
        0 <= i < b.len() && 0 <= j < b.len() && i != j implies (#[trigger] b[i]).0@ != (
    #[trigger] b[j]).0@ by {
        assert(b[i] == s[i] && b[j] == s[j]);
    }
    assert forall|i: int, j: int|
        0 <= i < a.len() && 0 <= j < a.len() && i != j implies (#[trigger] a[i]).0@ != (
    #[trigger] a[j]).0@ by {
        assert(a[i] == s[i] && a[j] == s[j]);
    }
    lemma_entry_map(a);
    let k = s[n].0@;
    assert(!entry_map(a).dom().contains(k)) by {
        if entry_map(a).dom().contains(k) {
            let i = choose|i: int| 0 <= i < a.len() && (#[trigger] a[i]).0@ == k;
            assert(a[i] == s[i]);
            assert(s[i].0@ != s[n].0@);
        }
    }
    matching_after_insert(entry_map(a), p, k, s[n].1);
}

/// A finite map from keys to values.
pub struct AssocMap<K: Key, V> {
    entries: Vec<(K, V)>,
}

impl<K: Key, V> View for AssocMap<K, V> {
    type V = Map<K::V, V>;

    closed spec fn view(&self) -> Map<K::V, V> {
        entry_map(self.entries@)
    }
}

impl<K: Key, V> AssocMap<K, V> {
    /// No key occurs twice.
    pub closed spec fn wf(&self) -> bool {
        distinct_keys(self.entries@)
    }

    /// The empty map.
    pub fn new() -> (r: Self)
        ensures
            r.wf(),
            r@ == Map::<K::V, V>::empty(),
    {
        let entries: Vec<(K, V)> = Vec::new();
        AssocMap { entries }
    }

    /// Number of keys.
    pub fn len(&self) -> (r: usize)
        requires
            self.wf(),
        ensures
            self@.dom().finite(),
            r == self@.dom().len(),
            r == self@.len(),
    {
        proof {
            lemma_entry_map(self.entries@);
        }
        self.entries.len()
    }

    fn position(&self, key: &K) -> (r: Option<usize>)
        requires
            self.wf(),
        ensures
            match r {
                Some(i) => i < self.entries.len() && self.entries@[i as int].0@ == key@
                    && self@.dom().contains(key@) && self@[key@] == self.entries@[i as int].1,
                None => !self@.dom().contains(key@),
            },
    {
        proof {
            lemma_entry_map(self.entries@);
        }
        let mut i: usize = 0;
        while i < self.entries.len()
            invariant
                i <= self.entries.len(),
                forall|j: int| 0 <= j < i ==> (#[trigger] self.entries@[j]).0@ != key@,
                self@ == entry_map(self.entries@),
                forall|j: int|
                    0 <= j < self.entries@.len() ==> entry_map(self.entries@).dom().contains(
                        (#[trigger] self.entries@[j]).0@,
                    ) && entry_map(self.entries@)[self.entries@[j].0@] == self.entries@[j].1,
            decreases self.entries.len() - i,
        {
            if self.entries[i].0.same(key) {
                return Some(i);
            }
            i = i + 1;
        }
        None
    }

    /// Whether the key is present.
    pub fn contains_key(&self, key: &K) -> (r: bool)
        requires
            self.wf(),
        ensures
            r == self@.dom().contains(key@),
    {
        self.position(key).is_some()
    }

    /// The value of a key.
    pub fn get(&self, key: &K) -> (r: Option<&V>)
        requires
            self.wf(),
        ensures
            match r {
                Some(v) => self@.dom().contains(key@) && *v == self@[key@],
                None => !self@.dom().contains(key@),
            },
    {
        match self.position(key) {
            Some(i) => Some(&self.entries[i].1),
            None => None,
        }
    }

    /// The value of a key, to be changed in place.
    pub fn get_mut(&mut self, key: &K) -> (r: Option<&mut V>)
        requires
            old(self).wf(),
        ensures
            final(self).wf(),
            match r {
                Some(v) => old(self)@.dom().contains(key@) && *v == old(self)@[key@] && final(self)@
                    == old(self)@.insert(key@, *final(v)),
                None => !old(self)@.dom().contains(key@) && final(self)@ == old(self)@,
            },
    {
        match self.position(key) {
            Some(i) => {
                proof {
                    lemma_entry_map(self.entries@);
                    let before = self.entries@;
                    assert forall|v: V|
                        {
                            let s = #[trigger] before.update(i as int, (before[i as int].0, v));
                            distinct_keys(s) && entry_map(s) == entry_map(before).insert(key@, v)
                        } by {
                        lemma_update(before, i as int, before[i as int].0, v);
                    }
                }
                Some(&mut self.entries[i].1)
            },
            None => None,
        }
    }

    /// Sets the value of a key, whether or not it was present.
    pub fn insert(&mut self, key: K, value: V)
        requires
            old(self).wf(),
        ensures
            final(self).wf(),
            final(self)@ == old(self)@.insert(key@, value),
    {
        proof {
            lemma_entry_map(self.entries@);
        }
        let ghost before = self.entries@;
        match self.position(&key) {
            Some(i) => {
                self.entries.set(i, (key, value));
                proof {
                    lemma_update(before, i as int, key, value);
                }
            },
            None => {
                self.entries.push((key, value));
                proof {
                    assert(self.entries@.drop_last() =~= before);
                }
            },
        }
    }

    /// Takes a key out; answers the value that it had.
    pub fn remove(&mut self, key: &K) -> (r: Option<V>)
        requires
            old(self).wf(),
        ensures
            final(self).wf(),
            final(self)@ == old(self)@.remove(key@),
            match r {
                Some(v) => old(self)@.dom().contains(key@) && v == old(self)@[key@],
                None => !old(self)@.dom().contains(key@),
            },
    {
        proof {
            lemma_entry_map(self.entries@);
        }
        let ghost before = self.entries@;
        match self.position(key) {
            Some(i) => {
                let gone = self.entries.remove(i);
                proof {
                    let s = self.entries@;
                    let m = entry_map(before).remove(key@);
                    assert(s =~= before.remove(i as int));
                    assert forall|k: K::V| m.dom().contains(k) implies exists|j: int|
                        0 <= j < s.len() && (#[trigger] s[j]).0@ == k by {
                        let j = choose|j: int| 0 <= j < before.len() && (#[trigger] before[j]).0@ == k;
                        if j < i {
                            assert(s[j] == before[j]);
                        } else {
                            assert(s[j - 1] == before[j]);
                        }
                    }
                    lemma_same_map(s, m);
                }
                Some(gone.1)
            },
            None => {
                proof {
                    assert(entry_map(before).remove(key@) =~= entry_map(before));
                }
                None
            },
        }
    }

    /// The entries, in the order in which their keys were first inserted.
    pub closed spec fn order(&self) -> Seq<(K, V)> {
        self.entries@
    }

    /// The order lists exactly the entries of the map.
    pub proof fn lemma_order(&self)
        requires
            self.wf(),
        ensures
            distinct_keys(self.order()),
            self@ == entry_map(self.order()),
            self@.dom().finite(),
            self@.dom().len() == self.order().len(),
            forall|i: int|
                0 <= i < self.order().len() ==> self@.dom().contains((#[trigger] self.order()[i]).0@)
                    && self@[self.order()[i].0@] == self.order()[i].1,
            forall|k: K::V|
                self@.dom().contains(k) ==> exists|i: int|
                    0 <= i < self.order().len() && (#[trigger] self.order()[i]).0@ == k,
    {
        lemma_entry_map(self.entries@);
    }

    /// Number of entries.
    pub fn count(&self) -> (r: usize)
        ensures
            r == self.order().len(),
    {
        self.entries.len()
    }

    /// An entry by its position.
    pub fn at(&self, i: usize) -> (r: &(K, V))
        requires
            i < self.order().len(),
        ensures
            *r == self.order()[i as int],
    {
        &self.entries[i]
    }

    /// Takes every entry out, in order.
    pub fn drain(&mut self) -> (r: Vec<(K, V)>)
        requires
            old(self).wf(),
        ensures
            final(self).wf(),
            final(self)@ == Map::<K::V, V>::empty(),
            r@ == old(self).order(),
    {
        let mut out: Vec<(K, V)> = Vec::new();
        core::mem::swap(&mut out, &mut self.entries);
        out
    }
}

} // verus!
