//! A key/value table with unique keys, kept in insertion order.
//!
//! Its contents are seen two ways: as the sequence of rows (key view, value)
//! and as the map from key views to values that those rows describe.
use vstd::prelude::*;
use crate::types::{Account, EventId, OutPoint, ShareKey};

verus! {

/// A key type whose equality can be decided on its view.
pub trait TableKey: View + Sized {
    fn same_key(&self, other: &Self) -> (r: bool)
        ensures
            r == (self@ == other@);
}

impl TableKey for Account {
    fn same_key(&self, other: &Self) -> (r: bool) {
        self.same(other)
    }
}

impl TableKey for EventId {
    fn same_key(&self, other: &Self) -> (r: bool) {
        self.same(other)
    }
}

impl TableKey for OutPoint {
    fn same_key(&self, other: &Self) -> (r: bool) {
        self.same(other)
    }
}

impl TableKey for ShareKey {
    fn same_key(&self, other: &Self) -> (r: bool) {
        self.same(other)
    }
}

/// No two rows share a key.
pub open spec fn keys_unique<A, B>(s: Seq<(A, B)>) -> bool {
    forall|i: int, j: int|
        0 <= i < s.len() && 0 <= j < s.len() && i != j ==> s[i].0 != s[j].0
}

pub open spec fn has_key<A, B>(s: Seq<(A, B)>, k: A) -> bool {
    exists|i: int| 0 <= i < s.len() && s[i].0 == k
}

/// The position of the row with key `k`.
pub open spec fn index_of<A, B>(s: Seq<(A, B)>, k: A) -> int {
    choose|i: int| 0 <= i < s.len() && s[i].0 == k
}

/// The rows after setting key `k` to `v`: in place where the key is present,
/// else appended.
pub open spec fn set_row<A, B>(s: Seq<(A, B)>, k: A, v: B) -> Seq<(A, B)> {
    if has_key(s, k) {
        s.update(index_of(s, k), (k, v))
    } else {
        s.push((k, v))
    }
}

/// The map that a sequence of rows describes.
pub open spec fn map_of_rows<A, B>(s: Seq<(A, B)>) -> Map<A, B> {
    Map::new(|k: A| has_key(s, k), |k: A| s[index_of(s, k)].1)
}

pub proof fn lemma_lookup<A, B>(s: Seq<(A, B)>, i: int)
    requires
        keys_unique(s),
        0 <= i < s.len(),
    ensures
        index_of(s, s[i].0) == i,
        map_of_rows(s).contains_key(s[i].0),
        map_of_rows(s)[s[i].0] == s[i].1,
{
    assert(has_key(s, s[i].0));
    let j = index_of(s, s[i].0);
    assert(0 <= j < s.len() && s[j].0 == s[i].0);
}

/// One more row of `s` adds one key.
pub proof fn lemma_has_key_take<A, B>(s: Seq<(A, B)>, i: int)
    requires
        0 <= i < s.len(),
    ensures
        forall|k: A| #[trigger]
            has_key(s.take(i + 1), k) == (has_key(s.take(i), k) || k == s[i].0),
{
    assert forall|k: A| #[trigger]
        has_key(s.take(i + 1), k) == (has_key(s.take(i), k) || k == s[i].0) by {
        if has_key(s.take(i + 1), k) {
            let j = index_of(s.take(i + 1), k);
            if j < i {
                assert(s.take(i)[j].0 == k);
            }
        }
        if has_key(s.take(i), k) {
            let j = index_of(s.take(i), k);
            assert(s.take(i + 1)[j].0 == k);
        }
        if k == s[i].0 {
            assert(s.take(i + 1)[i].0 == k);
        }
    }
}

proof fn lemma_update<A, B>(s: Seq<(A, B)>, i: int, v: B)
    requires
        keys_unique(s),
        0 <= i < s.len(),
    ensures
        keys_unique(s.update(i, (s[i].0, v))),
        map_of_rows(s.update(i, (s[i].0, v))) == map_of_rows(s).insert(s[i].0, v),
{
    let t = s.update(i, (s[i].0, v));
    assert forall|j: int| 0 <= j < t.len() implies t[j].0 == s[j].0 by {}
    let m = map_of_rows(s).insert(s[i].0, v);
    assert forall|k: A| #[trigger] map_of_rows(t).contains_key(k) == m.contains_key(k) by {
        if has_key(t, k) {
            let j = index_of(t, k);
            assert(s[j].0 == k);
        }
        if has_key(s, k) {
            let j = index_of(s, k);
            assert(t[j].0 == k);
        }
        if k == s[i].0 {
            assert(t[i].0 == k);
        }
    }
    assert forall|k: A| #[trigger] map_of_rows(t).contains_key(k) implies map_of_rows(t)[k]
        == m[k] by {
        let j = index_of(t, k);
        lemma_lookup(t, j);
        if j != i {
            lemma_lookup(s, j);
        }
    }
    assert(map_of_rows(t) =~= m);
}

proof fn lemma_push<A, B>(s: Seq<(A, B)>, k: A, v: B)
    requires
        keys_unique(s),
        !has_key(s, k),
    ensures
        keys_unique(s.push((k, v))),
        map_of_rows(s.push((k, v))) == map_of_rows(s).insert(k, v),
{
    let t = s.push((k, v));
    assert forall|i: int, j: int|
        0 <= i < t.len() && 0 <= j < t.len() && i != j implies t[i].0 != t[j].0 by {
        if i == s.len() {
            assert(s[j].0 == t[j].0);
        } else if j == s.len() {
            assert(s[i].0 == t[i].0);
        }
    }
    let m = map_of_rows(s).insert(k, v);
    assert forall|x: A| #[trigger] map_of_rows(t).contains_key(x) == m.contains_key(x) by {
        if has_key(t, x) {
            let j = index_of(t, x);
            if j < s.len() {
                assert(s[j].0 == x);
            }
        }
        if has_key(s, x) {
            let j = index_of(s, x);
            assert(t[j].0 == x);
        }
        assert(t[s.len() as int].0 == k);
    }
    assert forall|x: A| #[trigger] map_of_rows(t).contains_key(x) implies map_of_rows(t)[x]
        == m[x] by {
        let j = index_of(t, x);
        lemma_lookup(t, j);
        if j < s.len() {
            lemma_lookup(s, j);
        }
    }
    assert(map_of_rows(t) =~= m);
}

proof fn lemma_remove<A, B>(s: Seq<(A, B)>, i: int)
    requires
        keys_unique(s),
        0 <= i < s.len(),
    ensures
        keys_unique(s.remove(i)),
        map_of_rows(s.remove(i)) == map_of_rows(s).remove(s[i].0),
{
    let t = s.remove(i);
    assert forall|a: int, b: int|
        0 <= a < t.len() && 0 <= b < t.len() && a != b implies t[a].0 != t[b].0 by {
        let a2 = if a < i { a } else { a + 1 };
        let b2 = if b < i { b } else { b + 1 };
        assert(t[a] == s[a2] && t[b] == s[b2]);
    }
    let m = map_of_rows(s).remove(s[i].0);
    assert forall|x: A| #[trigger] map_of_rows(t).contains_key(x) == m.contains_key(x) by {
        if has_key(t, x) {
            let j = index_of(t, x);
            let j2 = if j < i { j } else { j + 1 };
            assert(t[j] == s[j2]);
        }
        if has_key(s, x) && x != s[i].0 {
            let j = index_of(s, x);
            if j < i {
                assert(t[j] == s[j]);
            } else {
                assert(t[j - 1] == s[j]);
            }
        }
    }
    assert forall|x: A| #[trigger] map_of_rows(t).contains_key(x) implies map_of_rows(t)[x]
        == m[x] by {
        let j = index_of(t, x);
        lemma_lookup(t, j);
        let j2 = if j < i { j } else { j + 1 };
        assert(t[j] == s[j2]);
        lemma_lookup(s, j2);
    }
    assert(map_of_rows(t) =~= m);
}

/// Rows of `(key, value)`, no two with the same key.
pub struct Table<K, V> {
    rows: Vec<(K, V)>,
}

impl<K: TableKey, V> Table<K, V> {
    /// The rows, keys seen through their view, in insertion order.
    pub closed spec fn rows(&self) -> Seq<(K::V, V)> {
        self.rows@.map_values(|r: (K, V)| (r.0@, r.1))
    }

    /// The rows as they are stored, keys included.
    pub closed spec fn entries(&self) -> Seq<(K, V)> {
        self.rows@
    }

    pub open spec fn wf(&self) -> bool {
        keys_unique(self.rows())
    }

    /// The map from key views to values.
    pub open spec fn map(&self) -> Map<K::V, V> {
        map_of_rows(self.rows())
    }

    pub fn new() -> (t: Self)
        ensures
            t.wf(),
            t.rows() == Seq::<(K::V, V)>::empty(),
    {
        let t = Table { rows: Vec::new() };
        assert(t.rows() =~= Seq::<(K::V, V)>::empty());
        t
    }

    pub fn len(&self) -> (n: usize)
        ensures
            n == self.rows().len(),
            n == self.entries().len(),
    {
        self.rows.len()
    }

    pub fn key_at(&self, i: usize) -> (k: &K)
        requires
            i < self.rows().len(),
        ensures
            k@ == self.rows()[i as int].0,
            *k == self.entries()[i as int].0,
    {
        &self.rows[i].0
    }

    pub fn value_at(&self, i: usize) -> (v: &V)
        requires
            i < self.rows().len(),
        ensures
            *v == self.rows()[i as int].1,
            *v == self.entries()[i as int].1,
    {
        &self.rows[i].1
    }

    /// The position of the row with key `k`, if there is one.
    pub fn find(&self, k: &K) -> (r: Option<usize>)
        requires
            self.wf(),
        ensures
            match r {
                Some(i) => i < self.rows().len() && i == index_of(self.rows(), k@)
                    && self.rows()[i as int].0 == k@,
                None => !has_key(self.rows(), k@),
            },
            r is Some <==> self.map().contains_key(k@),
    {
        let mut i: usize = 0;
        while i < self.rows.len()
            invariant
                0 <= i <= self.rows@.len(),
                self.wf(),
                forall|j: int| 0 <= j < i ==> self.rows()[j].0 != k@,
            decreases self.rows@.len() - i,
        {
            if self.rows[i].0.same_key(k) {
                proof {
                    lemma_lookup(self.rows(), i as int);
                }
                return Some(i);
            }
            i = i + 1;
        }
        None
    }

    pub fn get(&self, k: &K) -> (r: Option<&V>)
        requires
            self.wf(),
        ensures
            match r {
                Some(v) => self.map().contains_key(k@) && self.map()[k@] == *v,
                None => !self.map().contains_key(k@),
            },
    {
        match self.find(k) {
            Some(i) => {
                proof {
                    lemma_lookup(self.rows(), i as int);
                }
                Some(&self.rows[i].1)
            },
            None => None,
        }
    }

    /// Sets the value of key `k`, in place where the key is present.
    pub fn insert(&mut self, k: K, v: V)
        requires
            old(self).wf(),
        ensures
            final(self).wf(),
            final(self).map() == old(self).map().insert(k@, v),
            final(self).rows() == set_row(old(self).rows(), k@, v),
    {
        let ghost kv = k@;
        let ghost old_rows = self.rows();
        match self.find(&k) {
            Some(i) => {
                self.rows.set(i, (k, v));
                proof {
                    lemma_update(old_rows, i as int, v);
                    assert(self.rows() =~= old_rows.update(i as int, (kv, v)));
                }
            },
            None => {
                self.rows.push((k, v));
                proof {
                    lemma_push(old_rows, kv, v);
                    assert(self.rows() =~= old_rows.push((kv, v)));
                }
            },
        }
    }

    /// Removes the row with key `k`, if there is one.
    pub fn remove(&mut self, k: &K)
        requires
            old(self).wf(),
        ensures
            final(self).wf(),
            final(self).map() == old(self).map().remove(k@),
            final(self).rows() == if has_key(old(self).rows(), k@) {
                old(self).rows().remove(index_of(old(self).rows(), k@))
            } else {
                old(self).rows()
            },
    {
        let ghost old_rows = self.rows();
        match self.find(k) {
            Some(i) => {
                self.rows.remove(i);
                proof {
                    lemma_remove(old_rows, i as int);
                    assert(self.rows() =~= old_rows.remove(i as int));
                }
            },
            None => {
                assert(map_of_rows(old_rows) =~= map_of_rows(old_rows).remove(k@));
            },
        }
    }
}

} // verus!
