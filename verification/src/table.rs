//! A small association table with exact-match lookup, modelled as a `Map`.

use vstd::prelude::*;
use crate::keys::Key;

verus! {

/// Key-value table in which every key occurs at most once.
#[derive(Clone, Debug, PartialEq, Eq)]
pub struct Table<K, V> {
    keys: Vec<K>,
    values: Vec<V>,
}

impl<K: Key, V> Table<K, V> {
    /// The position at which `k` is stored, for a key that the table holds.
    pub closed spec fn slot(&self, k: K) -> int {
        choose|i: int| 0 <= i < self.keys@.len() && self.keys@[i] == k
    }

    /// Keys and values line up and no key is stored twice.
    pub closed spec fn wf(&self) -> bool {
        &&& self.keys@.len() == self.values@.len()
        &&& forall|i: int, j: int|
            0 <= i < self.keys@.len() && 0 <= j < self.keys@.len() && self.keys@[i] == self.keys@[j]
                ==> i == j
    }

    /// The table as a map from keys to values.
    pub closed spec fn view(&self) -> Map<K, V> {
        Map::new(
            |k: K| exists|i: int| 0 <= i < self.keys@.len() && self.keys@[i] == k,
            |k: K| self.values@[self.slot(k)],
        )
    }

    /// An empty table.
    pub fn new() -> (r: Self)
        ensures
            r.wf(),
            r@ == Map::<K, V>::empty(),
    {
        let r = Table { keys: Vec::new(), values: Vec::new() };
        proof {
            assert(r@ =~= Map::<K, V>::empty());
        }
        r
    }

    fn find(&self, k: &K) -> (r: Option<usize>)
        requires
            self.wf(),
        ensures
            match r {
                Some(i) => i < self.keys@.len() && self.keys@[i as int] == *k && self@.contains_key(*k)
                    && self.slot(*k) == i,
                None => !self@.contains_key(*k),
            },
    {
        let mut i: usize = 0;
        while i < self.keys.len()
            invariant
                self.wf(),
                i <= self.keys@.len(),
                forall|j: int| 0 <= j < i ==> self.keys@[j] != *k,
            decreases self.keys@.len() - i,
        {
            if self.keys[i].same(k) {
                return Some(i);
            }
            i += 1;
        }
        None
    }

    /// Whether the table holds `k`.
    pub fn contains(&self, k: &K) -> (r: bool)
        requires
            self.wf(),
        ensures
            r == self@.contains_key(*k),
    {
        self.find(k).is_some()
    }

    /// The value stored under `k`, if any.
    pub fn get(&self, k: &K) -> (r: Option<&V>)
        requires
            self.wf(),
        ensures
            match r {
                Some(v) => self@.contains_key(*k) && *v == self@[*k],
                None => !self@.contains_key(*k),
            },
    {
        match self.find(k) {
            Some(i) => Some(&self.values[i]),
            None => None,
        }
    }

    /// Stores `v` under `k`, replacing what was stored there.
    pub fn put(&mut self, k: K, v: V)
        requires
            old(self).wf(),
        ensures
            final(self).wf(),
            final(self)@ == old(self)@.insert(k, v),
    {
        match self.find(&k) {
            Some(i) => {
                self.values.set(i, v);
                proof {
                    assert forall|q: K| self@.contains_key(q) implies #[trigger] self@[q] == old(self)@.insert(
                        k,
                        v,
                    )[q] by {
                        if q != k {
                            assert(self.slot(q) == old(self).slot(q));
                        }
                    }
                    assert(self@ =~= old(self)@.insert(k, v));
                }
            },
            None => {
                self.keys.push(k);
                self.values.push(v);
                proof {
                    let n = old(self).keys@.len() as int;
                    assert(self.keys@[n] == k);
                    assert forall|q: K| #[trigger]
                        old(self)@.insert(k, v).contains_key(q) implies self@.contains_key(q) by {
                        if q != k {
                            let i = old(self).slot(q);
                            assert(self.keys@[i] == q);
                        }
                    }
                    assert forall|q: K| self@.contains_key(q) implies #[trigger] self@[q] == old(self)@.insert(
                        k,
                        v,
                    )[q] by {
                        let i = self.slot(q);
                        if q != k {
                            assert(old(self).keys@[i] == q);
                            assert(old(self).slot(q) == i);
                        } else {
                            assert(i == n);
                        }
                    }
                    assert(self@ =~= old(self)@.insert(k, v));
                }
            },
        }
    }

    /// The number of keys in the table.
    pub fn len(&self) -> (r: usize)
        requires
            self.wf(),
        ensures
            r == self@.dom().len(),
            self@.dom().finite(),
    {
        proof {
            self.lemma_dom_is_keys();
            self.keys@.unique_seq_to_set();
        }
        self.keys.len()
    }

    /// The keys of the table, each once, in the order in which they came.
    pub fn keys(&self) -> (r: Vec<K>)
        requires
            self.wf(),
        ensures
            r@.no_duplicates(),
            r@.to_set() == self@.dom(),
    {
        let mut out: Vec<K> = Vec::new();
        let mut i: usize = 0;
        while i < self.keys.len()
            invariant
                i <= self.keys@.len(),
                out@ == self.keys@.subrange(0, i as int),
            decreases self.keys@.len() - i,
        {
            out.push(self.keys[i]);
            proof {
                assert(out@ =~= self.keys@.subrange(0, i + 1));
            }
            i += 1;
        }
        proof {
            assert(out@ =~= self.keys@);
            self.lemma_dom_is_keys();
        }
        out
    }

    proof fn lemma_dom_is_keys(&self)
        requires
            self.wf(),
        ensures
            self.keys@.no_duplicates(),
            self.keys@.to_set() == self@.dom(),
    {
        assert forall|k: K| self.keys@.to_set().contains(k) <==> self@.dom().contains(k) by {
            if self.keys@.contains(k) {
                let i = choose|i: int| 0 <= i < self.keys@.len() && self.keys@[i] == k;
                assert(self@.contains_key(k));
            }
            if self@.contains_key(k) {
                let i = self.slot(k);
                assert(self.keys@[i] == k);
                assert(self.keys@.contains(k));
            }
        }
        assert(self.keys@.to_set() =~= self@.dom());
    }
}

} // verus!
