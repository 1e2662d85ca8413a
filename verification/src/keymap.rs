//! A small association map with `u16` keys, backed by a vector of pairs.
//!
//! Used for tables keyed by program number, which are small (one entry per
//! program) and need a deterministic iteration order for the snapshot.
use vstd::prelude::*;

verus! {

pub struct U16Map<V> {
    entries: Vec<(u16, V)>,
}

impl<V> View for U16Map<V> {
    type V = Map<u16, V>;

    /// Abstraction: the partial map from keys to stored values.
    closed spec fn view(&self) -> Map<u16, V> {
        Map::new(
            |k: u16| exists|i: int| 0 <= i < self.entries@.len() && self.entries@[i].0 == k,
            |k: u16|
                {
                    let i = choose|i: int|
                        0 <= i < self.entries@.len() && self.entries@[i].0 == k;
                    self.entries@[i].1
                },
        )
    }
}

impl<V> U16Map<V> {
    /// Well-formedness: no key occurs twice.
    pub closed spec fn wf(&self) -> bool {
        forall|i: int, j: int|
            0 <= i < j < self.entries@.len() ==> self.entries@[i].0 != self.entries@[j].0
    }

    /// The entry pairs in insertion order.
    pub closed spec fn pairs(&self) -> Seq<(u16, V)> {
        self.entries@
    }

    /// With unique keys, the entry at `i` is the map's entry for its key.
    pub proof fn lemma_pair_is_view(&self, i: int)
        requires
            self.wf(),
            0 <= i < self.pairs().len(),
        ensures
            self@.contains_key(self.pairs()[i].0),
            self@[self.pairs()[i].0] == self.pairs()[i].1,
    {
        let k = self.pairs()[i].0;
        assert(self@.contains_key(k));
        let j = choose|j: int| 0 <= j < self.entries@.len() && self.entries@[j].0 == k;
        assert(j == i);
    }

    /// Every key of the map has an entry pair.
    pub proof fn lemma_view_has_pair(&self, k: u16)
        requires
            self@.contains_key(k),
        ensures
            exists|i: int| 0 <= i < self.pairs().len() && self.pairs()[i].0 == k,
    {
        broadcast use vstd::set::axiom_set_new, vstd::set::axiom_mk_map_domain;

        assert(self@.dom().contains(k));
        assert(Set::new(
            |k2: u16| exists|i: int| 0 <= i < self.entries@.len() && self.entries@[i].0 == k2,
        ).contains(k));
        let i = choose|i: int| 0 <= i < self.entries@.len() && self.entries@[i].0 == k;
        assert(self.pairs()[i].0 == k);
    }

    /// An empty map.
    pub fn new() -> (r: U16Map<V>)
        ensures
            r.wf(),
            r@ == Map::<u16, V>::empty(),
            r.pairs() == Seq::<(u16, V)>::empty(),
    {
        let r = U16Map { entries: Vec::new() };
        proof {
            assert(r@ =~= Map::<u16, V>::empty());
        }
        r
    }

    /// The number of entries.
    pub fn len(&self) -> (r: usize)
        ensures
            r == self.pairs().len(),
    {
        self.entries.len()
    }

    /// The entry pair at position `i`, in insertion order.
    pub fn entry_at(&self, i: usize) -> (r: &(u16, V))
        requires
            i < self.pairs().len(),
        ensures
            *r == self.pairs()[i as int],
    {
        &self.entries[i]
    }

    /// The value stored for `k`, if any.
    pub fn get(&self, k: u16) -> (r: Option<&V>)
        requires
            self.wf(),
        ensures
            r is Some <==> self@.contains_key(k),
            r matches Some(v) ==> *v == self@[k],
    {
        let n = self.entries.len();
        let mut i: usize = 0;
        while i < n
            invariant
                self.wf(),
                n == self.entries@.len(),
                i <= n,
                forall|j: int| 0 <= j < i ==> self.entries@[j].0 != k,
            decreases n - i,
        {
            if self.entries[i].0 == k {
                proof {
                    self.lemma_pair_is_view(i as int);
                }
                return Some(&self.entries[i].1);
            }
            i += 1;
        }
        proof {
            if self@.contains_key(k) {
                self.lemma_view_has_pair(k);
            }
        }
        None
    }

    /// Whether `k` has an entry.
    pub fn contains(&self, k: u16) -> (r: bool)
        requires
            self.wf(),
        ensures
            r == self@.contains_key(k),
    {
        self.get(k).is_some()
    }

    /// Inserts or replaces the value for `k`.
    pub fn insert(&mut self, k: u16, value: V)
        requires
            old(self).wf(),
        ensures
            final(self).wf(),
            final(self)@ == old(self)@.insert(k, value),
    {
        let n = self.entries.len();
        let mut i: usize = 0;
        while i < n
            invariant
                self.wf(),
                *self == *old(self),
                n == self.entries@.len(),
                i <= n,
                forall|j: int| 0 <= j < i ==> self.entries@[j].0 != k,
            decreases n - i,
        {
            if self.entries[i].0 == k {
                self.entries.set(i, (k, value));
                proof {
                    let target = old(self)@.insert(k, value);
                    assert(forall|j: int|
                        0 <= j < self.entries@.len() ==> #[trigger] self.entries@[j].0 == old(
                            self,
                        ).entries@[j].0);
                    assert(self.wf());
                    assert forall|k2: u16| #![trigger self@.dom().contains(k2)]
                        self@.dom().contains(k2) == target.dom().contains(k2) && (
                        self@.dom().contains(k2) ==> self@[k2] == target[k2]) by {
                        if self@.dom().contains(k2) {
                            let j = choose|j: int|
                                0 <= j < self.entries@.len() && self.entries@[j].0 == k2;
                            assert(0 <= j < old(self).entries@.len() && old(self).entries@[j].0
                                == k2);
                            assert(old(self)@.dom().contains(k2));
                            if k2 == k {
                                assert(j == i);
                                assert(self@[k2] == value);
                            } else {
                                assert(j != i);
                                assert(self@[k2] == self.entries@[j].1);
                                let j2 = choose|j2: int|
                                    0 <= j2 < old(self).entries@.len() && old(
                                        self,
                                    ).entries@[j2].0 == k2;
                                assert(j2 == j);
                                assert(old(self)@[k2] == old(self).entries@[j].1);
                                assert(self.entries@[j] == old(self).entries@[j]);
                            }
                        } else {
                            if target.dom().contains(k2) {
                                if k2 == k {
                                    assert(self.entries@[i as int].0 == k);
                                    assert(self@.dom().contains(k2));
                                } else {
                                    assert(old(self)@.dom().contains(k2));
                                    let j = choose|j: int|
                                        0 <= j < old(self).entries@.len() && old(
                                            self,
                                        ).entries@[j].0 == k2;
                                    assert(self.entries@[j].0 == k2);
                                    assert(self@.dom().contains(k2));
                                }
                            }
                        }
                    }
                    assert(self@.dom() =~= target.dom());
                    assert(self@ =~= target);
                }
                return ;
            }
            i += 1;
        }
        self.entries.push((k, value));
        proof {
            let target = old(self)@.insert(k, value);
            let m = self.entries@.len();
            assert(self.entries@[m - 1] == (k, value));
            assert(forall|j: int| 0 <= j < m - 1 ==> self.entries@[j] == old(self).entries@[j]);
            assert(self.wf());
            assert forall|k2: u16|
                self@.dom().contains(k2) == target.dom().contains(k2) && (self@.dom().contains(
                    k2,
                ) ==> self@[k2] == target[k2]) by {
                if k2 == k {
                    assert(self@.dom().contains(k2));
                    let j = choose|j: int| 0 <= j < self.entries@.len() && self.entries@[j].0 == k2;
                    assert(j == m - 1);
                    assert(self@[k2] == value);
                } else {
                    if self@.dom().contains(k2) {
                        let j = choose|j: int|
                            0 <= j < self.entries@.len() && self.entries@[j].0 == k2;
                        assert(j < m - 1);
                        assert(old(self).entries@[j].0 == k2);
                        assert(old(self)@.dom().contains(k2));
                        let j2 = choose|j2: int|
                            0 <= j2 < old(self).entries@.len() && old(self).entries@[j2].0 == k2;
                        assert(j2 == j);
                        assert(self@[k2] == self.entries@[j].1);
                        assert(old(self)@[k2] == old(self).entries@[j].1);
                    }
                    if old(self)@.dom().contains(k2) {
                        let j = choose|j: int|
                            0 <= j < old(self).entries@.len() && old(self).entries@[j].0 == k2;
                        assert(self.entries@[j].0 == k2);
                        assert(self@.dom().contains(k2));
                    }
                }
            }
            assert(self@.dom() =~= target.dom());
            assert(self@ =~= target);
        }
    }
}

impl<V: Copy> U16Map<V> {
    /// An exact copy of the map.
    pub fn duplicate(&self) -> (r: U16Map<V>)
        requires
            self.wf(),
        ensures
            r.wf(),
            r@ == self@,
            r.pairs() == self.pairs(),
    {
        let n = self.entries.len();
        let mut entries: Vec<(u16, V)> = Vec::new();
        let mut i: usize = 0;
        while i < n
            invariant
                n == self.entries@.len(),
                i <= n,
                entries@.len() == i,
                forall|j: int| 0 <= j < i ==> entries@[j] == self.entries@[j],
            decreases n - i,
        {
            entries.push(self.entries[i]);
            i += 1;
        }
        let r = U16Map { entries };
        proof {
            assert(r.entries@ =~= self.entries@);
            assert(r.wf());
            assert forall|k: u16|
                r@.dom().contains(k) == self@.dom().contains(k) && (r@.dom().contains(k)
                    ==> r@[k] == self@[k]) by {
                if r@.dom().contains(k) || self@.dom().contains(k) {
                    if r@.dom().contains(k) {
                        let j = choose|j: int|
                            0 <= j < r.entries@.len() && r.entries@[j].0 == k;
                        assert(self.entries@[j].0 == k);
                        assert(self@.dom().contains(k));
                    }
                    if self@.dom().contains(k) {
                        let j = choose|j: int|
                            0 <= j < self.entries@.len() && self.entries@[j].0 == k;
                        assert(r.entries@[j].0 == k);
                        assert(r@.dom().contains(k));
                    }
                    if r@.dom().contains(k) && self@.dom().contains(k) {
                        let j1 = choose|j: int|
                            0 <= j < r.entries@.len() && r.entries@[j].0 == k;
                        let j2 = choose|j: int|
                            0 <= j < self.entries@.len() && self.entries@[j].0 == k;
                        assert(r.entries@[j2].0 == k);
                        assert(j1 == j2);
                        assert(r@[k] == r.entries@[j1].1);
                        assert(self@[k] == self.entries@[j2].1);
                    }
                }
            }
            assert(r@.dom() =~= self@.dom());
            assert(r@ =~= self@);
        }
        r
    }
}

impl U16Map<u16> {
    /// Whether some entry stores the value `v`.
    pub fn has_value(&self, v: u16) -> (r: bool)
        requires
            self.wf(),
        ensures
            r == exists|k: u16| self@.contains_key(k) && self@[k] == v,
    {
        let n = self.entries.len();
        let mut i: usize = 0;
        while i < n
            invariant
                self.wf(),
                n == self.entries@.len(),
                i <= n,
                forall|j: int| 0 <= j < i ==> self.entries@[j].1 != v,
            decreases n - i,
        {
            if self.entries[i].1 == v {
                proof {
                    self.lemma_pair_is_view(i as int);
                }
                return true;
            }
            i += 1;
        }
        proof {
            if exists|k: u16| self@.contains_key(k) && self@[k] == v {
                let k = choose|k: u16| self@.contains_key(k) && self@[k] == v;
                self.lemma_view_has_pair(k);
                let j = choose|j: int| 0 <= j < self.pairs().len() && self.pairs()[j].0 == k;
                self.lemma_pair_is_view(j);
            }
        }
        false
    }
}

} // verus!
