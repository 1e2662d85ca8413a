//! A map keyed by 13-bit PIDs, backed by a fixed table of 8192 slots.
//!
//! Every PID of a transport stream is below [`crate::constants::PID_LIMIT`],
//! so a direct-indexed table gives constant-time access and a deterministic
//! iteration order, which the snapshot code relies on.
use vstd::prelude::*;

use crate::constants::PID_LIMIT;

verus! {

pub struct PidMap<V> {
    slots: Vec<Option<V>>,
}

impl<V> View for PidMap<V> {
    type V = Map<u16, V>;

    /// Abstraction: the partial map from PIDs to stored values.
    closed spec fn view(&self) -> Map<u16, V> {
        Map::new(
            |pid: u16| pid < PID_LIMIT && self.slots@[pid as int] is Some,
            |pid: u16| self.slots@[pid as int]->0,
        )
    }
}

impl<V> PidMap<V> {
    /// Well-formedness: the table always has one slot per possible PID.
    pub closed spec fn wf(&self) -> bool {
        self.slots@.len() == PID_LIMIT
    }

    /// All keys of the map are valid PIDs.
    pub proof fn lemma_keys_lt_limit(&self)
        ensures
            forall|p: u16| self@.contains_key(p) ==> p < PID_LIMIT,
    {
    }

    /// An empty map.
    pub fn new() -> (r: PidMap<V>)
        ensures
            r.wf(),
            r@ == Map::<u16, V>::empty(),
    {
        let mut slots: Vec<Option<V>> = Vec::new();
        let mut i: usize = 0;
        while i < PID_LIMIT
            invariant
                i <= PID_LIMIT,
                slots@.len() == i,
                forall|j: int| 0 <= j < i ==> slots@[j] is None,
            decreases PID_LIMIT - i,
        {
            slots.push(None);
            i += 1;
        }
        let r = PidMap { slots };
        proof {
            assert(r@ =~= Map::<u16, V>::empty());
        }
        r
    }

    /// Whether `pid` has an entry.
    pub fn contains(&self, pid: u16) -> (r: bool)
        requires
            self.wf(),
            pid < PID_LIMIT,
        ensures
            r == self@.contains_key(pid),
    {
        let r = self.slots[pid as usize].is_some();
        r
    }

    /// The entry for `pid`, if any.
    pub fn get(&self, pid: u16) -> (r: Option<&V>)
        requires
            self.wf(),
            pid < PID_LIMIT,
        ensures
            r is Some <==> self@.contains_key(pid),
            r matches Some(v) ==> *v == self@[pid],
    {
        self.slots[pid as usize].as_ref()
    }

    /// Inserts or replaces the entry for `pid`.
    pub fn insert(&mut self, pid: u16, value: V)
        requires
            old(self).wf(),
            pid < PID_LIMIT,
        ensures
            final(self).wf(),
            final(self)@ == old(self)@.insert(pid, value),
    {
        self.slots.set(pid as usize, Some(value));
        proof {
            assert(self@ =~= old(self)@.insert(pid, value));
        }
    }

    /// Removes the entry for `pid`, if any.
    pub fn remove(&mut self, pid: u16)
        requires
            old(self).wf(),
            pid < PID_LIMIT,
        ensures
            final(self).wf(),
            final(self)@ == old(self)@.remove(pid),
    {
        self.slots.set(pid as usize, None);
        proof {
            assert(self@ =~= old(self)@.remove(pid));
        }
    }

    /// Removes and returns the entry for `pid`, for in-place edits.
    pub fn take(&mut self, pid: u16) -> (r: Option<V>)
        requires
            old(self).wf(),
            pid < PID_LIMIT,
        ensures
            final(self).wf(),
            r is Some <==> old(self)@.contains_key(pid),
            r matches Some(v) ==> v == old(self)@[pid],
            final(self)@ == old(self)@.remove(pid),
    {
        let mut tmp: Option<V> = None;
        self.slots.set_and_swap(pid as usize, &mut tmp);
        proof {
            assert(self@ =~= old(self)@.remove(pid));
        }
        tmp
    }

    /// The keys with an entry, in ascending PID order.
    pub fn keys(&self) -> (r: Vec<u16>)
        requires
            self.wf(),
        ensures
            forall|j: int| 0 <= j < r@.len() ==> self@.contains_key(r@[j]) && r@[j] < PID_LIMIT,
            forall|p: u16| self@.contains_key(p) ==> r@.contains(p),
            forall|j1: int, j2: int| 0 <= j1 < j2 < r@.len() ==> r@[j1] < r@[j2],
    {
        let mut r: Vec<u16> = Vec::new();
        let mut i: usize = 0;
        while i < PID_LIMIT
            invariant
                self.wf(),
                i <= PID_LIMIT,
                forall|j: int| 0 <= j < r@.len() ==> r@[j] < i && self@.contains_key(r@[j]),
                forall|p: u16| p < i && self@.contains_key(p) ==> r@.contains(p),
                forall|j1: int, j2: int| 0 <= j1 < j2 < r@.len() ==> r@[j1] < r@[j2],
            decreases PID_LIMIT - i,
        {
            let ghost r0 = r@;
            if self.slots[i].is_some() {
                r.push(i as u16);
                assert(self@.contains_key(i as u16));
                assert(r@.contains(i as u16)) by {
                    assert(r@[r@.len() - 1] == i as u16);
                }
            }
            proof {
                assert forall|p: u16| p < i && self@.contains_key(p) implies r@.contains(p) by {
                    assert(r0.contains(p));
                    let j = choose|j: int| 0 <= j < r0.len() && r0[j] == p;
                    assert(r@[j] == p);
                }
            }
            i += 1;
        }
        r
    }
}

impl<V: Copy> PidMap<V> {
    /// An exact copy of the map.
    pub fn duplicate(&self) -> (r: PidMap<V>)
        requires
            self.wf(),
        ensures
            r.wf(),
            r@ == self@,
    {
        let mut slots: Vec<Option<V>> = Vec::new();
        let mut i: usize = 0;
        while i < PID_LIMIT
            invariant
                self.wf(),
                i <= PID_LIMIT,
                slots@.len() == i,
                forall|j: int| 0 <= j < i ==> slots@[j] == self.slots@[j],
            decreases PID_LIMIT - i,
        {
            slots.push(self.slots[i]);
            i += 1;
        }
        let r = PidMap { slots };
        proof {
            assert(r.slots@ =~= self.slots@);
            assert(r@ =~= self@);
        }
        r
    }

    /// The entry for `pid` by value, if any.
    pub fn get_copy(&self, pid: u16) -> (r: Option<V>)
        requires
            self.wf(),
            pid < PID_LIMIT,
        ensures
            r is Some <==> self@.contains_key(pid),
            r matches Some(v) ==> v == self@[pid],
    {
        self.slots[pid as usize]
    }
}

} // verus!
