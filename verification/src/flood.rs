//! The per-node record of flood requests already propagated, keyed by the
//! flood's initiator together with its flood id.

use vstd::prelude::*;

verus! {

/// The composite key that deduplicates flood requests. The initiator is part
/// of the key: two concurrent floods started by different initiators may
/// reuse a flood id and must not collide.
#[derive(Clone, Copy, Debug, PartialEq, Eq, Structural)]
pub struct FloodKey {
    pub initiator_id: u8,
    pub flood_id: u64,
}

/// Every flood key this node has propagated, in arrival order. Keys
/// accumulate for the life of the node: flood ids are simulation-scoped, so
/// the record is never pruned.
pub struct FloodHistory {
    keys: Vec<FloodKey>,
}

impl View for FloodHistory {
    type V = Seq<FloodKey>;

    closed spec fn view(&self) -> Seq<FloodKey> {
        self.keys@
    }
}

impl FloodHistory {
    /// Whether `key` has been recorded.
    pub open spec fn has_seen(&self, key: FloodKey) -> bool {
        self@.contains(key)
    }

    /// An empty history.
    pub fn new() -> (r: FloodHistory)
        ensures
            r@ == Seq::<FloodKey>::empty(),
    {
        FloodHistory { keys: Vec::new() }
    }

    /// Whether `key` has been recorded.
    pub fn contains(&self, key: FloodKey) -> (r: bool)
        ensures
            r == self.has_seen(key),
    {
        let n = self.keys.len();
        let mut i: usize = 0;
        while i < n
            invariant
                n == self@.len(),
                i <= n,
                forall|j: int| 0 <= j < i ==> self@[j] != key,
            decreases n - i,
        {
            if self.keys[i] == key {
                return true;
            }
            i += 1;
        }
        false
    }

    /// Records `key`.
    pub fn insert(&mut self, key: FloodKey)
        ensures
            final(self)@ == old(self)@.push(key),
            final(self).has_seen(key),
    {
        self.keys.push(key);
        proof {
            assert(self@[self@.len() - 1] == key);
        }
    }
}

} // verus!
