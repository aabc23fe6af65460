//! The neighbor table: the runtime-mutable adjacency of one node, mapping a
//! neighbor's identifier to the outbound channel that reaches it.

use crate::channel::channel_send;
use crate::packet::Packet;
use crossbeam_channel::Sender;
use vstd::prelude::*;

verus! {

/// For each neighbor, its identifier and the channel to it. Read by every
/// routing and broadcast operation; changed only by insert and remove, which
/// are expected to race with in-flight traffic and must not bring the node
/// down. Owned exclusively by the node.
pub struct NeighborTable {
    entries: Vec<(u8, Sender<Packet>)>,
}

impl NeighborTable {
    /// The table's entries — each neighbor's identifier paired with its
    /// channel — in table order.
    pub closed spec fn channels(&self) -> Seq<(u8, Sender<Packet>)> {
        self.entries@
    }

    /// The neighbor identifiers, in table order.
    pub open spec fn ids(&self) -> Seq<u8> {
        self.channels().map_values(|e: (u8, Sender<Packet>)| e.0)
    }

    /// Each neighbor appears at most once.
    pub open spec fn wf(&self) -> bool {
        forall|i: int, j: int|
            0 <= i < j < self.ids().len() ==> self.ids()[i] != self.ids()[j]
    }

    /// Whether `id` has a channel registered.
    pub open spec fn has(&self, id: u8) -> bool {
        self.ids().contains(id)
    }

    /// An empty table.
    pub fn new() -> (r: NeighborTable)
        ensures
            r.channels() == Seq::<(u8, Sender<Packet>)>::empty(),
            r.ids() == Seq::<u8>::empty(),
            r.wf(),
    {
        proof {
            assert(Seq::<(u8, Sender<Packet>)>::empty().map_values(
                |e: (u8, Sender<Packet>)| e.0,
            ) =~= Seq::<u8>::empty());
        }
        NeighborTable { entries: Vec::new() }
    }

    /// How many neighbors have a channel.
    pub fn len(&self) -> (r: usize)
        ensures
            r == self.ids().len(),
    {
        self.entries.len()
    }

    /// The position of `id` in the table, if present.
    fn position(&self, id: u8) -> (r: Option<usize>)
        ensures
            match r {
                Some(i) => i < self.ids().len() && self.ids()[i as int] == id,
                None => !self.has(id),
            },
    {
        let n = self.entries.len();
        let mut i: usize = 0;
        while i < n
            invariant
                n == self.ids().len(),
                i <= n,
                forall|j: int| 0 <= j < i ==> self.ids()[j] != id,
            decreases n - i,
        {
            if self.entries[i].0 == id {
                return Some(i);
            }
            i += 1;
        }
        None
    }

    /// Whether `id` has a channel registered.
    pub fn contains_id(&self, id: u8) -> (r: bool)
        ensures
            r == self.has(id),
    {
        self.position(id).is_some()
    }

    /// Registers `sender` as the channel for `id`, replacing any channel the
    /// id already had: afterwards the entry for `id` holds exactly the given
    /// sender, and every other entry is as it was.
    pub fn insert(&mut self, id: u8, sender: Sender<Packet>)
        requires
            old(self).wf(),
        ensures
            final(self).wf(),
            final(self).has(id),
            old(self).has(id) ==> final(self).channels() == old(self).channels().update(
                old(self).ids().index_of(id),
                (id, sender),
            ),
            !old(self).has(id) ==> final(self).channels() == old(self).channels().push(
                (id, sender),
            ),
            old(self).has(id) ==> final(self).ids() == old(self).ids(),
            !old(self).has(id) ==> final(self).ids() == old(self).ids().push(id),
    {
        match self.position(id) {
            Some(i) => {
                self.entries[i] = (id, sender);
                proof {
                    lemma_index_of_unique(old(self).ids(), id, i as int);
                    assert(self.channels() =~= old(self).channels().update(
                        i as int,
                        (id, sender),
                    ));
                    assert(self.ids() =~= old(self).ids());
                }
            }
            None => {
                self.entries.push((id, sender));
                proof {
                    assert(self.channels() =~= old(self).channels().push((id, sender)));
                    assert(self.ids() =~= old(self).ids().push(id));
                    assert(self.ids()[self.ids().len() - 1] == id);
                }
            }
        }
    }

    /// Removes the entry for `id`. An id that was never added leaves the
    /// table exactly as it was; otherwise exactly the pair for `id` is taken
    /// out and every surviving entry keeps its channel. The result says
    /// whether anything was removed.
    pub fn remove(&mut self, id: u8) -> (r: bool)
        requires
            old(self).wf(),
        ensures
            final(self).wf(),
            r == old(self).has(id),
            !r ==> *final(self) == *old(self),
            r ==> final(self).channels() == old(self).channels().remove(
                old(self).ids().index_of(id),
            ),
            r ==> final(self).ids() == old(self).ids().remove_value(id),
            r ==> final(self).ids().len() == old(self).ids().len() - 1,
            r ==> !final(self).has(id),
            forall|x: u8| x != id ==> final(self).has(x) == old(self).has(x),
    {
        match self.position(id) {
            Some(i) => {
                let _ = self.entries.remove(i);
                proof {
                    let pre = old(self).ids();
                    lemma_index_of_unique(pre, id, i as int);
                    assert(self.channels() =~= old(self).channels().remove(i as int));
                    assert(self.ids() =~= pre.remove(i as int));
                    pre.index_of_first_ensures(id);
                    // `i` holds `id`; by well-formedness it is the only such
                    // position, hence the first.
                    let first = pre.index_of_first(id);
                    assert(first is Some);
                    assert(pre[first.unwrap()] == id);
                    assert(first.unwrap() == i as int);
                    assert(forall|x: u8| x != id ==> (final(self).has(x) == old(self).has(x)))
                        by {
                        assert forall|x: u8| x != id implies final (self).has(x) == old(
                            self,
                        ).has(x) by {
                            let post = self.ids();
                            if pre.contains(x) {
                                let k = choose|k: int| 0 <= k < pre.len() && pre[k] == x;
                                if k < i {
                                    assert(post[k] == x);
                                } else {
                                    assert(post[k - 1] == x);
                                }
                            }
                            if post.contains(x) {
                                let k = choose|k: int| 0 <= k < post.len() && post[k] == x;
                                if k < i {
                                    assert(pre[k] == x);
                                } else {
                                    assert(pre[k + 1] == x);
                                }
                            }
                        }
                    }
                    assert(!final(self).has(id)) by {
                        if self.ids().contains(id) {
                            let k = choose|k: int|
                                0 <= k < self.ids().len() && self.ids()[k] == id;
                            if k < i {
                                assert(pre[k] == id);
                            } else {
                                assert(pre[k + 1] == id);
                            }
                        }
                    }
                }
                true
            }
            None => false,
        }
    }

    /// The identifier at table position `i`.
    pub fn id_at(&self, i: usize) -> (r: u8)
        requires
            i < self.ids().len(),
        ensures
            r == self.ids()[i as int],
    {
        self.entries[i].0
    }

    /// Hands `packet` to the channel of neighbor `id`; the result is the
    /// channel's answer, about which nothing is known.
    pub(crate) fn send_on(&self, id: u8, packet: Packet) -> (r: bool)
        requires
            self.has(id),
    {
        match self.position(id) {
            Some(i) => channel_send(&self.entries[i].1, packet),
            None => {
                proof {
                    assert(false);
                }
                false
            }
        }
    }

    /// Hands `packet` to the channel at table position `i`; the result is
    /// the channel's answer, about which nothing is known.
    pub(crate) fn send_at(&self, i: usize, packet: Packet) -> (r: bool)
        requires
            i < self.ids().len(),
    {
        channel_send(&self.entries[i].1, packet)
    }
}

/// In a sequence of distinct identifiers, `index_of` names the one position
/// an identifier sits at.
proof fn lemma_index_of_unique(s: Seq<u8>, id: u8, i: int)
    requires
        forall|p: int, q: int| 0 <= p < q < s.len() ==> s[p] != s[q],
        0 <= i < s.len(),
        s[i] == id,
    ensures
        s.index_of(id) == i,
{
    assert(exists|k: int| 0 <= k < s.len() && s[k] == id);
    let j = s.index_of(id);
    assert(0 <= j < s.len() && s[j] == id);
    if j < i {
        assert(s[j] != s[i]);
    }
    if i < j {
        assert(s[i] != s[j]);
    }
}

} // verus!
