//! The routing-header model: the path a packet travels and the directional
//! reversal that turns a packet around to route a reply back to its origin.

use vstd::prelude::*;

verus! {

/// The pre-computed path of a packet: an ordered list of node identifiers
/// ("hops") and a zero-based cursor ("hop index") marking the position of the
/// current node's hop within it. Intermediate forwarding consumes the header
/// without changing it; only an explicit reversal rewrites it.
#[derive(Debug)]
pub struct RoutingHeader {
    pub hops: Vec<u8>,
    pub hop_index: usize,
}

/// Mathematical image of a routing header.
#[verifier::ext_equal]
pub struct RoutingHeaderV {
    pub hops: Seq<u8>,
    pub hop_index: int,
}

impl View for RoutingHeader {
    type V = RoutingHeaderV;

    open spec fn view(&self) -> RoutingHeaderV {
        RoutingHeaderV { hops: self.hops@, hop_index: self.hop_index as int }
    }
}

impl RoutingHeaderV {
    /// The in-flight invariant: the cursor points at a hop of the path.
    pub open spec fn wf(self) -> bool {
        0 <= self.hop_index < self.hops.len()
    }

    /// The hop the cursor points at: the neighbor the packet is addressed to.
    pub open spec fn next_hop(self) -> u8
        recommends
            self.wf(),
    {
        self.hops[self.hop_index]
    }
}

/// The reply path of a header whose cursor stands at `pos`: the untraveled
/// suffix beyond `pos` is discarded — it is never part of a reply path — and
/// the traveled prefix is reversed.
pub open spec fn reversed_hops(hops: Seq<u8>, pos: int) -> Seq<u8>
    recommends
        0 <= pos < hops.len(),
{
    hops.subrange(0, pos + 1).reverse()
}

impl RoutingHeader {
    /// The in-flight invariant, on the concrete header.
    pub open spec fn wf(&self) -> bool {
        self@.wf()
    }

    /// Reads the hop the cursor points at. The caller must have positioned
    /// the cursor on the hop to deliver to; this model never advances it.
    pub fn next_hop(&self) -> (r: u8)
        requires
            self.wf(),
        ensures
            r == self@.next_hop(),
    {
        self.hops[self.hop_index]
    }

    /// The header that routes a reply from the current position back to the
    /// origin: hops beyond the cursor are dropped, the traveled prefix is
    /// reversed, and the cursor lands on 1 — position 0 of the reversed path
    /// is the replying node itself and is skipped. A single-hop path reverses
    /// to itself under the same rule.
    pub fn reversed(&self) -> (r: RoutingHeader)
        requires
            self.wf(),
        ensures
            r@.hops == reversed_hops(self@.hops, self@.hop_index),
            r@.hop_index == 1,
    {
        let len = self.hops.len();
        let n = self.hop_index + 1;
        let mut rev: Vec<u8> = Vec::new();
        let mut i: usize = 0;
        while i < n
            invariant
                self.wf(),
                n == self@.hop_index + 1,
                n <= self@.hops.len(),
                i <= n,
                rev@.len() == i,
                forall|j: int| 0 <= j < i ==> rev@[j] == self@.hops[n - 1 - j],
            decreases n - i,
        {
            rev.push(self.hops[n - 1 - i]);
            i += 1;
        }
        proof {
            assert(rev@ =~= reversed_hops(self@.hops, self@.hop_index));
        }
        RoutingHeader { hops: rev, hop_index: 1 }
    }

    /// An element-for-element copy.
    pub fn duplicate(&self) -> (r: RoutingHeader)
        ensures
            r@ == self@,
    {
        RoutingHeader { hops: copy_bytes(&self.hops), hop_index: self.hop_index }
    }
}

/// An element-for-element copy of a byte vector.
pub(crate) fn copy_bytes(v: &Vec<u8>) -> (r: Vec<u8>)
    ensures
        r@ == v@,
{
    let mut out: Vec<u8> = Vec::new();
    let n = v.len();
    let mut i: usize = 0;
    while i < n
        invariant
            n == v@.len(),
            i <= n,
            out@ =~= v@.subrange(0, i as int),
        decreases n - i,
    {
        out.push(v[i]);
        i += 1;
    }
    proof {
        assert(out@ =~= v@);
    }
    out
}

/// Round trip of the directional reversal. Reversing a path whose cursor
/// stands at `pos` yields the traveled prefix backwards; once the reply has
/// traveled that whole path back, its cursor stands at `pos` again, and
/// reversing there restores the traveled part of the original path in
/// forward order — an equivalent forward-traversable path. A further
/// reversal at `pos` gives the reply path again. This holds for single-hop
/// paths (`pos == 0`) as well as multi-hop ones.
pub proof fn lemma_reverse_round_trip(hops: Seq<u8>, pos: int)
    requires
        0 <= pos < hops.len(),
    ensures
        reversed_hops(reversed_hops(hops, pos), pos) == hops.subrange(0, pos + 1),
        reversed_hops(hops.subrange(0, pos + 1), pos) == reversed_hops(hops, pos),
{
    let fwd = hops.subrange(0, pos + 1);
    let rev = reversed_hops(hops, pos);
    assert(rev.len() == pos + 1);
    assert(rev.subrange(0, pos + 1) =~= rev);
    assert(fwd.subrange(0, pos + 1) =~= fwd);
    assert(reversed_hops(rev, pos) =~= fwd);
    assert(reversed_hops(fwd, pos) =~= rev);
}

} // verus!
