//! The packet envelope and its payload variants, with their mathematical
//! views. A packet is a routing header, an opaque session identifier that
//! correlates related packets, and a tagged payload.

use crate::routing::{copy_bytes, RoutingHeader, RoutingHeaderV};
use vstd::prelude::*;

verus! {

/// Classifies a visited node so topology-discovery consumers can tell what
/// kind of participant each hop of a path trace was.
#[derive(Clone, Copy, Debug, PartialEq, Eq, Structural)]
pub enum NodeType {
    Client,
    Drone,
    Server,
}

/// The closed taxonomy of forwarding-failure reasons a Nack can carry.
#[derive(Clone, Copy, Debug, PartialEq, Eq, Structural)]
pub enum NackType {
    /// The node at the given identifier had no way onward.
    ErrorInRouting(u8),
    /// The path ends at a drone, which cannot be a destination.
    DestinationIsDrone,
    /// The packet was dropped on a link.
    Dropped,
    /// The packet reached the given node, which was not on its path.
    UnexpectedRecipient(u8),
}

/// One piece of a fragmented message. The protocol core carries fragments
/// without ever interpreting their bytes.
#[derive(Debug)]
pub struct Fragment {
    pub fragment_index: u64,
    pub total_n_fragments: u64,
    pub length: u8,
    pub data: Vec<u8>,
}

/// Mathematical image of a fragment.
#[verifier::ext_equal]
pub struct FragmentV {
    pub fragment_index: u64,
    pub total_n_fragments: u64,
    pub length: u8,
    pub data: Seq<u8>,
}

impl View for Fragment {
    type V = FragmentV;

    open spec fn view(&self) -> FragmentV {
        FragmentV {
            fragment_index: self.fragment_index,
            total_n_fragments: self.total_n_fragments,
            length: self.length,
            data: self.data@,
        }
    }
}

/// Acknowledges one fragment by its index.
#[derive(Clone, Copy, Debug, PartialEq, Eq, Structural)]
pub struct Ack {
    pub fragment_index: u64,
}

/// Reports a forwarding failure for one fragment.
#[derive(Clone, Copy, Debug, PartialEq, Eq, Structural)]
pub struct Nack {
    pub fragment_index: u64,
    pub nack_type: NackType,
}

/// A network-discovery probe: the flood it belongs to, who started it, and
/// the growing record of every node it has visited, in visitation order.
#[derive(Debug)]
pub struct FloodRequest {
    pub flood_id: u64,
    pub initiator_id: u8,
    pub path_trace: Vec<(u8, NodeType)>,
}

/// Mathematical image of a flood request.
#[verifier::ext_equal]
pub struct FloodRequestV {
    pub flood_id: u64,
    pub initiator_id: u8,
    pub path_trace: Seq<(u8, NodeType)>,
}

impl View for FloodRequest {
    type V = FloodRequestV;

    open spec fn view(&self) -> FloodRequestV {
        FloodRequestV {
            flood_id: self.flood_id,
            initiator_id: self.initiator_id,
            path_trace: self.path_trace@,
        }
    }
}

/// The answer to a flood request: the flood it closes and the complete path
/// the request had traveled when it was answered.
#[derive(Debug)]
pub struct FloodResponse {
    pub flood_id: u64,
    pub path_trace: Vec<(u8, NodeType)>,
}

/// Mathematical image of a flood response.
#[verifier::ext_equal]
pub struct FloodResponseV {
    pub flood_id: u64,
    pub path_trace: Seq<(u8, NodeType)>,
}

impl View for FloodResponse {
    type V = FloodResponseV;

    open spec fn view(&self) -> FloodResponseV {
        FloodResponseV { flood_id: self.flood_id, path_trace: self.path_trace@ }
    }
}

/// The payload of a packet.
#[derive(Debug)]
pub enum PacketType {
    MsgFragment(Fragment),
    Ack(Ack),
    Nack(Nack),
    FloodRequest(FloodRequest),
    FloodResponse(FloodResponse),
}

/// Mathematical image of a payload.
#[verifier::ext_equal]
pub enum PacketTypeV {
    MsgFragment(FragmentV),
    Ack(Ack),
    Nack(Nack),
    FloodRequest(FloodRequestV),
    FloodResponse(FloodResponseV),
}

impl View for PacketType {
    type V = PacketTypeV;

    open spec fn view(&self) -> PacketTypeV {
        match self {
            PacketType::MsgFragment(f) => PacketTypeV::MsgFragment(f@),
            PacketType::Ack(a) => PacketTypeV::Ack(*a),
            PacketType::Nack(n) => PacketTypeV::Nack(*n),
            PacketType::FloodRequest(r) => PacketTypeV::FloodRequest(r@),
            PacketType::FloodResponse(r) => PacketTypeV::FloodResponse(r@),
        }
    }
}

/// The envelope every transmission uses: where the packet is going, which
/// exchange it belongs to, and what it carries.
#[derive(Debug)]
pub struct Packet {
    pub pack_type: PacketType,
    pub routing_header: RoutingHeader,
    pub session_id: u64,
}

/// Mathematical image of a packet.
#[verifier::ext_equal]
pub struct PacketV {
    pub pack_type: PacketTypeV,
    pub routing_header: RoutingHeaderV,
    pub session_id: u64,
}

impl View for Packet {
    type V = PacketV;

    open spec fn view(&self) -> PacketV {
        PacketV {
            pack_type: self.pack_type@,
            routing_header: self.routing_header@,
            session_id: self.session_id,
        }
    }
}

/// An element-for-element copy of a path trace.
pub(crate) fn copy_trace(v: &Vec<(u8, NodeType)>) -> (r: Vec<(u8, NodeType)>)
    ensures
        r@ == v@,
{
    let mut out: Vec<(u8, NodeType)> = Vec::new();
    let n = v.len();
    let mut i: usize = 0;
    while i < n
        invariant
            n == v@.len(),
            i <= n,
            out@ =~= v@.subrange(0, i as int),
        decreases n - i,
    {
        out.push(v[i]);
        i += 1;
    }
    proof {
        assert(out@ =~= v@);
    }
    out
}

impl Fragment {
    /// A deep copy.
    pub fn duplicate(&self) -> (r: Fragment)
        ensures
            r@ == self@,
    {
        Fragment {
            fragment_index: self.fragment_index,
            total_n_fragments: self.total_n_fragments,
            length: self.length,
            data: copy_bytes(&self.data),
        }
    }
}

impl FloodRequest {
    /// A deep copy.
    pub fn duplicate(&self) -> (r: FloodRequest)
        ensures
            r@ == self@,
    {
        FloodRequest {
            flood_id: self.flood_id,
            initiator_id: self.initiator_id,
            path_trace: copy_trace(&self.path_trace),
        }
    }
}

impl FloodResponse {
    /// A deep copy.
    pub fn duplicate(&self) -> (r: FloodResponse)
        ensures
            r@ == self@,
    {
        FloodResponse { flood_id: self.flood_id, path_trace: copy_trace(&self.path_trace) }
    }
}

impl PacketType {
    /// A deep copy.
    pub fn duplicate(&self) -> (r: PacketType)
        ensures
            r@ == self@,
    {
        match self {
            PacketType::MsgFragment(f) => PacketType::MsgFragment(f.duplicate()),
            PacketType::Ack(a) => PacketType::Ack(*a),
            PacketType::Nack(n) => PacketType::Nack(*n),
            PacketType::FloodRequest(r) => PacketType::FloodRequest(r.duplicate()),
            PacketType::FloodResponse(r) => PacketType::FloodResponse(r.duplicate()),
        }
    }
}

impl Packet {
    /// A deep copy, used where one copy of a packet goes to the controller's
    /// event channel and another onto the wire.
    pub fn duplicate(&self) -> (r: Packet)
        ensures
            r@ == self@,
    {
        Packet {
            pack_type: self.pack_type.duplicate(),
            routing_header: self.routing_header.duplicate(),
            session_id: self.session_id,
        }
    }
}

} // verus!
