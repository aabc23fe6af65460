//! The shared protocol core of one network node: its state, packet
//! forwarding, control-packet construction, the flood protocol, and the
//! dispatcher that hands everything else to the node-kind-specific half.
//!
//! The effect of the core is what it hands to channels. Verification cannot
//! look inside a channel, so the node keeps two ghost transcripts: every
//! packet handed to a neighbor channel and every event handed to the
//! simulation controller channel, in order. Every contract about delivery is
//! a contract about these transcripts; the trusted channel wrapper sends
//! exactly the value that is recorded.

use crate::channel::channel_send;
use crate::flood::{FloodHistory, FloodKey};
use crate::neighbors::NeighborTable;
use crate::packet::{
    copy_trace, Ack, FloodRequest, FloodRequestV, FloodResponse, FloodResponseV, Nack, NackType,
    NodeType, Packet, PacketType, PacketTypeV, PacketV,
};
use crate::random::random_session_id;
use crate::routing::{reversed_hops, RoutingHeader, RoutingHeaderV};
use crossbeam_channel::{Receiver, Sender};
use rand::rngs::StdRng;
use vstd::prelude::*;

verus! {

/// An observability event for the simulation controller. The core emits
/// `PacketSent` on every delivery attempt; the other variants belong to
/// node-kind-specific logic and are carried for it.
#[derive(Debug)]
pub enum NodeEvent {
    PacketSent(Packet),
    PacketDropped(Packet),
    ControllerShortcut(Packet),
}

/// Mathematical image of an event.
#[verifier::ext_equal]
pub enum NodeEventV {
    PacketSent(PacketV),
    PacketDropped(PacketV),
    ControllerShortcut(PacketV),
}

impl View for NodeEvent {
    type V = NodeEventV;

    open spec fn view(&self) -> NodeEventV {
        match self {
            NodeEvent::PacketSent(p) => NodeEventV::PacketSent(p@),
            NodeEvent::PacketDropped(p) => NodeEventV::PacketDropped(p@),
            NodeEvent::ControllerShortcut(p) => NodeEventV::ControllerShortcut(p@),
        }
    }
}

/// One packet handed to a neighbor's channel: where it went and what it was.
#[verifier::ext_equal]
pub struct Transmission {
    pub dest: u8,
    pub packet: PacketV,
}

/// What one call of `forward_packet` did with its packet.
#[derive(Clone, Copy, Debug, PartialEq, Eq, Structural)]
pub enum ForwardOutcome {
    /// The packet was handed to the next hop's channel and taken.
    Sent(u8),
    /// The next hop's channel refused the packet: its receiver is gone.
    /// Fatal for this delivery; there is no retry and no buffering.
    SendFailed(u8),
    /// No channel is registered for the next hop: the packet was dropped.
    /// Deliberately silent at the protocol level, reported to diagnostics.
    NoChannel(u8),
}

/// The node-kind-specific half of a node. The shared dispatcher routes flood
/// requests to the flood protocol and everything else here; commands are a
/// node kind's own vocabulary.
pub trait NodeBehavior {
    type Command;

    /// Processes a routed (non-flood-request) packet arriving at the node;
    /// the result reports whether the packet was handled.
    fn handle_routed_packet(&mut self, node: &mut NetworkNode, packet: Packet) -> bool;

    /// Executes a runtime-reconfiguration command directed at the node.
    fn handle_command(&mut self, node: &mut NetworkNode, command: Self::Command);
}

/// The node identifiers of a path trace, in trace order.
pub open spec fn trace_ids(trace: Seq<(u8, NodeType)>) -> Seq<u8> {
    trace.map_values(|e: (u8, NodeType)| e.0)
}

/// The flood response built from the extended trace `trace` for flood `fid`
/// under session `sid`: the reply path home is the trace's node sequence
/// reversed, entered at cursor 1.
pub open spec fn flood_response_view(trace: Seq<(u8, NodeType)>, fid: u64, sid: u64) -> PacketV {
    PacketV {
        pack_type: PacketTypeV::FloodResponse(FloodResponseV { flood_id: fid, path_trace: trace }),
        routing_header: RoutingHeaderV { hops: trace_ids(trace).reverse(), hop_index: 1 },
        session_id: sid,
    }
}

/// One broadcast copy: `p` readdressed with the direct two-hop path from
/// `me` to `dest`, entered at cursor 1. Every fan-out copy is addressed this
/// way because a flood does not know its eventual path.
pub open spec fn fanout_copy(p: PacketV, me: u8, dest: u8) -> PacketV {
    PacketV {
        routing_header: RoutingHeaderV { hops: seq![me, dest], hop_index: 1 },
        ..p
    }
}

/// The transmissions of one broadcast: a copy of `p` for every identifier of
/// `ids` except `from`, in table order.
pub open spec fn fanout(ids: Seq<u8>, from: u8, me: u8, p: PacketV) -> Seq<Transmission>
    decreases ids.len(),
{
    if ids.len() == 0 {
        Seq::empty()
    } else {
        let rest = fanout(ids.drop_last(), from, me, p);
        if ids.last() == from {
            rest
        } else {
            rest.push(Transmission { dest: ids.last(), packet: fanout_copy(p, me, ids.last()) })
        }
    }
}

/// The events of one broadcast: a `PacketSent` per copy, in the same order.
pub open spec fn fanout_events(ids: Seq<u8>, from: u8, me: u8, p: PacketV) -> Seq<NodeEventV> {
    fanout(ids, from, me, p).map_values(|t: Transmission| NodeEventV::PacketSent(t.packet))
}

/// Broadcast fan-out law. Every copy of a fan-out goes to a neighbor other
/// than the one the packet came from, each readdressed with the direct
/// two-hop path to its destination; every other neighbor receives a copy;
/// and when the neighbor ids are distinct and include the sender, exactly
/// all but that one are served — a node with `n` neighbors including the
/// sender broadcasts to exactly the other `n - 1`.
pub proof fn lemma_fanout_covers_neighbors(ids: Seq<u8>, from: u8, me: u8, p: PacketV)
    ensures
        forall|k: int|
            #![auto]
            0 <= k < fanout(ids, from, me, p).len() ==> {
                &&& fanout(ids, from, me, p)[k].dest != from
                &&& ids.contains(fanout(ids, from, me, p)[k].dest)
                &&& fanout(ids, from, me, p)[k].packet == fanout_copy(
                    p,
                    me,
                    fanout(ids, from, me, p)[k].dest,
                )
            },
        forall|x: u8|
            #![auto]
            ids.contains(x) && x != from ==> exists|k: int|
                0 <= k < fanout(ids, from, me, p).len() && fanout(ids, from, me, p)[k].dest == x,
        ids.no_duplicates() && ids.contains(from) ==> fanout(ids, from, me, p).len() == ids.len()
            - 1,
        !ids.contains(from) ==> fanout(ids, from, me, p).len() == ids.len(),
    decreases ids.len(),
{
    if ids.len() == 0 {
    } else {
        let rest = ids.drop_last();
        lemma_fanout_covers_neighbors(rest, from, me, p);
        assert(forall|x: u8|
            ids.contains(x) == (rest.contains(x) || ids.last() == x)) by {
            assert forall|x: u8| ids.contains(x) == (rest.contains(x) || ids.last() == x) by {
                if ids.contains(x) {
                    let k = choose|k: int| 0 <= k < ids.len() && ids[k] == x;
                    if k < ids.len() - 1 {
                        assert(rest[k] == x);
                    }
                }
                if rest.contains(x) {
                    let k = choose|k: int| 0 <= k < rest.len() && rest[k] == x;
                    assert(ids[k] == x);
                }
            }
        }
        assert forall|x: u8| ids.contains(x) && x != from implies exists|k: int|
            0 <= k < fanout(ids, from, me, p).len() && fanout(ids, from, me, p)[k].dest == x by {
            let f = fanout(ids, from, me, p);
            let fr = fanout(rest, from, me, p);
            if ids.last() == x {
                assert(f[f.len() - 1].dest == x);
            } else {
                assert(rest.contains(x));
                let k = choose|k: int| 0 <= k < fr.len() && fr[k].dest == x;
                assert(f[k].dest == x);
            }
        }
        if ids.no_duplicates() {
            assert(rest.no_duplicates());
            if ids.contains(from) {
                if ids.last() == from {
                    assert(!rest.contains(from)) by {
                        if rest.contains(from) {
                            let k = choose|k: int| 0 <= k < rest.len() && rest[k] == from;
                            assert(ids[k] == ids[ids.len() - 1]);
                        }
                    }
                } else {
                    assert(rest.contains(from));
                }
            }
        }
    }
}

/// For every broadcast copy, the event emitted to the simulation controller
/// carries exactly the packet handed to the neighbor's channel, copy by
/// copy, in the same order.
pub proof fn lemma_fanout_events_match(ids: Seq<u8>, from: u8, me: u8, p: PacketV)
    ensures
        fanout_events(ids, from, me, p).len() == fanout(ids, from, me, p).len(),
        forall|k: int|
            #![auto]
            0 <= k < fanout(ids, from, me, p).len() ==> fanout_events(ids, from, me, p)[k]
                == NodeEventV::PacketSent(fanout(ids, from, me, p)[k].packet),
{
}

/// Answering law shared by the two termination rules of the flood protocol:
/// whenever a flood step takes the respond branch, exactly one transmission
/// leaves — a flood response carrying the flood's id and the extended trace,
/// addressed one hop back toward the immediate predecessor at cursor 1 —
/// there is no broadcast, and the flood history is left alone.
proof fn lemma_flood_step_answered(
    pre: NetworkNode,
    post: NetworkNode,
    packet: PacketV,
    node_type: NodeType,
)
    requires
        packet.pack_type is FloodRequest,
        packet.pack_type->FloodRequest_0.path_trace.len() > 0,
        flood_step(pre, post, packet, node_type),
        pre.seen_flood_ids.has_seen(
            (FloodKey {
                initiator_id: packet.pack_type->FloodRequest_0.initiator_id,
                flood_id: packet.pack_type->FloodRequest_0.flood_id,
            }),
        ) || pre.packet_send.ids().len() == 1,
        pre.packet_send.has(packet.pack_type->FloodRequest_0.path_trace.last().0),
    ensures
        post.seen_flood_ids == pre.seen_flood_ids,
        post.sent_log@.len() == pre.sent_log@.len() + 1,
        post.sent_log@.drop_last() == pre.sent_log@,
        post.sent_log@.last().dest == packet.pack_type->FloodRequest_0.path_trace.last().0,
        post.sent_log@.last().packet.pack_type is FloodResponse,
        post.sent_log@.last().packet.pack_type->FloodResponse_0.flood_id
            == packet.pack_type->FloodRequest_0.flood_id,
        post.sent_log@.last().packet.pack_type->FloodResponse_0.path_trace
            == packet.pack_type->FloodRequest_0.path_trace.push((pre.id, node_type)),
        post.sent_log@.last().packet.routing_header.hop_index == 1,
        post.event_log@.len() == pre.event_log@.len() + 1,
{
    let req = packet.pack_type->FloodRequest_0;
    let pred = req.path_trace.last().0;
    let ext = req.path_trace.push((pre.id, node_type));
    let sid = choose|sid: u64|
        #![auto]
        post.sent_log@ == pre.sent_log@.push(
            (Transmission { dest: pred, packet: flood_response_view(ext, req.flood_id, sid) }),
        ) && post.event_log@ == pre.event_log@.push(
            NodeEventV::PacketSent(flood_response_view(ext, req.flood_id, sid)),
        );
    assert(post.sent_log@.drop_last() =~= pre.sent_log@);
    assert(post.sent_log@.last() == (Transmission {
        dest: pred,
        packet: flood_response_view(ext, req.flood_id, sid),
    }));
}

/// A flood request whose `(initiator, flood id)` key this node has already
/// seen always produces exactly one flood response, sent back toward the
/// immediate predecessor — never a broadcast — and leaves the flood history
/// alone.
pub proof fn lemma_seen_flood_answered(
    pre: NetworkNode,
    post: NetworkNode,
    packet: PacketV,
    node_type: NodeType,
)
    requires
        packet.pack_type is FloodRequest,
        packet.pack_type->FloodRequest_0.path_trace.len() > 0,
        flood_step(pre, post, packet, node_type),
        pre.seen_flood_ids.has_seen(
            (FloodKey {
                initiator_id: packet.pack_type->FloodRequest_0.initiator_id,
                flood_id: packet.pack_type->FloodRequest_0.flood_id,
            }),
        ),
        pre.packet_send.has(packet.pack_type->FloodRequest_0.path_trace.last().0),
    ensures
        post.seen_flood_ids == pre.seen_flood_ids,
        post.sent_log@.len() == pre.sent_log@.len() + 1,
        post.sent_log@.drop_last() == pre.sent_log@,
        post.sent_log@.last().dest == packet.pack_type->FloodRequest_0.path_trace.last().0,
        post.sent_log@.last().packet.pack_type is FloodResponse,
        post.sent_log@.last().packet.pack_type->FloodResponse_0.flood_id
            == packet.pack_type->FloodRequest_0.flood_id,
        post.sent_log@.last().packet.pack_type->FloodResponse_0.path_trace
            == packet.pack_type->FloodRequest_0.path_trace.push((pre.id, node_type)),
        post.sent_log@.last().packet.routing_header.hop_index == 1,
{
    lemma_flood_step_answered(pre, post, packet, node_type);
}

/// A node with exactly one neighbor — necessarily the one the request came
/// from — always answers a flood request immediately, regardless of whether
/// its key was seen before.
pub proof fn lemma_dead_end_answers(
    pre: NetworkNode,
    post: NetworkNode,
    packet: PacketV,
    node_type: NodeType,
)
    requires
        packet.pack_type is FloodRequest,
        packet.pack_type->FloodRequest_0.path_trace.len() > 0,
        flood_step(pre, post, packet, node_type),
        pre.packet_send.ids().len() == 1,
        pre.packet_send.has(packet.pack_type->FloodRequest_0.path_trace.last().0),
    ensures
        post.seen_flood_ids == pre.seen_flood_ids,
        post.sent_log@.len() == pre.sent_log@.len() + 1,
        post.sent_log@.drop_last() == pre.sent_log@,
        post.sent_log@.last().dest == packet.pack_type->FloodRequest_0.path_trace.last().0,
        post.sent_log@.last().packet.pack_type is FloodResponse,
        post.sent_log@.last().packet.routing_header.hop_index == 1,
{
    lemma_flood_step_answered(pre, post, packet, node_type);
}

/// The arriving flood request with this node appended to its path trace;
/// header and session are kept as received.
pub open spec fn extended_request_view(packet: PacketV, self_id: u8, node_type: NodeType) -> PacketV {
    let req = packet.pack_type->FloodRequest_0;
    PacketV {
        pack_type: PacketTypeV::FloodRequest(
            FloodRequestV {
                flood_id: req.flood_id,
                initiator_id: req.initiator_id,
                path_trace: req.path_trace.push((self_id, node_type)),
            },
        ),
        ..packet
    }
}

/// The local decision a node takes on one arriving flood request, as a
/// relation between the node before and after. With the trace extended by
/// this node: when the flood's key has been seen before, or the node's only
/// neighbor is the one the request came from, the node answers — exactly one
/// flood response addressed one hop back toward the immediate predecessor,
/// under a freshly drawn session id, with the flood history left alone, and
/// no broadcast. Otherwise it records the key and broadcasts the extended
/// request to every neighbor but the predecessor. Nothing else about the
/// node changes.
pub open spec fn flood_step(
    pre: NetworkNode,
    post: NetworkNode,
    packet: PacketV,
    node_type: NodeType,
) -> bool
    recommends
        packet.pack_type is FloodRequest,
{
    let req = packet.pack_type->FloodRequest_0;
    let pred = req.path_trace.last().0;
    let ext = req.path_trace.push((pre.id, node_type));
    let key = FloodKey { initiator_id: req.initiator_id, flood_id: req.flood_id };
    let respond = pre.seen_flood_ids.has_seen(key) || pre.packet_send.ids().len() == 1;
    &&& post.id == pre.id
    &&& post.crashing_behavior == pre.crashing_behavior
    &&& post.packet_send == pre.packet_send
    &&& post.packet_recv == pre.packet_recv
    &&& post.sim_contr_send == pre.sim_contr_send
    &&& if respond {
        &&& post.seen_flood_ids == pre.seen_flood_ids
        &&& if pre.packet_send.has(pred) {
            exists|sid: u64|
                #![auto]
                post.sent_log@ == pre.sent_log@.push(
                    (Transmission {
                        dest: pred,
                        packet: flood_response_view(ext, req.flood_id, sid),
                    }),
                ) && post.event_log@ == pre.event_log@.push(
                    NodeEventV::PacketSent(flood_response_view(ext, req.flood_id, sid)),
                )
        } else {
            post.sent_log@ == pre.sent_log@ && post.event_log@ == pre.event_log@
        }
    } else {
        &&& post.seen_flood_ids@ == pre.seen_flood_ids@.push(key)
        &&& post.sent_log@ == pre.sent_log@ + fanout(
            pre.packet_send.ids(),
            pred,
            pre.id,
            extended_request_view(packet, pre.id, node_type),
        )
        &&& post.event_log@ == pre.event_log@ + fanout_events(
            pre.packet_send.ids(),
            pred,
            pre.id,
            extended_request_view(packet, pre.id, node_type),
        )
    }
}

/// The state every node kind shares: identity, the flood keys already
/// propagated, the neighbor channels, the inbound channel, the controller's
/// event channel, a random source for session ids, and the two ghost
/// transcripts of everything handed to channels.
pub struct NetworkNode {
    pub id: u8,
    /// Whether the node is set to exhibit crashing behavior; stored for the
    /// node-kind-specific half, the shared core behaves normally.
    pub crashing_behavior: bool,
    pub seen_flood_ids: FloodHistory,
    pub packet_send: NeighborTable,
    pub packet_recv: Receiver<Packet>,
    pub sim_contr_send: Sender<NodeEvent>,
    pub rng: StdRng,
    /// Every packet handed to a neighbor channel, in order.
    pub sent_log: Ghost<Seq<Transmission>>,
    /// Every event handed to the simulation controller channel, in order. A
    /// refused event is still recorded: emission is best effort and never
    /// blocks delivery.
    pub event_log: Ghost<Seq<NodeEventV>>,
}

impl NetworkNode {
    /// The node's well-formedness: its neighbor table holds each id once.
    pub open spec fn wf(&self) -> bool {
        self.packet_send.wf()
    }

    /// Everything except the transcripts and the random source is the same.
    pub open spec fn same_identity(pre: NetworkNode, post: NetworkNode) -> bool {
        &&& post.id == pre.id
        &&& post.crashing_behavior == pre.crashing_behavior
        &&& post.seen_flood_ids == pre.seen_flood_ids
        &&& post.packet_send == pre.packet_send
        &&& post.packet_recv == pre.packet_recv
        &&& post.sim_contr_send == pre.sim_contr_send
    }

    /// A node with no neighbors, an empty flood history and empty
    /// transcripts.
    pub fn new(
        id: u8,
        crashing_behavior: bool,
        packet_recv: Receiver<Packet>,
        sim_contr_send: Sender<NodeEvent>,
        rng: StdRng,
    ) -> (r: NetworkNode)
        ensures
            r.wf(),
            r.id == id,
            r.crashing_behavior == crashing_behavior,
            r.seen_flood_ids@ == Seq::<FloodKey>::empty(),
            r.packet_send.ids() == Seq::<u8>::empty(),
            r.packet_recv == packet_recv,
            r.sim_contr_send == sim_contr_send,
            r.sent_log@ == Seq::<Transmission>::empty(),
            r.event_log@ == Seq::<NodeEventV>::empty(),
    {
        NetworkNode {
            id,
            crashing_behavior,
            seen_flood_ids: FloodHistory::new(),
            packet_send: NeighborTable::new(),
            packet_recv,
            sim_contr_send,
            rng,
            sent_log: Ghost(Seq::empty()),
            event_log: Ghost(Seq::empty()),
        }
    }

    /// The unique identifier of this node.
    pub fn get_id(&self) -> (r: u8)
        ensures
            r == self.id,
    {
        self.id
    }

    /// Whether the node is set to exhibit crashing behavior.
    pub fn get_crashing_behavior(&self) -> (r: bool)
        ensures
            r == self.crashing_behavior,
    {
        self.crashing_behavior
    }

    /// Mutable access to the record of flood keys already propagated.
    pub fn get_seen_flood_ids(&mut self) -> (r: &mut FloodHistory)
        ensures
            *r == old(self).seen_flood_ids,
            *final(self) == (NetworkNode { seen_flood_ids: *final(r), ..*old(self) }),
    {
        &mut self.seen_flood_ids
    }

    /// Mutable access to the neighbor table.
    pub fn get_packet_send(&mut self) -> (r: &mut NeighborTable)
        ensures
            *r == old(self).packet_send,
            *final(self) == (NetworkNode { packet_send: *final(r), ..*old(self) }),
    {
        &mut self.packet_send
    }

    /// Mutable access to the node's random source.
    pub fn get_random_generator(&mut self) -> (r: &mut StdRng)
        ensures
            *r == old(self).rng,
            *final(self) == (NetworkNode { rng: *final(r), ..*old(self) }),
    {
        &mut self.rng
    }

    /// The channel this node drains for incoming packets.
    pub fn get_packet_receiver(&self) -> (r: &Receiver<Packet>)
        ensures
            r == &self.packet_recv,
    {
        &self.packet_recv
    }

    /// The channel events for the simulation controller go out on.
    pub fn get_sim_contr_send(&self) -> (r: &Sender<NodeEvent>)
        ensures
            r == &self.sim_contr_send,
    {
        &self.sim_contr_send
    }

    /// Delivers `packet` to the neighbor its header cursor points at. When a
    /// channel for that neighbor exists, a `PacketSent` event carrying a copy
    /// of the very same packet goes to the simulation controller first —
    /// best effort, a refused event never blocks delivery — and the packet is
    /// then handed to the neighbor's channel. Without a channel the packet is
    /// dropped and nothing is emitted: a routing miss is silent at the
    /// protocol level.
    pub fn forward_packet(&mut self, packet: Packet) -> (r: ForwardOutcome)
        requires
            old(self).wf(),
            packet.routing_header.wf(),
        ensures
            final(self).wf(),
            NetworkNode::same_identity(*old(self), *final(self)),
            final(self).rng == old(self).rng,
            ({
                let next = packet.routing_header@.next_hop();
                if old(self).packet_send.has(next) {
                    &&& r == ForwardOutcome::Sent(next) || r == ForwardOutcome::SendFailed(next)
                    &&& final(self).sent_log@ == old(self).sent_log@.push(
                        (Transmission { dest: next, packet: packet@ }),
                    )
                    &&& final(self).event_log@ == old(self).event_log@.push(
                        NodeEventV::PacketSent(packet@),
                    )
                } else {
                    &&& r == ForwardOutcome::NoChannel(next)
                    &&& final(self).sent_log@ == old(self).sent_log@
                    &&& final(self).event_log@ == old(self).event_log@
                }
            }),
    {
        let next_hop_id = packet.routing_header.next_hop();
        if self.packet_send.contains_id(next_hop_id) {
            let event_copy = packet.duplicate();
            self.event_log = Ghost(self.event_log@.push(NodeEventV::PacketSent(event_copy@)));
            let _ = channel_send(&self.sim_contr_send, NodeEvent::PacketSent(event_copy));
            self.sent_log = Ghost(
                self.sent_log@.push(Transmission { dest: next_hop_id, packet: packet@ }),
            );
            if self.packet_send.send_on(next_hop_id, packet) {
                ForwardOutcome::Sent(next_hop_id)
            } else {
                ForwardOutcome::SendFailed(next_hop_id)
            }
        } else {
            ForwardOutcome::NoChannel(next_hop_id)
        }
    }

    /// Turns `packet` around in place so it travels back toward its origin:
    /// the hops beyond the cursor are discarded, the traveled prefix is
    /// reversed, and the cursor lands on 1. Payload and session are kept.
    pub fn reverse_packet_routing_direction(&self, packet: &mut Packet)
        requires
            old(packet).routing_header.wf(),
        ensures
            final(packet).pack_type == old(packet).pack_type,
            final(packet).session_id == old(packet).session_id,
            final(packet).routing_header@.hops == reversed_hops(
                old(packet).routing_header@.hops,
                old(packet).routing_header@.hop_index,
            ),
            final(packet).routing_header@.hop_index == 1,
    {
        let reversed = packet.routing_header.reversed();
        packet.routing_header = reversed;
    }

    /// The acknowledgement for a received fragment: an Ack carrying the
    /// fragment's index, under the same session, with the header reversed so
    /// it travels back to the origin. Handing anything but a fragment to
    /// this builder is a bug in the caller — the operation aborts rather
    /// than guess, and verified callers are barred from doing so.
    pub fn build_ack(&self, packet: Packet) -> (r: Packet)
        requires
            packet.pack_type is MsgFragment,
            packet.routing_header.wf(),
        ensures
            r@.pack_type == PacketTypeV::Ack(
                (Ack { fragment_index: packet@.pack_type->MsgFragment_0.fragment_index }),
            ),
            r@.session_id == packet@.session_id,
            r@.routing_header.hops == reversed_hops(
                packet@.routing_header.hops,
                packet@.routing_header.hop_index,
            ),
            r@.routing_header.hop_index == 1,
    {
        let frag_index: u64 = match &packet.pack_type {
            PacketType::MsgFragment(fragment) => fragment.fragment_index,
            _ => unreached(),
        };
        let ack = Ack { fragment_index: frag_index };
        let mut response = Packet {
            pack_type: PacketType::Ack(ack),
            routing_header: packet.routing_header,
            session_id: packet.session_id,
        };
        self.reverse_packet_routing_direction(&mut response);
        response
    }

    /// The negative acknowledgement for a received packet: a Nack of the
    /// given kind, under the same session, with the header reversed so it
    /// travels back. The tolerant counterpart of `build_ack`: on a
    /// non-fragment payload the fragment index defaults to zero instead of
    /// aborting.
    pub fn build_nack(&self, packet: Packet, nack_type: NackType) -> (r: Packet)
        requires
            packet.routing_header.wf(),
        ensures
            r@.pack_type == PacketTypeV::Nack(
                (Nack {
                    fragment_index: if packet@.pack_type is MsgFragment {
                        packet@.pack_type->MsgFragment_0.fragment_index
                    } else {
                        0
                    },
                    nack_type,
                }),
            ),
            r@.session_id == packet@.session_id,
            r@.routing_header.hops == reversed_hops(
                packet@.routing_header.hops,
                packet@.routing_header.hop_index,
            ),
            r@.routing_header.hop_index == 1,
    {
        let fragment_index: u64 = match &packet.pack_type {
            PacketType::MsgFragment(fragment) => fragment.fragment_index,
            _ => 0,
        };
        let nack = Nack { fragment_index, nack_type };
        let mut response = Packet {
            pack_type: PacketType::Nack(nack),
            routing_header: packet.routing_header,
            session_id: packet.session_id,
        };
        self.reverse_packet_routing_direction(&mut response);
        response
    }

    /// Builds the flood response that closes a flood request at this node:
    /// it carries the flood's id and the extended path trace, its reply path
    /// is the trace's node sequence reversed at cursor 1, and its session id
    /// is drawn fresh from the node's random source, so unrelated floods that
    /// happen to reuse a flood id cannot share a session. Handing anything
    /// but a flood request here is a caller bug and aborts.
    pub fn build_flood_response(
        &mut self,
        packet: Packet,
        path_trace: Vec<(u8, NodeType)>,
    ) -> (r: Packet)
        requires
            packet.pack_type is FloodRequest,
        ensures
            NetworkNode::same_identity(*old(self), *final(self)),
            final(self).sent_log@ == old(self).sent_log@,
            final(self).event_log@ == old(self).event_log@,
            r@ == flood_response_view(
                path_trace@,
                packet@.pack_type->FloodRequest_0.flood_id,
                r.session_id,
            ),
    {
        match packet.pack_type {
            PacketType::FloodRequest(flood_request) => {
                let n = path_trace.len();
                let mut route_back: Vec<u8> = Vec::new();
                let mut i: usize = 0;
                while i < n
                    invariant
                        n == path_trace@.len(),
                        i <= n,
                        route_back@.len() == i,
                        forall|j: int| 0 <= j < i ==> route_back@[j] == path_trace@[n - 1 - j].0,
                    decreases n - i,
                {
                    route_back.push(path_trace[n - 1 - i].0);
                    i += 1;
                }
                proof {
                    assert(route_back@ =~= trace_ids(path_trace@).reverse());
                }
                let session_id = random_session_id(&mut self.rng);
                Packet {
                    pack_type: PacketType::FloodResponse(
                        FloodResponse { flood_id: flood_request.flood_id, path_trace },
                    ),
                    routing_header: RoutingHeader { hops: route_back, hop_index: 1 },
                    session_id,
                }
            }
            _ => unreached(),
        }
    }

    /// Sends an independent copy of `packet` to every neighbor except the
    /// one the packet was received from. Each copy is readdressed with the
    /// direct two-hop path `[self, neighbor]` at cursor 1, a `PacketSent`
    /// event is emitted for it, and it is handed to that neighbor's channel.
    /// The multicast is best effort: one refused copy does not keep the
    /// others from being served.
    pub fn broadcast_packet(&mut self, packet: Packet, who_i_received_the_packet_from: u8)
        requires
            old(self).wf(),
        ensures
            final(self).wf(),
            NetworkNode::same_identity(*old(self), *final(self)),
            final(self).rng == old(self).rng,
            final(self).sent_log@ == old(self).sent_log@ + fanout(
                old(self).packet_send.ids(),
                who_i_received_the_packet_from,
                old(self).id,
                packet@,
            ),
            final(self).event_log@ == old(self).event_log@ + fanout_events(
                old(self).packet_send.ids(),
                who_i_received_the_packet_from,
                old(self).id,
                packet@,
            ),
    {
        let ghost all_ids = old(self).packet_send.ids();
        let ghost from = who_i_received_the_packet_from;
        let n = self.packet_send.len();
        let mut i: usize = 0;
        while i < n
            invariant
                self.wf(),
                NetworkNode::same_identity(*old(self), *self),
                self.rng == old(self).rng,
                all_ids == self.packet_send.ids(),
                from == who_i_received_the_packet_from,
                n == all_ids.len(),
                i <= n,
                self.sent_log@ == old(self).sent_log@ + fanout(
                    all_ids.take(i as int),
                    from,
                    old(self).id,
                    packet@,
                ),
                self.event_log@ == old(self).event_log@ + fanout_events(
                    all_ids.take(i as int),
                    from,
                    old(self).id,
                    packet@,
                ),
            decreases n - i,
        {
            let ghost prefix = all_ids.take(i as int);
            let ghost prefix1 = all_ids.take(i as int + 1);
            proof {
                assert(prefix1.drop_last() =~= prefix);
                assert(prefix1.last() == all_ids[i as int]);
            }
            let nbr = self.packet_send.id_at(i);
            if nbr != who_i_received_the_packet_from {
                let mut hops: Vec<u8> = Vec::new();
                hops.push(self.id);
                hops.push(nbr);
                let copy = Packet {
                    pack_type: packet.pack_type.duplicate(),
                    routing_header: RoutingHeader { hops, hop_index: 1 },
                    session_id: packet.session_id,
                };
                proof {
                    assert(copy@.routing_header.hops =~= seq![old(self).id, nbr]);
                    assert(copy@ =~~= fanout_copy(packet@, old(self).id, nbr));
                }
                let event_copy = copy.duplicate();
                self.event_log = Ghost(
                    self.event_log@.push(NodeEventV::PacketSent(event_copy@)),
                );
                let _ = channel_send(&self.sim_contr_send, NodeEvent::PacketSent(event_copy));
                self.sent_log = Ghost(
                    self.sent_log@.push(Transmission { dest: nbr, packet: copy@ }),
                );
                let _served = self.packet_send.send_at(i, copy);
                proof {
                    let t = Transmission {
                        dest: nbr,
                        packet: fanout_copy(packet@, old(self).id, nbr),
                    };
                    assert(fanout(prefix1, from, old(self).id, packet@) =~= fanout(
                        prefix,
                        from,
                        old(self).id,
                        packet@,
                    ).push(t));
                    assert(fanout_events(prefix1, from, old(self).id, packet@) =~= fanout_events(
                        prefix,
                        from,
                        old(self).id,
                        packet@,
                    ).push(NodeEventV::PacketSent(t.packet)));
                }
            } else {
                proof {
                    assert(fanout(prefix1, from, old(self).id, packet@) =~= fanout(
                        prefix,
                        from,
                        old(self).id,
                        packet@,
                    ));
                    assert(fanout_events(prefix1, from, old(self).id, packet@) =~= fanout_events(
                        prefix,
                        from,
                        old(self).id,
                        packet@,
                    ));
                }
            }
            i += 1;
        }
        proof {
            assert(all_ids.take(n as int) =~= all_ids);
        }
    }

    /// Runs the flood protocol on one arriving flood request: reads the
    /// immediate predecessor off the trace, appends itself, and either
    /// answers with a flood response toward the predecessor — when the
    /// flood's key has been seen or the predecessor is the only neighbor —
    /// or records the key and broadcasts onward. A packet that is no flood
    /// request at all changes nothing and sends nothing: the misuse is a
    /// matter for diagnostics, not for the protocol. The trace of a flood
    /// request in flight is never empty; a request without a trace is a
    /// caller bug and aborts.
    pub fn handle_flood_request(&mut self, packet: Packet, node_type: NodeType)
        requires
            old(self).wf(),
            packet.pack_type is FloodRequest
                ==> packet.pack_type->FloodRequest_0.path_trace@.len() > 0,
        ensures
            final(self).wf(),
            packet.pack_type is FloodRequest ==> flood_step(
                *old(self),
                *final(self),
                packet@,
                node_type,
            ),
            !(packet.pack_type is FloodRequest) ==> *final(self) == *old(self),
    {
        let ghost pre = *old(self);
        let ghost packet_view = packet@;
        let Packet { pack_type, routing_header, session_id } = packet;
        match pack_type {
            PacketType::FloodRequest(flood_request) => {
                let trace_len = flood_request.path_trace.len();
                let who_sent_me_this = flood_request.path_trace[trace_len - 1].0;
                let mut extended_trace = copy_trace(&flood_request.path_trace);
                extended_trace.push((self.id, node_type));
                let ghost ext = packet_view.pack_type->FloodRequest_0.path_trace.push(
                    (pre.id, node_type),
                );
                proof {
                    assert(extended_trace@ == ext);
                }
                let key = FloodKey {
                    initiator_id: flood_request.initiator_id,
                    flood_id: flood_request.flood_id,
                };
                let flood_request_is_already_received = self.seen_flood_ids.contains(key);
                let has_no_other_neighbour = self.packet_send.len() == 1;
                if flood_request_is_already_received || has_no_other_neighbour {
                    let request_packet = Packet {
                        pack_type: PacketType::FloodRequest(flood_request),
                        routing_header,
                        session_id,
                    };
                    let flood_response_packet = self.build_flood_response(
                        request_packet,
                        extended_trace,
                    );
                    proof {
                        let hops = flood_response_packet@.routing_header.hops;
                        assert(trace_ids(ext).len() == ext.len());
                        assert(hops.len() == ext.len());
                        assert(flood_response_packet.routing_header.wf());
                        assert(hops[1] == trace_ids(ext)[ext.len() - 2]);
                        assert(ext[ext.len() - 2]
                            == packet_view.pack_type->FloodRequest_0.path_trace.last());
                        assert(flood_response_packet@.routing_header.next_hop()
                            == who_sent_me_this);
                    }
                    let _outcome = self.forward_packet(flood_response_packet);
                    proof {
                        let req = packet_view.pack_type->FloodRequest_0;
                        let sid = flood_response_packet.session_id;
                        if pre.packet_send.has(req.path_trace.last().0) {
                            assert(final(self).sent_log@ == pre.sent_log@.push(
                                (Transmission {
                                    dest: req.path_trace.last().0,
                                    packet: flood_response_view(ext, req.flood_id, sid),
                                }),
                            ));
                            assert(final(self).event_log@ == pre.event_log@.push(
                                NodeEventV::PacketSent(
                                    flood_response_view(ext, req.flood_id, sid),
                                ),
                            ));
                        }
                    }
                } else {
                    self.seen_flood_ids.insert(key);
                    let updated_packet = Packet {
                        pack_type: PacketType::FloodRequest(
                            FloodRequest {
                                flood_id: flood_request.flood_id,
                                initiator_id: flood_request.initiator_id,
                                path_trace: extended_trace,
                            },
                        ),
                        routing_header,
                        session_id,
                    };
                    proof {
                        assert(updated_packet@ =~~= extended_request_view(
                            packet_view,
                            pre.id,
                            node_type,
                        ));
                    }
                    self.broadcast_packet(updated_packet, who_sent_me_this);
                }
            }
            _ => {},
        }
    }

    /// The shared dispatcher every node kind drives its inbound loop with:
    /// flood requests go to the flood protocol and the result is `false`;
    /// every other packet goes to the node-kind-specific handler, whose
    /// answer is returned.
    pub fn handle_packet<B: NodeBehavior>(
        &mut self,
        behavior: &mut B,
        packet: Packet,
        node_type: NodeType,
    ) -> (r: bool)
        requires
            old(self).wf(),
            packet.pack_type is FloodRequest
                ==> packet.pack_type->FloodRequest_0.path_trace@.len() > 0,
        ensures
            packet.pack_type is FloodRequest ==> {
                &&& final(self).wf()
                &&& flood_step(*old(self), *final(self), packet@, node_type)
                &&& r == false
            },
    {
        let is_flood_request = matches!(&packet.pack_type, PacketType::FloodRequest(_));
        if is_flood_request {
            self.handle_flood_request(packet, node_type);
            false
        } else {
            behavior.handle_routed_packet(self, packet)
        }
    }

    /// Registers `sender` as the outbound channel for neighbor `id`,
    /// replacing any channel that id already had: afterwards the table's
    /// entry for `id` holds exactly the given sender, and every other entry
    /// is as it was.
    pub fn add_channel(&mut self, id: u8, sender: Sender<Packet>)
        requires
            old(self).wf(),
        ensures
            final(self).wf(),
            final(self).packet_send.has(id),
            old(self).packet_send.has(id) ==> final(self).packet_send.channels() == old(
                self,
            ).packet_send.channels().update(
                old(self).packet_send.ids().index_of(id),
                (id, sender),
            ),
            !old(self).packet_send.has(id) ==> final(self).packet_send.channels() == old(
                self,
            ).packet_send.channels().push((id, sender)),
            old(self).packet_send.has(id) ==> final(self).packet_send.ids() == old(
                self,
            ).packet_send.ids(),
            !old(self).packet_send.has(id) ==> final(self).packet_send.ids() == old(
                self,
            ).packet_send.ids().push(id),
            final(self).id == old(self).id,
            final(self).crashing_behavior == old(self).crashing_behavior,
            final(self).seen_flood_ids == old(self).seen_flood_ids,
            final(self).packet_recv == old(self).packet_recv,
            final(self).sim_contr_send == old(self).sim_contr_send,
            final(self).rng == old(self).rng,
            final(self).sent_log@ == old(self).sent_log@,
            final(self).event_log@ == old(self).event_log@,
    {
        self.packet_send.insert(id, sender);
    }

    /// Unregisters the outbound channel of neighbor `id`. Removing an id
    /// that was never added leaves the node exactly as it is — topology
    /// edits race with in-flight traffic and must never bring the node down.
    /// Otherwise exactly the entry for `id` is taken out and every surviving
    /// neighbor keeps its channel. The result says whether a channel was
    /// removed, so the embedder can report the benign miss to diagnostics.
    pub fn remove_channel(&mut self, id: u8) -> (r: bool)
        requires
            old(self).wf(),
        ensures
            final(self).wf(),
            r == old(self).packet_send.has(id),
            !r ==> *final(self) == *old(self),
            r ==> final(self).packet_send.channels() == old(self).packet_send.channels().remove(
                old(self).packet_send.ids().index_of(id),
            ),
            r ==> final(self).packet_send.ids() == old(self).packet_send.ids().remove_value(id),
            r ==> final(self).packet_send.ids().len() == old(self).packet_send.ids().len() - 1,
            !final(self).packet_send.has(id),
            forall|x: u8|
                x != id ==> final(self).packet_send.has(x) == old(self).packet_send.has(x),
            final(self).id == old(self).id,
            final(self).crashing_behavior == old(self).crashing_behavior,
            final(self).seen_flood_ids == old(self).seen_flood_ids,
            final(self).packet_recv == old(self).packet_recv,
            final(self).sim_contr_send == old(self).sim_contr_send,
            final(self).rng == old(self).rng,
            final(self).sent_log@ == old(self).sent_log@,
            final(self).event_log@ == old(self).event_log@,
    {
        self.packet_send.remove(id)
    }
}

} // verus!
