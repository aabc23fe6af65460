use crossbeam_channel::unbounded;
use dr_ones_network::{
    Ack, FloodHistory, FloodKey, FloodRequest, NeighborTable, NetworkNode, NodeBehavior,
    NodeType, Packet, PacketType, RoutingHeader, SerializableMessage, ServerType,
};
use rand::rngs::StdRng;
use rand::SeedableRng;

struct RecordingBehavior {
    routed_packets: Vec<u64>,
    commands: Vec<ServerType>,
}

impl NodeBehavior for RecordingBehavior {
    type Command = ServerType;

    fn handle_routed_packet(&mut self, _node: &mut NetworkNode, packet: Packet) -> bool {
        self.routed_packets.push(packet.session_id);
        true
    }

    fn handle_command(&mut self, _node: &mut NetworkNode, command: ServerType) {
        self.commands.push(command);
    }
}

#[test]
fn dispatcher_routes_non_flood_packets_to_the_behavior() {
    let (_inbound_tx, inbound_rx) = unbounded();
    let (sim_tx, _sim_rx) = unbounded();
    let mut node = NetworkNode::new(1, false, inbound_rx, sim_tx, StdRng::seed_from_u64(1));
    let mut behavior = RecordingBehavior { routed_packets: vec![], commands: vec![] };

    let packet = Packet {
        pack_type: PacketType::Ack(Ack { fragment_index: 2 }),
        routing_header: RoutingHeader { hops: vec![2, 1], hop_index: 1 },
        session_id: 314,
    };
    let handled = node.handle_packet(&mut behavior, packet, NodeType::Drone);
    assert!(handled);
    assert_eq!(behavior.routed_packets, vec![314]);
}

#[test]
fn dispatcher_runs_the_flood_protocol_itself() {
    let (_inbound_tx, inbound_rx) = unbounded();
    let (sim_tx, _sim_rx) = unbounded();
    let mut node = NetworkNode::new(1, false, inbound_rx, sim_tx, StdRng::seed_from_u64(1));
    let (tx2, rx2) = unbounded();
    node.add_channel(2, tx2);
    let mut behavior = RecordingBehavior { routed_packets: vec![], commands: vec![] };

    let packet = Packet {
        pack_type: PacketType::FloodRequest(FloodRequest {
            flood_id: 3,
            initiator_id: 2,
            path_trace: vec![(2, NodeType::Client)],
        }),
        routing_header: RoutingHeader { hops: vec![2, 1], hop_index: 1 },
        session_id: 15,
    };
    let handled = node.handle_packet(&mut behavior, packet, NodeType::Drone);
    assert!(!handled);
    // the behavior never saw the flood request
    assert!(behavior.routed_packets.is_empty());
    // the dead-end rule answered the sender
    let response = rx2.try_recv().expect("no flood response");
    assert!(matches!(response.pack_type, PacketType::FloodResponse(_)));
}

#[test]
fn serializable_message_defaults_to_default_variant() {
    let message = SerializableMessage::default();
    assert!(matches!(message, SerializableMessage::Default));
}

#[test]
fn flood_history_records_composite_keys() {
    let mut history = FloodHistory::new();
    let key = FloodKey { initiator_id: 4, flood_id: 9 };
    assert!(!history.contains(key));
    history.insert(key);
    assert!(history.contains(key));
    // same flood id under another initiator is another key
    assert!(!history.contains(FloodKey { initiator_id: 5, flood_id: 9 }));
}

#[test]
fn accessors_expose_node_state() {
    let (_inbound_tx, inbound_rx) = unbounded();
    let (sim_tx, _sim_rx) = unbounded();
    let mut node = NetworkNode::new(6, true, inbound_rx, sim_tx, StdRng::seed_from_u64(6));
    assert_eq!(node.get_id(), 6);
    assert!(node.get_crashing_behavior());

    let (tx2, _rx2) = unbounded();
    node.get_packet_send().insert(2, tx2);
    assert!(node.packet_send.contains_id(2));

    let key = FloodKey { initiator_id: 1, flood_id: 2 };
    node.get_seen_flood_ids().insert(key);
    assert!(node.seen_flood_ids.contains(key));

    assert!(node.get_packet_receiver().try_recv().is_err());
}

#[test]
fn neighbor_table_tracks_membership() {
    let mut table = NeighborTable::new();
    assert_eq!(table.len(), 0);
    let (tx, _rx) = unbounded();
    table.insert(8, tx);
    assert!(table.contains_id(8));
    assert!(!table.contains_id(9));
    assert!(!table.remove(9));
    assert_eq!(table.len(), 1);
    assert!(table.remove(8));
    assert_eq!(table.len(), 0);
}
