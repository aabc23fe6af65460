use crossbeam_channel::unbounded;
use dr_ones_network::{
    Ack, ForwardOutcome, NetworkNode, NodeEvent, Packet, PacketType, RoutingHeader,
};
use rand::rngs::StdRng;
use rand::SeedableRng;

fn ack_packet(hops: Vec<u8>, hop_index: usize, session_id: u64) -> Packet {
    Packet {
        pack_type: PacketType::Ack(Ack { fragment_index: 0 }),
        routing_header: RoutingHeader { hops, hop_index },
        session_id,
    }
}

#[test]
fn network_test_forward_packet() {
    // Create a test node with ID 1
    let (_inbound_tx, inbound_rx) = unbounded();
    let (sim_tx, _sim_rx) = unbounded();
    let mut node = NetworkNode::new(1, false, inbound_rx, sim_tx, StdRng::from_entropy());

    // Set up communication channel to node 2
    let (sender, receiver) = unbounded();
    node.add_channel(2, sender);

    // The routing path is [1, 2] and we're at node 1 trying to forward to
    // node 2
    let packet = ack_packet(vec![1, 2], 1, 42);
    node.forward_packet(packet);

    // Verify the packet was received
    let received = receiver.try_recv().unwrap();
    assert_eq!(received.session_id, 42);
}

#[test]
fn network_node_test_forward_packet() {
    // Create a test node with ID 1
    let (_inbound_tx, inbound_rx) = unbounded();
    let (sim_sender, sim_receiver) = unbounded();
    let mut node = NetworkNode::new(1, false, inbound_rx, sim_sender, StdRng::from_entropy());

    // Set up communication channel to node 2
    let (sender, receiver) = unbounded();
    node.add_channel(2, sender);

    // Create a test packet with routing header [1, 2] and forward it
    let packet = ack_packet(vec![1, 2], 1, 42);
    node.forward_packet(packet);

    // Verify the packet was received by node 2
    let received = receiver.try_recv().expect("Failed to receive packet");
    assert_eq!(received.session_id, 42);

    // Verify that a simulation event was generated
    let sim_event = sim_receiver
        .try_recv()
        .expect("Failed to receive simulation controller event");
    match sim_event {
        NodeEvent::PacketSent(p) => assert_eq!(p.session_id, 42),
        _ => panic!("Expected PacketSent event"),
    }
}

#[test]
fn forward_event_carries_the_forwarded_packet() {
    let (_inbound_tx, inbound_rx) = unbounded();
    let (sim_tx, sim_rx) = unbounded();
    let mut node = NetworkNode::new(1, false, inbound_rx, sim_tx, StdRng::seed_from_u64(1));
    let (sender, receiver) = unbounded();
    node.add_channel(6, sender);

    let packet = ack_packet(vec![4, 1, 6, 9], 2, 5001);
    let outcome = node.forward_packet(packet);
    assert_eq!(outcome, ForwardOutcome::Sent(6));

    let sent = receiver.try_recv().expect("packet not delivered");
    let event = sim_rx.try_recv().expect("event not emitted");
    match event {
        NodeEvent::PacketSent(p) => {
            // the emitted event's packet equals the forwarded packet
            assert_eq!(p.session_id, sent.session_id);
            assert_eq!(p.routing_header.hops, sent.routing_header.hops);
            assert_eq!(p.routing_header.hop_index, sent.routing_header.hop_index);
            assert!(matches!(p.pack_type, PacketType::Ack(Ack { fragment_index: 0 })));
        }
        _ => panic!("Expected PacketSent event"),
    }
}

#[test]
fn forward_without_channel_drops_silently() {
    let (_inbound_tx, inbound_rx) = unbounded();
    let (sim_tx, sim_rx) = unbounded();
    let mut node = NetworkNode::new(1, false, inbound_rx, sim_tx, StdRng::seed_from_u64(2));
    let (sender, receiver) = unbounded();
    node.add_channel(2, sender);

    // next hop is 5, for which no channel exists
    let packet = ack_packet(vec![1, 5], 1, 7);
    let outcome = node.forward_packet(packet);
    assert_eq!(outcome, ForwardOutcome::NoChannel(5));

    // nothing was sent anywhere, and no event was emitted
    assert!(receiver.try_recv().is_err());
    assert!(sim_rx.try_recv().is_err());
}

#[test]
fn forward_to_disconnected_receiver_fails() {
    let (_inbound_tx, inbound_rx) = unbounded();
    let (sim_tx, _sim_rx) = unbounded();
    let mut node = NetworkNode::new(1, false, inbound_rx, sim_tx, StdRng::seed_from_u64(3));
    let (sender, receiver) = unbounded();
    node.add_channel(2, sender);
    drop(receiver);

    let packet = ack_packet(vec![1, 2], 1, 7);
    let outcome = node.forward_packet(packet);
    assert_eq!(outcome, ForwardOutcome::SendFailed(2));
}
