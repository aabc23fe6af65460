use crossbeam_channel::unbounded;
use dr_ones_network::{
    Ack, Fragment, NackType, NetworkNode, Packet, PacketType, RoutingHeader,
};
use rand::rngs::StdRng;
use rand::SeedableRng;

fn test_node(id: u8) -> NetworkNode {
    let (_inbound_tx, inbound_rx) = unbounded();
    let (sim_tx, _sim_rx) = unbounded();
    NetworkNode::new(id, false, inbound_rx, sim_tx, StdRng::seed_from_u64(7))
}

#[test]
fn build_ack_on_fragment_keeps_index_and_reverses() {
    let node = test_node(3);
    let packet = Packet {
        pack_type: PacketType::MsgFragment(Fragment {
            fragment_index: 7,
            total_n_fragments: 10,
            length: 5,
            data: vec![1, 2, 3, 4, 5],
        }),
        routing_header: RoutingHeader { hops: vec![1, 2, 3, 4], hop_index: 2 },
        session_id: 99,
    };
    let ack = node.build_ack(packet);
    match ack.pack_type {
        PacketType::Ack(a) => assert_eq!(a.fragment_index, 7),
        _ => panic!("expected an ack payload"),
    }
    assert_eq!(ack.session_id, 99);
    assert_eq!(ack.routing_header.hops, vec![3, 2, 1]);
    assert_eq!(ack.routing_header.hop_index, 1);
}

#[test]
fn build_nack_on_fragment_keeps_index_and_kind() {
    let node = test_node(2);
    let packet = Packet {
        pack_type: PacketType::MsgFragment(Fragment {
            fragment_index: 4,
            total_n_fragments: 6,
            length: 1,
            data: vec![255],
        }),
        routing_header: RoutingHeader { hops: vec![5, 2, 9], hop_index: 1 },
        session_id: 13,
    };
    let nack = node.build_nack(packet, NackType::Dropped);
    match nack.pack_type {
        PacketType::Nack(n) => {
            assert_eq!(n.fragment_index, 4);
            assert_eq!(n.nack_type, NackType::Dropped);
        }
        _ => panic!("expected a nack payload"),
    }
    assert_eq!(nack.session_id, 13);
    assert_eq!(nack.routing_header.hops, vec![2, 5]);
    assert_eq!(nack.routing_header.hop_index, 1);
}

#[test]
fn build_nack_on_non_fragment_defaults_index_to_zero() {
    let node = test_node(2);
    let packet = Packet {
        pack_type: PacketType::Ack(Ack { fragment_index: 31 }),
        routing_header: RoutingHeader { hops: vec![1, 2], hop_index: 1 },
        session_id: 8,
    };
    let nack = node.build_nack(packet, NackType::ErrorInRouting(4));
    match nack.pack_type {
        PacketType::Nack(n) => {
            assert_eq!(n.fragment_index, 0);
            assert_eq!(n.nack_type, NackType::ErrorInRouting(4));
        }
        _ => panic!("expected a nack payload"),
    }
    assert_eq!(nack.routing_header.hops, vec![2, 1]);
    assert_eq!(nack.routing_header.hop_index, 1);
}

#[test]
fn build_nack_destination_is_drone_kind() {
    let node = test_node(9);
    let packet = Packet {
        pack_type: PacketType::Ack(Ack { fragment_index: 1 }),
        routing_header: RoutingHeader { hops: vec![3, 9], hop_index: 1 },
        session_id: 21,
    };
    let nack = node.build_nack(packet, NackType::DestinationIsDrone);
    match nack.pack_type {
        PacketType::Nack(n) => assert_eq!(n.nack_type, NackType::DestinationIsDrone),
        _ => panic!("expected a nack payload"),
    }
}

#[test]
fn build_nack_unexpected_recipient_kind() {
    let node = test_node(9);
    let packet = Packet {
        pack_type: PacketType::Ack(Ack { fragment_index: 1 }),
        routing_header: RoutingHeader { hops: vec![3, 9], hop_index: 1 },
        session_id: 21,
    };
    let nack = node.build_nack(packet, NackType::UnexpectedRecipient(9));
    match nack.pack_type {
        PacketType::Nack(n) => assert_eq!(n.nack_type, NackType::UnexpectedRecipient(9)),
        _ => panic!("expected a nack payload"),
    }
}

#[test]
fn reverse_packet_routing_direction_in_place() {
    let node = test_node(3);
    let mut packet = Packet {
        pack_type: PacketType::Ack(Ack { fragment_index: 0 }),
        routing_header: RoutingHeader { hops: vec![1, 2, 3, 4, 5], hop_index: 2 },
        session_id: 77,
    };
    node.reverse_packet_routing_direction(&mut packet);
    assert_eq!(packet.routing_header.hops, vec![3, 2, 1]);
    assert_eq!(packet.routing_header.hop_index, 1);
    assert_eq!(packet.session_id, 77);
}
