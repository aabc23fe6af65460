use dr_ones_network::RoutingHeader;

#[test]
fn reverse_multi_hop_mid_path() {
    // Path 1-2-3-4-5, cursor on hop 3 (index 2): the reply path drops the
    // untraveled suffix [4, 5], reverses the traveled prefix, and enters at
    // cursor 1.
    let header = RoutingHeader { hops: vec![1, 2, 3, 4, 5], hop_index: 2 };
    let reply = header.reversed();
    assert_eq!(reply.hops, vec![3, 2, 1]);
    assert_eq!(reply.hop_index, 1);
}

#[test]
fn reverse_cursor_at_last_index() {
    let header = RoutingHeader { hops: vec![7, 8, 9], hop_index: 2 };
    let reply = header.reversed();
    assert_eq!(reply.hops, vec![9, 8, 7]);
    assert_eq!(reply.hop_index, 1);
}

#[test]
fn reverse_two_hop() {
    let header = RoutingHeader { hops: vec![1, 2], hop_index: 1 };
    let reply = header.reversed();
    assert_eq!(reply.hops, vec![2, 1]);
    assert_eq!(reply.hop_index, 1);
}

#[test]
fn reverse_single_hop_path_is_itself() {
    let header = RoutingHeader { hops: vec![5], hop_index: 0 };
    let reply = header.reversed();
    assert_eq!(reply.hops, vec![5]);
    assert_eq!(reply.hop_index, 1);
}

#[test]
fn reverse_round_trip_restores_forward_path() {
    // Reverse at position 2, travel the reply to its end (cursor at its
    // last index, again position 2), reverse there: the traveled part of
    // the original path comes back in forward order. Reversing once more
    // yields the reply path again.
    let header = RoutingHeader { hops: vec![1, 2, 3, 4], hop_index: 2 };
    let reply = header.reversed();
    assert_eq!(reply.hops, vec![3, 2, 1]);
    let back = RoutingHeader { hops: reply.hops, hop_index: 2 }.reversed();
    assert_eq!(back.hops, vec![1, 2, 3]);
    assert_eq!(back.hop_index, 1);
    let again = RoutingHeader { hops: back.hops, hop_index: 2 }.reversed();
    assert_eq!(again.hops, vec![3, 2, 1]);
    assert_eq!(again.hop_index, 1);
}

#[test]
fn reverse_round_trip_single_hop() {
    let header = RoutingHeader { hops: vec![9], hop_index: 0 };
    let reply = header.reversed();
    let back = RoutingHeader { hops: reply.hops, hop_index: 0 }.reversed();
    assert_eq!(back.hops, vec![9]);
    assert_eq!(back.hop_index, 1);
}

#[test]
fn next_hop_reads_cursor_position() {
    let header = RoutingHeader { hops: vec![4, 6, 8], hop_index: 1 };
    assert_eq!(header.next_hop(), 6);
}
