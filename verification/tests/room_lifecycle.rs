use signaling_core::room::Room;
use signaling_core::router::Delivery;
use signaling_core::RelayCandidate;
use signaling_core::SignalingMessage;

fn peer_list_of(d: &Delivery) -> Vec<String> {
    match &d.msg {
        SignalingMessage::PeerList { peers } => peers.clone(),
        _ => panic!("expected a PeerList"),
    }
}

#[test]
fn first_peer_gets_only_its_own_peer_list() {
    let mut room = Room::new();
    let (id, deliveries) = room.on_connect(1, Some("A".to_string()));
    assert_eq!(id, "A");
    assert_eq!(deliveries.len(), 1);
    assert_eq!(deliveries[0].conn, 1);
    assert_eq!(peer_list_of(&deliveries[0]), vec!["A".to_string()]);
}

#[test]
fn join_snapshot_for_second_peer() {
    let mut room = Room::new();
    let (_, _) = room.on_connect(1, Some("A".to_string()));
    let (id, deliveries) = room.on_connect(2, Some("B".to_string()));
    assert_eq!(id, "B");
    assert_eq!(deliveries.len(), 2);
    // the snapshot goes to the new connection and lists A before B
    assert_eq!(deliveries[0].conn, 2);
    assert_eq!(peer_list_of(&deliveries[0]), vec!["A".to_string(), "B".to_string()]);
    // the join notice goes to A only, never back to B
    assert_eq!(deliveries[1].conn, 1);
    match &deliveries[1].msg {
        SignalingMessage::Join { room_id, peer_id } => {
            assert_eq!(room_id, "");
            assert_eq!(peer_id, "B");
        }
        _ => panic!("expected a Join"),
    }
}

#[test]
fn synthesized_identifier_has_the_expected_shape() {
    let mut room = Room::new();
    let (id, deliveries) = room.on_connect(7, None);
    assert_eq!(id.chars().count(), 41);
    assert!(id.starts_with("peer_"));
    assert_eq!(deliveries.len(), 1);
    assert_eq!(peer_list_of(&deliveries[0]), vec![id.clone()]);
}

#[test]
fn leave_propagates_to_every_remaining_peer() {
    let mut room = Room::new();
    room.on_connect(1, Some("A".to_string()));
    room.on_connect(2, Some("B".to_string()));
    room.on_connect(3, Some("C".to_string()));
    let deliveries = room.on_disconnect(2);
    assert_eq!(deliveries.len(), 2);
    let mut notified: Vec<u64> = deliveries.iter().map(|d| d.conn).collect();
    notified.sort();
    assert_eq!(notified, vec![1, 3]);
    for d in &deliveries {
        match &d.msg {
            SignalingMessage::Leave { peer_id } => assert_eq!(peer_id, "B"),
            _ => panic!("expected a Leave"),
        }
    }
}

#[test]
fn message_to_departed_peer_is_dropped_and_room_stays_usable() {
    let mut room = Room::new();
    room.on_connect(1, Some("A".to_string()));
    room.on_connect(2, Some("B".to_string()));
    room.on_disconnect(2);
    let sender = "A".to_string();
    let dropped = room.on_message(&sender, SignalingMessage::Offer {
        from: "A".to_string(),
        to: "B".to_string(),
        sdp: Some("s".to_string()),
        sdp_compressed: None,
    });
    assert!(dropped.is_empty());
    // the room still routes between remaining peers
    room.on_connect(3, Some("C".to_string()));
    let routed = room.on_message(&sender, SignalingMessage::Offer {
        from: "A".to_string(),
        to: "C".to_string(),
        sdp: Some("s".to_string()),
        sdp_compressed: None,
    });
    assert_eq!(routed.len(), 1);
    assert_eq!(routed[0].conn, 3);
}

#[test]
fn disconnect_of_unknown_connection_changes_nothing() {
    let mut room = Room::new();
    room.on_connect(1, Some("A".to_string()));
    let deliveries = room.on_disconnect(99);
    // the unknown connection departs as the empty identifier; A is notified
    assert_eq!(deliveries.len(), 1);
    assert_eq!(deliveries[0].conn, 1);
    assert_eq!(room.registry.len(), 1);
}

#[test]
fn duplicate_registration_shadows_the_first_for_lookup() {
    let mut room = Room::new();
    room.on_connect(1, Some("A".to_string()));
    room.on_connect(2, Some("B".to_string()));
    // A reconnects on a new connection before the old one closed
    room.on_connect(3, Some("A".to_string()));
    let sender = "B".to_string();
    let routed = room.on_message(&sender, SignalingMessage::IceCandidate {
        from: "B".to_string(),
        to: "A".to_string(),
        candidate: "cand".to_string(),
    });
    assert_eq!(routed.len(), 1);
    assert_eq!(routed[0].conn, 3);
}

#[test]
fn reconnect_join_notice_skips_every_connection_under_that_identifier() {
    let mut room = Room::new();
    room.on_connect(1, Some("A".to_string()));
    room.on_connect(2, Some("B".to_string()));
    // A reconnects while its old connection is still open: the snapshot
    // lists both registrations, and the join notice reaches B alone —
    // neither connection registered under "A" hears about itself
    let (_, deliveries) = room.on_connect(3, Some("A".to_string()));
    assert_eq!(deliveries.len(), 2);
    assert_eq!(deliveries[0].conn, 3);
    assert_eq!(
        peer_list_of(&deliveries[0]),
        vec!["A".to_string(), "B".to_string(), "A".to_string()],
    );
    assert_eq!(deliveries[1].conn, 2);
    match &deliveries[1].msg {
        SignalingMessage::Join { peer_id, .. } => assert_eq!(peer_id, "A"),
        _ => panic!("expected a Join"),
    }
}

#[test]
fn relay_response_candidates_pass_through() {
    let mut room = Room::new();
    room.on_connect(1, Some("A".to_string()));
    room.on_connect(2, Some("B".to_string()));
    let sender = "B".to_string();
    let routed = room.on_message(&sender, SignalingMessage::RelayResponse {
        from: "B".to_string(),
        to: "A".to_string(),
        candidates: vec![
            RelayCandidate { peer_id: "C".to_string(), rtt_ms: 42, reliability_bits: 0x3f00_0000 },
        ],
    });
    assert_eq!(routed.len(), 1);
    assert_eq!(routed[0].conn, 1);
    match &routed[0].msg {
        SignalingMessage::RelayResponse { from, to, candidates } => {
            assert_eq!(from, "B");
            assert_eq!(to, "A");
            assert_eq!(candidates.len(), 1);
            assert_eq!(candidates[0].peer_id, "C");
            assert_eq!(candidates[0].rtt_ms, 42);
            assert_eq!(candidates[0].reliability_bits, 0x3f00_0000);
        }
        _ => panic!("expected a RelayResponse"),
    }
}
