use signaling_core::registry::Registry;
use signaling_core::room::Room;
use signaling_core::router::route;
use signaling_core::SignalingMessage;

#[test]
fn forwarded_offer_carries_the_registry_known_sender() {
    let mut room = Room::new();
    room.on_connect(1, Some("A".to_string()));
    room.on_connect(2, Some("B".to_string()));
    let sender = "A".to_string();
    // the client lies about its identity; the router overwrites it
    let routed = room.on_message(&sender, SignalingMessage::Offer {
        from: "somebody-else".to_string(),
        to: "B".to_string(),
        sdp: Some("v=0".to_string()),
        sdp_compressed: None,
    });
    assert_eq!(routed.len(), 1);
    assert_eq!(routed[0].conn, 2);
    match &routed[0].msg {
        SignalingMessage::Offer { from, to, sdp, sdp_compressed } => {
            assert_eq!(from, "A");
            assert_eq!(to, "B");
            assert_eq!(sdp.as_deref(), Some("v=0"));
            assert!(sdp_compressed.is_none());
        }
        _ => panic!("expected an Offer"),
    }
}

#[test]
fn answer_and_ice_candidate_are_forwarded_to_their_addressee() {
    let mut room = Room::new();
    room.on_connect(1, Some("A".to_string()));
    room.on_connect(2, Some("B".to_string()));
    let sender = "B".to_string();
    let answer = room.on_message(&sender, SignalingMessage::Answer {
        from: "forged".to_string(),
        to: "A".to_string(),
        sdp: None,
        sdp_compressed: Some("zzz".to_string()),
    });
    assert_eq!(answer.len(), 1);
    assert_eq!(answer[0].conn, 1);
    match &answer[0].msg {
        SignalingMessage::Answer { from, sdp, sdp_compressed, .. } => {
            assert_eq!(from, "B");
            assert!(sdp.is_none());
            assert_eq!(sdp_compressed.as_deref(), Some("zzz"));
        }
        _ => panic!("expected an Answer"),
    }
    let ice = room.on_message(&sender, SignalingMessage::IceCandidate {
        from: "".to_string(),
        to: "A".to_string(),
        candidate: "candidate:1 1 UDP 123 10.0.0.1 4444 typ host".to_string(),
    });
    assert_eq!(ice.len(), 1);
    assert_eq!(ice[0].conn, 1);
    match &ice[0].msg {
        SignalingMessage::IceCandidate { from, candidate, .. } => {
            assert_eq!(from, "B");
            assert_eq!(candidate, "candidate:1 1 UDP 123 10.0.0.1 4444 typ host");
        }
        _ => panic!("expected an IceCandidate"),
    }
}

#[test]
fn relay_goes_to_the_relay_peer_then_to_the_destination() {
    let mut room = Room::new();
    room.on_connect(1, Some("O".to_string()));
    room.on_connect(2, Some("R".to_string()));
    room.on_connect(3, Some("D".to_string()));
    let envelope = SignalingMessage::Relay {
        from: "whatever".to_string(),
        to: "D".to_string(),
        via: "R".to_string(),
        payload: "p".to_string(),
        hop_count: 1,
        timestamp: 170_000_000,
    };
    // sent by the originator: delivered to the relay peer, from rewritten to O
    let originator = "O".to_string();
    let hop1 = room.on_message(&originator, envelope);
    assert_eq!(hop1.len(), 1);
    assert_eq!(hop1[0].conn, 2);
    match &hop1[0].msg {
        SignalingMessage::Relay { from, to, via, payload, hop_count, timestamp } => {
            assert_eq!(from, "O");
            assert_eq!(to, "D");
            assert_eq!(via, "R");
            assert_eq!(payload, "p");
            assert_eq!(*hop_count, 1);
            assert_eq!(*timestamp, 170_000_000);
        }
        _ => panic!("expected a Relay"),
    }
    // re-sent by the relay peer itself: delivered to the destination
    let relay_peer = "R".to_string();
    let resent = SignalingMessage::Relay {
        from: "O".to_string(),
        to: "D".to_string(),
        via: "R".to_string(),
        payload: "p".to_string(),
        hop_count: 1,
        timestamp: 170_000_000,
    };
    let hop2 = room.on_message(&relay_peer, resent);
    assert_eq!(hop2.len(), 1);
    assert_eq!(hop2[0].conn, 3);
    match &hop2[0].msg {
        SignalingMessage::Relay { from, to, via, payload, hop_count, timestamp } => {
            assert_eq!(from, "R");
            assert_eq!(to, "D");
            assert_eq!(via, "R");
            assert_eq!(payload, "p");
            assert_eq!(*hop_count, 1);
            assert_eq!(*timestamp, 170_000_000);
        }
        _ => panic!("expected a Relay"),
    }
}

#[test]
fn relay_request_is_forwarded_by_the_drop_if_absent_rule() {
    let mut room = Room::new();
    room.on_connect(1, Some("A".to_string()));
    room.on_connect(2, Some("B".to_string()));
    let sender = "A".to_string();
    let routed = room.on_message(&sender, SignalingMessage::RelayRequest {
        from: "x".to_string(),
        to: "B".to_string(),
        target_peer: "C".to_string(),
    });
    assert_eq!(routed.len(), 1);
    assert_eq!(routed[0].conn, 2);
    match &routed[0].msg {
        SignalingMessage::RelayRequest { from, to, target_peer } => {
            assert_eq!(from, "A");
            assert_eq!(to, "B");
            assert_eq!(target_peer, "C");
        }
        _ => panic!("expected a RelayRequest"),
    }
    let dropped = room.on_message(&sender, SignalingMessage::RelayRequest {
        from: "x".to_string(),
        to: "nobody".to_string(),
        target_peer: "C".to_string(),
    });
    assert!(dropped.is_empty());
}

#[test]
fn message_to_unregistered_peer_is_dropped_silently() {
    let mut room = Room::new();
    room.on_connect(1, Some("A".to_string()));
    let sender = "A".to_string();
    let routed = room.on_message(&sender, SignalingMessage::Offer {
        from: "A".to_string(),
        to: "missing".to_string(),
        sdp: Some("v=0".to_string()),
        sdp_compressed: None,
    });
    // no delivery at all: in particular no Error reply to the sender
    assert!(routed.is_empty());
}

#[test]
fn reachability_reaches_everyone_but_the_sender() {
    let mut room = Room::new();
    room.on_connect(1, Some("X".to_string()));
    room.on_connect(2, Some("B".to_string()));
    room.on_connect(3, Some("C".to_string()));
    let sender = "X".to_string();
    let routed = room.on_message(&sender, SignalingMessage::Reachability {
        from: "spoof".to_string(),
        reachable_peers: vec!["B".to_string()],
    });
    let conns: Vec<u64> = routed.iter().map(|d| d.conn).collect();
    assert_eq!(conns, vec![2, 3]);
    for d in &routed {
        match &d.msg {
            SignalingMessage::Reachability { from, reachable_peers } => {
                assert_eq!(from, "X");
                assert_eq!(reachable_peers, &vec!["B".to_string()]);
            }
            _ => panic!("expected a Reachability"),
        }
    }
}

#[test]
fn server_emitted_variants_from_a_client_are_ignored() {
    let mut room = Room::new();
    room.on_connect(1, Some("A".to_string()));
    room.on_connect(2, Some("B".to_string()));
    let sender = "A".to_string();
    let join = room.on_message(&sender, SignalingMessage::Join {
        room_id: "r".to_string(),
        peer_id: "B".to_string(),
    });
    assert!(join.is_empty());
    let leave = room.on_message(&sender, SignalingMessage::Leave { peer_id: "B".to_string() });
    assert!(leave.is_empty());
    let list = room.on_message(&sender, SignalingMessage::PeerList { peers: vec!["A".to_string()] });
    assert!(list.is_empty());
    let error = room.on_message(&sender, SignalingMessage::Error { message: "boom".to_string() });
    assert!(error.is_empty());
}

#[test]
fn route_on_a_bare_registry_matches_the_room_behaviour() {
    let mut reg = Registry::new();
    reg.register(10, "A".to_string());
    reg.register(20, "B".to_string());
    let sender = "A".to_string();
    let routed = route(&reg, &sender, SignalingMessage::IceCandidate {
        from: "".to_string(),
        to: "B".to_string(),
        candidate: "c".to_string(),
    });
    assert_eq!(routed.len(), 1);
    assert_eq!(routed[0].conn, 20);
}

#[test]
fn registry_lookup_and_unregister_are_exact() {
    let mut reg = Registry::new();
    reg.register(1, "A".to_string());
    reg.register(2, "B".to_string());
    assert_eq!(reg.lookup(&"A".to_string()), Some(1));
    assert_eq!(reg.lookup(&"Z".to_string()), None);
    assert_eq!(reg.peer_id_of(2), Some("B".to_string()));
    reg.unregister(1);
    assert_eq!(reg.lookup(&"A".to_string()), None);
    assert_eq!(reg.len(), 1);
    // idempotent: removing an absent handle is a no-op
    reg.unregister(1);
    assert_eq!(reg.len(), 1);
    let ids = reg.list_ids();
    assert_eq!(ids, vec!["B".to_string()]);
}
