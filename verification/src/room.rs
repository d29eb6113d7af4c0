//! The room lifecycle controller: connect, inbound message, disconnect.
//! Each handler computes the registry update and the exact list of outbound
//! deliveries; sending on the channels, and the serialization of each
//! message, belong to the transport around the library.

use vstd::prelude::*;
use vstd::string::StringExecFns;

use crate::message::MessageView;
use crate::message::SignalingMessage;
use crate::registry::Registry;
use crate::registry::id_of_conn;
use crate::registry::ids_of;
use crate::registry::remove_conn;
use crate::router::Delivery;
use crate::router::DeliveryView;
use crate::router::broadcast_conns;
use crate::router::broadcast_except;
use crate::router::deliveries_for;
use crate::router::route;
use crate::router::route_spec;

verus! {

/// What a newly accepted connection is owed: a `PeerList` of every
/// registered identifier (the new one last) to the new connection itself,
/// then a `Join` notice to every other registered peer, in registration
/// order.
pub open spec fn connect_deliveries(before: Seq<(u64, Seq<char>)>, conn: u64, id: Seq<char>) -> Seq<DeliveryView> {
    let after = before.push((conn, id));
    seq![
        DeliveryView { conn: conn, msg: MessageView::PeerList { peers: ids_of(after) } },
    ] + deliveries_for(
        broadcast_conns(after, id),
        MessageView::Join { room_id: Seq::empty(), peer_id: id },
    )
}

/// The identifier a departing connection was registered under; a connection
/// that never registered leaves as the empty identifier.
pub open spec fn leaver_id(entries: Seq<(u64, Seq<char>)>, conn: u64) -> Seq<char> {
    match id_of_conn(entries, conn) {
        Some(s) => s,
        None => Seq::empty(),
    }
}

/// What a disconnect sends: a `Leave` notice to every remaining registered
/// peer not sharing the departed identifier, in registration order.
pub open spec fn disconnect_deliveries(before: Seq<(u64, Seq<char>)>, conn: u64) -> Seq<DeliveryView> {
    deliveries_for(
        broadcast_conns(remove_conn(before, conn), leaver_id(before, conn)),
        MessageView::Leave { peer_id: leaver_id(before, conn) },
    )
}

/// Relies on `uuid::Uuid::new_v4` and its hyphenated rendering: a version-4
/// identifier drawn from the platform's randomness, shown as 36 hexadecimal
/// and hyphen characters. Nothing is assumed about which identifier comes
/// back, two calls may differ.
#[verifier::external_body]
fn random_identifier() -> (r: String)
    ensures
        r@.len() == 36,
{
    uuid::Uuid::new_v4().to_string()
}

/// A fresh identifier for a peer that supplied none.
fn fresh_peer_id() -> (r: String)
    ensures
        r@.len() == 41,
        r@.subrange(0, 5) == "peer_"@,
{
    let mut id: String = "peer_".to_owned();
    let suffix = random_identifier();
    id.append(suffix.as_str());
    proof {
        reveal_strlit("peer_");
        assert(id@.subrange(0, 5) =~= "peer_"@);
    }
    id
}

/// One signaling room: the registry of currently connected peers. All state
/// a room ever holds; when the last connection closes nothing remains.
pub struct Room {
    pub registry: Registry,
}

impl Room {
    /// A fresh room with no registered peer.
    pub fn new() -> (r: Room)
        ensures
            r.registry@ == Seq::<(u64, Seq<char>)>::empty(),
    {
        Room { registry: Registry::new() }
    }

    /// Accepts a connection: registers it under the requested identifier, or
    /// under a freshly synthesized one when none was requested, and returns
    /// the identifier together with the owed deliveries — the `PeerList`
    /// snapshot to the new connection, a `Join` notice to everyone else.
    pub fn on_connect(&mut self, conn: u64, requested: Option<String>) -> (r: (String, Vec<Delivery>))
        ensures
            (requested matches Some(q) ==> r.0@ == q@),
            (requested is None ==> r.0@.len() == 41 && r.0@.subrange(0, 5) == "peer_"@),
            final(self).registry@ == old(self).registry@.push((conn, r.0@)),
            r.1.deep_view() == connect_deliveries(old(self).registry@, conn, r.0@),
    {
        let peer_id: String = match requested {
            Some(s) => s,
            None => fresh_peer_id(),
        };
        self.registry.register(conn, peer_id.clone());
        let peers = self.registry.list_ids();
        let mut deliveries: Vec<Delivery> = Vec::new();
        deliveries.push(Delivery { conn, msg: SignalingMessage::PeerList { peers } });
        let join = SignalingMessage::Join { room_id: String::new(), peer_id: peer_id.clone() };
        let mut rest = broadcast_except(&self.registry, &peer_id, join);
        deliveries.append(&mut rest);
        proof {
            assert(deliveries.deep_view() =~= connect_deliveries(old(self).registry@, conn, peer_id@));
        }
        (peer_id, deliveries)
    }

    /// Feeds one parsed inbound message to the router, with this
    /// connection's registered identifier as the trusted sender. The room
    /// itself is not changed: routing is stateless given the registry.
    pub fn on_message(&self, sender: &String, msg: SignalingMessage) -> (r: Vec<Delivery>)
        ensures
            r.deep_view() == route_spec(sender@, msg@, self.registry@),
    {
        route(&self.registry, sender, msg)
    }

    /// Closes a connection: removes its registration and returns the `Leave`
    /// notice owed to every remaining peer. Closing an unknown connection
    /// removes nothing.
    pub fn on_disconnect(&mut self, conn: u64) -> (r: Vec<Delivery>)
        ensures
            final(self).registry@ == remove_conn(old(self).registry@, conn),
            r.deep_view() == disconnect_deliveries(old(self).registry@, conn),
    {
        let peer_id: String = match self.registry.peer_id_of(conn) {
            Some(s) => s,
            None => String::new(),
        };
        self.registry.unregister(conn);
        broadcast_except(&self.registry, &peer_id, SignalingMessage::Leave { peer_id: peer_id.clone() })
    }
}

} // verus!
