//! The routing guarantees of the room, stated and proved once and for all:
//! sender-identity integrity, join-snapshot shape, relay direction,
//! silent drops, leave propagation with registry cleanup, and broadcast
//! exclusion.

use vstd::prelude::*;

use crate::message::MessageView;
use crate::message::direct_target;
use crate::message::from_of;
use crate::message::with_from;
use crate::registry::id_of_conn;
use crate::registry::ids_of;
use crate::registry::lookup_in;
use crate::registry::remove_conn;
use crate::room::connect_deliveries;
use crate::room::disconnect_deliveries;
use crate::room::leaver_id;
use crate::router::DeliveryView;
use crate::router::broadcast_conns;
use crate::router::deliveries_for;
use crate::router::route_spec;

verus! {

/// Every connection a broadcast reaches is one registered under an
/// identifier other than the excluded one.
pub proof fn lemma_broadcast_conns_sound(entries: Seq<(u64, Seq<char>)>, excluded: Seq<char>, j: int)
    requires
        0 <= j < broadcast_conns(entries, excluded).len(),
    ensures
        exists|k: int|
            0 <= k < entries.len() && (#[trigger] entries[k]).0 == broadcast_conns(entries, excluded)[j]
                && entries[k].1 != excluded,
    decreases entries.len(),
{
    let bc = broadcast_conns(entries, excluded);
    let prior = entries.drop_last();
    let rest = broadcast_conns(prior, excluded);
    if entries.last().1 == excluded {
        lemma_broadcast_conns_sound(prior, excluded, j);
        let k = choose|k: int|
            0 <= k < prior.len() && (#[trigger] prior[k]).0 == rest[j] && prior[k].1 != excluded;
        assert(entries[k] == prior[k]);
    } else {
        if j < rest.len() {
            lemma_broadcast_conns_sound(prior, excluded, j);
            let k = choose|k: int|
                0 <= k < prior.len() && (#[trigger] prior[k]).0 == rest[j] && prior[k].1 != excluded;
            assert(entries[k] == prior[k]);
            assert(bc[j] == rest[j]);
        } else {
            assert(bc[j] == entries.last().0);
            assert(entries[entries.len() - 1] == entries.last());
        }
    }
}

/// Every entry registered under an identifier other than the excluded one is
/// reached by a broadcast.
pub proof fn lemma_broadcast_conns_complete(entries: Seq<(u64, Seq<char>)>, excluded: Seq<char>, k: int)
    requires
        0 <= k < entries.len(),
        entries[k].1 != excluded,
    ensures
        broadcast_conns(entries, excluded).contains(entries[k].0),
    decreases entries.len(),
{
    let bc = broadcast_conns(entries, excluded);
    let prior = entries.drop_last();
    let rest = broadcast_conns(prior, excluded);
    if k == entries.len() - 1 {
        assert(entries.last() == entries[k]);
        assert(bc[bc.len() - 1] == entries[k].0);
    } else {
        assert(prior[k] == entries[k]);
        lemma_broadcast_conns_complete(prior, excluded, k);
        let j = choose|j: int| 0 <= j < rest.len() && rest[j] == prior[k].0;
        if entries.last().1 == excluded {
            assert(bc[j] == entries[k].0);
        } else {
            assert(bc[j] == rest[j]);
            assert(bc[j] == entries[k].0);
        }
    }
}

/// A connection registered only under the excluded identifier is never
/// reached by a broadcast.
pub proof fn lemma_broadcast_conns_excludes(entries: Seq<(u64, Seq<char>)>, excluded: Seq<char>, c: u64)
    requires
        forall|k: int|
            0 <= k < entries.len() && (#[trigger] entries[k]).0 == c ==> entries[k].1 == excluded,
    ensures
        !broadcast_conns(entries, excluded).contains(c),
    decreases entries.len(),
{
    if entries.len() == 0 {
    } else {
        let bc = broadcast_conns(entries, excluded);
        let prior = entries.drop_last();
        let rest = broadcast_conns(prior, excluded);
        assert forall|k: int|
            0 <= k < prior.len() && (#[trigger] prior[k]).0 == c implies prior[k].1 == excluded by {
            assert(prior[k] == entries[k]);
        }
        lemma_broadcast_conns_excludes(prior, excluded, c);
        if bc.contains(c) {
            let i = choose|i: int| 0 <= i < bc.len() && bc[i] == c;
            if entries.last().1 == excluded {
                assert(rest[i] == c);
            } else {
                if i < rest.len() {
                    assert(rest[i] == c);
                } else {
                    assert(entries[entries.len() - 1] == entries.last());
                    assert(bc[i] == entries.last().0);
                }
            }
            assert(false);
        }
    }
}

/// Each entry that survives the removal of a connection handle came from the
/// registry and is not registered under that handle.
pub proof fn lemma_remove_conn_entries(entries: Seq<(u64, Seq<char>)>, conn: u64, j: int)
    requires
        0 <= j < remove_conn(entries, conn).len(),
    ensures
        remove_conn(entries, conn)[j].0 != conn,
        entries.contains(remove_conn(entries, conn)[j]),
    decreases entries.len(),
{
    let after = remove_conn(entries, conn);
    let prior = entries.drop_last();
    let rest = remove_conn(prior, conn);
    if entries.last().0 == conn {
        lemma_remove_conn_entries(prior, conn, j);
        let k = choose|k: int| 0 <= k < prior.len() && prior[k] == rest[j];
        assert(entries[k] == prior[k]);
    } else {
        if j < rest.len() {
            lemma_remove_conn_entries(prior, conn, j);
            assert(after[j] == rest[j]);
            let k = choose|k: int| 0 <= k < prior.len() && prior[k] == rest[j];
            assert(entries[k] == prior[k]);
        } else {
            assert(after[j] == entries.last());
            assert(entries[entries.len() - 1] == entries.last());
        }
    }
}

/// After the only connection registered under an identifier is removed, a
/// lookup of that identifier finds nothing: a later message addressed to the
/// departed peer is silently dropped.
pub proof fn lemma_remove_conn_lookup_none(entries: Seq<(u64, Seq<char>)>, conn: u64, p: Seq<char>)
    requires
        forall|k: int|
            0 <= k < entries.len() && (#[trigger] entries[k]).1 == p ==> entries[k].0 == conn,
    ensures
        lookup_in(remove_conn(entries, conn), p) == None::<u64>,
    decreases entries.len(),
{
    if entries.len() == 0 {
    } else {
        let prior = entries.drop_last();
        let rest = remove_conn(prior, conn);
        assert forall|k: int|
            0 <= k < prior.len() && (#[trigger] prior[k]).1 == p implies prior[k].0 == conn by {
            assert(prior[k] == entries[k]);
        }
        lemma_remove_conn_lookup_none(prior, conn, p);
        if entries.last().0 == conn {
        } else {
            assert(entries[entries.len() - 1] == entries.last());
            assert(entries.last().1 != p);
            assert(rest.push(entries.last()).drop_last() =~= rest);
        }
    }
}

/// The delivery fan-out of a broadcast contains the message for each listed
/// connection.
pub proof fn lemma_deliveries_for_contains(conns: Seq<u64>, m: MessageView, j: int)
    requires
        0 <= j < conns.len(),
    ensures
        deliveries_for(conns, m).contains((DeliveryView { conn: conns[j], msg: m })),
{
    assert(deliveries_for(conns, m)[j] == (DeliveryView { conn: conns[j], msg: m }));
}

/// Identity integrity: whatever sender a client writes into a message, every
/// delivery the router produces carries the registry-known identifier of the
/// sending connection in its `from` field.
pub proof fn lemma_identity_integrity(sender: Seq<char>, m: MessageView, entries: Seq<(u64, Seq<char>)>)
    ensures
        forall|i: int|
            0 <= i < route_spec(sender, m, entries).len() ==> (#[trigger] route_spec(
                sender,
                m,
                entries,
            )[i]).msg == with_from(m, sender),
        forall|i: int|
            0 <= i < route_spec(sender, m, entries).len() ==> from_of(
                (#[trigger] route_spec(sender, m, entries)[i]).msg,
            ) == Some(sender),
{
    let ds = route_spec(sender, m, entries);
    assert forall|i: int| 0 <= i < ds.len() implies ds[i].msg == with_from(m, sender)
        && from_of(ds[i].msg) == Some(sender) by {
        assert(ds[i].msg == with_from(m, sender));
        match m {
            MessageView::Offer { .. } => {},
            MessageView::Answer { .. } => {},
            MessageView::IceCandidate { .. } => {},
            MessageView::Relay { .. } => {},
            MessageView::RelayRequest { .. } => {},
            MessageView::RelayResponse { .. } => {},
            MessageView::Reachability { .. } => {},
            _ => {
                assert(ds.len() == 0);
            },
        }
    }
}

/// Join snapshot correctness: accepting a connection delivers first a
/// `PeerList` to the new connection itself, holding every previously
/// registered identifier in registration order with the new identifier last;
/// every further delivery is a `Join` notice for the new identifier, each
/// addressed to a connection registered under a different identifier — so a
/// peer never receives a `Join` for itself — and every such connection
/// receives one.
pub proof fn lemma_join_snapshot(before: Seq<(u64, Seq<char>)>, conn: u64, id: Seq<char>)
    ensures
        connect_deliveries(before, conn, id).len() >= 1,
        connect_deliveries(before, conn, id)[0] == (DeliveryView {
            conn: conn,
            msg: MessageView::PeerList { peers: ids_of(before).push(id) },
        }),
        forall|i: int|
            1 <= i < connect_deliveries(before, conn, id).len() ==> (#[trigger] connect_deliveries(
                before,
                conn,
                id,
            )[i]).msg == (MessageView::Join { room_id: Seq::empty(), peer_id: id }),
        forall|i: int|
            #![trigger connect_deliveries(before, conn, id)[i]]
            1 <= i < connect_deliveries(before, conn, id).len() ==> exists|k: int|
                0 <= k < before.len() && (#[trigger] before[k]).0 == connect_deliveries(
                    before,
                    conn,
                    id,
                )[i].conn && before[k].1 != id,
        forall|k: int|
            0 <= k < before.len() && (#[trigger] before[k]).1 != id ==> connect_deliveries(
                before,
                conn,
                id,
            ).contains(
                (DeliveryView {
                    conn: before[k].0,
                    msg: MessageView::Join { room_id: Seq::empty(), peer_id: id },
                }),
            ),
{
    let after = before.push((conn, id));
    let ds = connect_deliveries(before, conn, id);
    let join = MessageView::Join { room_id: Seq::<char>::empty(), peer_id: id };
    let bc = broadcast_conns(after, id);
    assert(ids_of(after) =~= ids_of(before).push(id));
    assert forall|i: int| 1 <= i < ds.len() implies ds[i].msg == join && exists|k: int|
        0 <= k < before.len() && (#[trigger] before[k]).0 == ds[i].conn && before[k].1 != id by {
        assert(ds[i] == deliveries_for(bc, join)[i - 1]);
        assert(ds[i] == (DeliveryView { conn: bc[i - 1], msg: join }));
        lemma_broadcast_conns_sound(after, id, i - 1);
        let k = choose|k: int|
            0 <= k < after.len() && (#[trigger] after[k]).0 == bc[i - 1] && after[k].1 != id;
        assert(k < before.len());
        assert(before[k] == after[k]);
    }
    assert forall|k: int| 0 <= k < before.len() && (#[trigger] before[k]).1 != id implies ds.contains(
        (DeliveryView { conn: before[k].0, msg: join }),
    ) by {
        assert(after[k] == before[k]);
        lemma_broadcast_conns_complete(after, id, k);
        let j = choose|j: int| 0 <= j < bc.len() && bc[j] == after[k].0;
        assert(deliveries_for(bc, join)[j] == (DeliveryView { conn: before[k].0, msg: join }));
        assert(ds[j + 1] == deliveries_for(bc, join)[j]);
    }
}

/// Relay direction: a relay envelope is delivered to its designated relay
/// peer when sent by anybody else, and on to its final destination when sent
/// by the relay peer itself; in both cases only the `from` field changes —
/// payload, hop count and timestamp pass through verbatim.
pub proof fn lemma_relay_direction(
    entries: Seq<(u64, Seq<char>)>,
    originator: Seq<char>,
    relay: Seq<char>,
    dest: Seq<char>,
    claimed_from: Seq<char>,
    payload: Seq<char>,
    hop_count: u32,
    timestamp: u64,
    relay_conn: u64,
    dest_conn: u64,
)
    requires
        originator != relay,
        lookup_in(entries, relay) == Some(relay_conn),
        lookup_in(entries, dest) == Some(dest_conn),
    ensures
        route_spec(
            originator,
            (MessageView::Relay {
                from: claimed_from,
                to: dest,
                via: relay,
                payload,
                hop_count,
                timestamp,
            }),
            entries,
        ) == seq![
            (DeliveryView {
                conn: relay_conn,
                msg: (MessageView::Relay {
                    from: originator,
                    to: dest,
                    via: relay,
                    payload,
                    hop_count,
                    timestamp,
                }),
            }),
        ],
        route_spec(
            relay,
            (MessageView::Relay {
                from: claimed_from,
                to: dest,
                via: relay,
                payload,
                hop_count,
                timestamp,
            }),
            entries,
        ) == seq![
            (DeliveryView {
                conn: dest_conn,
                msg: (MessageView::Relay {
                    from: relay,
                    to: dest,
                    via: relay,
                    payload,
                    hop_count,
                    timestamp,
                }),
            }),
        ],
{
    let m = MessageView::Relay {
        from: claimed_from,
        to: dest,
        via: relay,
        payload,
        hop_count,
        timestamp,
    };
    assert(direct_target(m, originator) == Some(relay));
    assert(direct_target(m, relay) == Some(dest));
    assert(route_spec(originator, m, entries) =~= seq![
        (DeliveryView { conn: relay_conn, msg: with_from(m, originator) }),
    ]);
    assert(route_spec(relay, m, entries) =~= seq![
        (DeliveryView { conn: dest_conn, msg: with_from(m, relay) }),
    ]);
}

/// Drop-silent delivery: a directed message whose resolved addressee is not
/// registered produces no delivery at all — in particular no error reply to
/// the sender. Routing never touches the registry, so the room stays usable.
pub proof fn lemma_drop_silent(sender: Seq<char>, m: MessageView, entries: Seq<(u64, Seq<char>)>)
    requires
        direct_target(m, sender) is Some,
        lookup_in(entries, direct_target(m, sender).unwrap()) is None,
    ensures
        route_spec(sender, m, entries) == Seq::<DeliveryView>::empty(),
{
    assert(route_spec(sender, m, entries) =~= Seq::<DeliveryView>::empty());
}

/// Variants that only the server emits — `Join`, `PeerList`, `Leave`,
/// `Error` — are ignored when they arrive from a client: no delivery.
pub proof fn lemma_server_variants_ignored(sender: Seq<char>, m: MessageView, entries: Seq<(u64, Seq<char>)>)
    requires
        m is Join || m is PeerList || m is Leave || m is Error,
    ensures
        route_spec(sender, m, entries) == Seq::<DeliveryView>::empty(),
{
    assert(route_spec(sender, m, entries) =~= Seq::<DeliveryView>::empty());
}

/// Leave propagation and registry cleanup: when the only connection
/// registered under an identifier closes, every remaining registered
/// connection receives a `Leave` notice for it, and a later lookup of the
/// identifier — hence any later message addressed to it — finds nothing.
pub proof fn lemma_leave_propagation(before: Seq<(u64, Seq<char>)>, conn: u64, p: Seq<char>)
    requires
        id_of_conn(before, conn) == Some(p),
        forall|k: int|
            0 <= k < before.len() && (#[trigger] before[k]).1 == p ==> before[k].0 == conn,
    ensures
        forall|j: int|
            0 <= j < remove_conn(before, conn).len() ==> disconnect_deliveries(
                before,
                conn,
            ).contains(
                (DeliveryView {
                    conn: (#[trigger] remove_conn(before, conn)[j]).0,
                    msg: MessageView::Leave { peer_id: p },
                }),
            ),
        lookup_in(remove_conn(before, conn), p) == None::<u64>,
        forall|s: Seq<char>, m: MessageView|
            #![trigger route_spec(s, m, remove_conn(before, conn))]
            direct_target(m, s) == Some(p) ==> route_spec(s, m, remove_conn(before, conn))
                == Seq::<DeliveryView>::empty(),
{
    let after = remove_conn(before, conn);
    assert(leaver_id(before, conn) == p);
    lemma_remove_conn_lookup_none(before, conn, p);
    assert forall|s: Seq<char>, m: MessageView|
        direct_target(m, s) == Some(p) implies route_spec(s, m, after)
        == Seq::<DeliveryView>::empty() by {
        lemma_drop_silent(s, m, after);
    }
    assert forall|j: int| 0 <= j < after.len() implies disconnect_deliveries(before, conn).contains(
        (DeliveryView { conn: after[j].0, msg: MessageView::Leave { peer_id: p } }),
    ) by {
        lemma_remove_conn_entries(before, conn, j);
        let k = choose|k: int| 0 <= k < before.len() && before[k] == after[j];
        assert(after[j].1 != p);
        lemma_broadcast_conns_complete(after, p, j);
        let bc = broadcast_conns(after, p);
        let i = choose|i: int| 0 <= i < bc.len() && bc[i] == after[j].0;
        lemma_deliveries_for_contains(bc, MessageView::Leave { peer_id: p }, i);
    }
}

/// Reachability broadcast exclusion: a `Reachability` message is delivered,
/// rewritten to name its true sender, to every connection registered under
/// another identifier, and every connection it reaches is registered under
/// another identifier — never back to the sender.
pub proof fn lemma_reachability_exclusion(
    sender: Seq<char>,
    claimed_from: Seq<char>,
    peers: Seq<Seq<char>>,
    entries: Seq<(u64, Seq<char>)>,
)
    ensures
        forall|k: int|
            0 <= k < entries.len() && (#[trigger] entries[k]).1 != sender ==> route_spec(
                sender,
                (MessageView::Reachability { from: claimed_from, reachable_peers: peers }),
                entries,
            ).contains(
                (DeliveryView {
                    conn: entries[k].0,
                    msg: (MessageView::Reachability { from: sender, reachable_peers: peers }),
                }),
            ),
        forall|i: int|
            #![trigger route_spec(sender, (MessageView::Reachability { from: claimed_from, reachable_peers: peers }), entries)[i]]
            0 <= i < route_spec(
                sender,
                (MessageView::Reachability { from: claimed_from, reachable_peers: peers }),
                entries,
            ).len() ==> exists|k: int|
                0 <= k < entries.len() && (#[trigger] entries[k]).0 == route_spec(
                    sender,
                    (MessageView::Reachability { from: claimed_from, reachable_peers: peers }),
                    entries,
                )[i].conn && entries[k].1 != sender,
{
    let m = MessageView::Reachability { from: claimed_from, reachable_peers: peers };
    let out = MessageView::Reachability { from: sender, reachable_peers: peers };
    let ds = route_spec(sender, m, entries);
    let bc = broadcast_conns(entries, sender);
    assert(with_from(m, sender) == out);
    assert forall|k: int| 0 <= k < entries.len() && (#[trigger] entries[k]).1 != sender implies ds.contains(
        (DeliveryView { conn: entries[k].0, msg: out }),
    ) by {
        lemma_broadcast_conns_complete(entries, sender, k);
        let i = choose|i: int| 0 <= i < bc.len() && bc[i] == entries[k].0;
        lemma_deliveries_for_contains(bc, out, i);
    }
    assert forall|i: int| #![trigger ds[i]] 0 <= i < ds.len() implies exists|k: int|
        0 <= k < entries.len() && (#[trigger] entries[k]).0 == ds[i].conn && entries[k].1 != sender by {
        lemma_broadcast_conns_sound(entries, sender, i);
        assert(ds[i].conn == bc[i]);
    }
}

} // verus!
