//! The message router: pure dispatch logic. Given the registry-known sender
//! identifier, an inbound message and a registry snapshot, it decides which
//! registered connections receive which (rewritten) message. It never
//! replies to the sender on a drop and never mutates the registry.

use vstd::prelude::*;

use crate::message::MessageView;
use crate::message::SignalingMessage;
use crate::message::direct_target;
use crate::message::is_broadcast;
use crate::message::with_from;
use crate::registry::Registry;
use crate::registry::lookup_in;

verus! {

/// Mathematical view of one outbound delivery.
pub ghost struct DeliveryView {
    pub conn: u64,
    pub msg: MessageView,
}

/// One outbound delivery: the connection handle to send on and the message
/// to send.
pub struct Delivery {
    pub conn: u64,
    pub msg: SignalingMessage,
}

impl View for Delivery {
    type V = DeliveryView;

    open spec fn view(&self) -> DeliveryView {
        DeliveryView { conn: self.conn, msg: self.msg@ }
    }
}

impl DeepView for Delivery {
    type V = DeliveryView;

    open spec fn deep_view(&self) -> DeliveryView {
        self@
    }
}

/// The connection handles a broadcast reaches: every registered entry, in
/// registration order, whose identifier differs from the excluded one.
pub open spec fn broadcast_conns(entries: Seq<(u64, Seq<char>)>, excluded: Seq<char>) -> Seq<u64>
    decreases entries.len(),
{
    if entries.len() == 0 {
        Seq::empty()
    } else {
        let rest = broadcast_conns(entries.drop_last(), excluded);
        if entries.last().1 == excluded {
            rest
        } else {
            rest.push(entries.last().0)
        }
    }
}

/// Zero or one connection handles, from an optional lookup result.
pub open spec fn opt_conns(target: Option<u64>) -> Seq<u64> {
    match target {
        Some(c) => seq![c],
        None => Seq::empty(),
    }
}

/// The connection handles an inbound message is dispatched to: the addressee
/// of a directed message when registered (silently none when not), every
/// other peer for a broadcast, none for variants not accepted from clients.
pub open spec fn route_conns(sender: Seq<char>, m: MessageView, entries: Seq<(u64, Seq<char>)>) -> Seq<u64> {
    if is_broadcast(m) {
        broadcast_conns(entries, sender)
    } else {
        match direct_target(m, sender) {
            Some(t) => opt_conns(lookup_in(entries, t)),
            None => Seq::empty(),
        }
    }
}

/// The same message fanned out to a list of connections.
pub open spec fn deliveries_for(conns: Seq<u64>, m: MessageView) -> Seq<DeliveryView> {
    conns.map_values(|c: u64| DeliveryView { conn: c, msg: m })
}

/// Everything the router sends for one inbound message: the dispatched
/// connections each receive the message with its `from` field overwritten by
/// the registry-known sender identifier.
pub open spec fn route_spec(sender: Seq<char>, m: MessageView, entries: Seq<(u64, Seq<char>)>) -> Seq<DeliveryView> {
    deliveries_for(route_conns(sender, m, entries), with_from(m, sender))
}

/// Fans one message out to every registered connection whose identifier
/// differs from `excluded`, in registration order.
pub(crate) fn broadcast_except(reg: &Registry, excluded: &String, msg: SignalingMessage) -> (r: Vec<Delivery>)
    ensures
        r.deep_view() == deliveries_for(broadcast_conns(reg@, excluded@), msg@),
{
    let mut out: Vec<Delivery> = Vec::new();
    let mut i: usize = 0;
    while i < reg.len()
        invariant
            i <= reg@.len(),
            out.deep_view() == deliveries_for(broadcast_conns(reg@.take(i as int), excluded@), msg@),
        decreases reg@.len() - i,
    {
        let ghost prev = out.deep_view();
        let entry = reg.entry_at(i);
        if entry.peer_id != *excluded {
            out.push(Delivery { conn: entry.conn, msg: msg.duplicate() });
            proof {
                assert(out.deep_view() =~= prev.push(DeliveryView { conn: reg@[i as int].0, msg: msg@ }));
            }
        }
        i = i + 1;
        proof {
            assert(reg@.take(i as int).drop_last() =~= reg@.take(i as int - 1));
            assert(reg@.take(i as int).last() == reg@[i as int - 1]);
            assert(out.deep_view() =~= deliveries_for(broadcast_conns(reg@.take(i as int), excluded@), msg@));
        }
    }
    proof {
        assert(reg@.take(reg@.len() as int) =~= reg@);
    }
    out
}

/// Zero or one deliveries of a message, to a looked-up connection if there
/// was one.
fn deliver_opt(target: Option<u64>, msg: SignalingMessage) -> (r: Vec<Delivery>)
    ensures
        r.deep_view() == deliveries_for(opt_conns(target), msg@),
{
    let mut out: Vec<Delivery> = Vec::new();
    match target {
        Some(c) => {
            out.push(Delivery { conn: c, msg });
        },
        None => {},
    }
    proof {
        assert(out.deep_view() =~= deliveries_for(opt_conns(target), msg@));
    }
    out
}

/// Dispatches one inbound message. `sender` is the registry-known identifier
/// of the sending connection; whatever `from` the message claims is
/// overwritten with it. A directed message goes to its addressee's
/// registered connection and is silently dropped when the addressee is
/// absent; a `Relay` goes to its designated relay peer, or, when the sender
/// is that relay peer, on to the final destination; a `Reachability` is
/// broadcast to every other registered peer; server-emitted variants arriving
/// from a client are ignored.
pub fn route(reg: &Registry, sender: &String, msg: SignalingMessage) -> (r: Vec<Delivery>)
    ensures
        r.deep_view() == route_spec(sender@, msg@, reg@),
{
    match msg {
        SignalingMessage::Offer { from: _, to, sdp, sdp_compressed } => {
            let target = reg.lookup(&to);
            deliver_opt(target, SignalingMessage::Offer { from: sender.clone(), to, sdp, sdp_compressed })
        },
        SignalingMessage::Answer { from: _, to, sdp, sdp_compressed } => {
            let target = reg.lookup(&to);
            deliver_opt(target, SignalingMessage::Answer { from: sender.clone(), to, sdp, sdp_compressed })
        },
        SignalingMessage::IceCandidate { from: _, to, candidate } => {
            let target = reg.lookup(&to);
            deliver_opt(target, SignalingMessage::IceCandidate { from: sender.clone(), to, candidate })
        },
        SignalingMessage::Relay { from: _, to, via, payload, hop_count, timestamp } => {
            let target = if *sender == via {
                reg.lookup(&to)
            } else {
                reg.lookup(&via)
            };
            deliver_opt(target, SignalingMessage::Relay {
                from: sender.clone(),
                to,
                via,
                payload,
                hop_count,
                timestamp,
            })
        },
        SignalingMessage::RelayRequest { from: _, to, target_peer } => {
            let target = reg.lookup(&to);
            deliver_opt(target, SignalingMessage::RelayRequest { from: sender.clone(), to, target_peer })
        },
        SignalingMessage::RelayResponse { from: _, to, candidates } => {
            let target = reg.lookup(&to);
            deliver_opt(target, SignalingMessage::RelayResponse { from: sender.clone(), to, candidates })
        },
        SignalingMessage::Reachability { from: _, reachable_peers } => {
            broadcast_except(reg, sender, SignalingMessage::Reachability {
                from: sender.clone(),
                reachable_peers,
            })
        },
        _ => {
            let out: Vec<Delivery> = Vec::new();
            proof {
                assert(out.deep_view() =~= route_spec(sender@, msg@, reg@));
            }
            out
        },
    }
}

} // verus!
