//! The tagged-union wire protocol of the signaling room: the message variants
//! peers exchange, their mathematical views, and the `from`-rewriting rule
//! that keeps sender identity trustworthy.

use vstd::prelude::*;

verus! {

/// Mathematical view of a scored relay candidate.
pub ghost struct CandidateView {
    pub peer_id: Seq<char>,
    pub rtt_ms: u32,
    pub reliability_bits: u32,
}

/// A scored candidate relay peer. `reliability_bits` carries the bit pattern
/// of the advertised reliability score; the router never interprets it and
/// passes it through verbatim.
pub struct RelayCandidate {
    pub peer_id: String,
    pub rtt_ms: u32,
    pub reliability_bits: u32,
}

impl View for RelayCandidate {
    type V = CandidateView;

    open spec fn view(&self) -> CandidateView {
        CandidateView { peer_id: self.peer_id@, rtt_ms: self.rtt_ms, reliability_bits: self.reliability_bits }
    }
}

impl DeepView for RelayCandidate {
    type V = CandidateView;

    open spec fn deep_view(&self) -> CandidateView {
        self@
    }
}

/// Mathematical view of a signaling message.
pub ghost enum MessageView {
    Join { room_id: Seq<char>, peer_id: Seq<char> },
    Offer { from: Seq<char>, to: Seq<char>, sdp: Option<Seq<char>>, sdp_compressed: Option<Seq<char>> },
    Answer { from: Seq<char>, to: Seq<char>, sdp: Option<Seq<char>>, sdp_compressed: Option<Seq<char>> },
    IceCandidate { from: Seq<char>, to: Seq<char>, candidate: Seq<char> },
    PeerList { peers: Seq<Seq<char>> },
    Leave { peer_id: Seq<char> },
    Error { message: Seq<char> },
    Relay { from: Seq<char>, to: Seq<char>, via: Seq<char>, payload: Seq<char>, hop_count: u32, timestamp: u64 },
    RelayRequest { from: Seq<char>, to: Seq<char>, target_peer: Seq<char> },
    RelayResponse { from: Seq<char>, to: Seq<char>, candidates: Seq<CandidateView> },
    Reachability { from: Seq<char>, reachable_peers: Seq<Seq<char>> },
}

/// One message of the room's wire protocol, a closed tagged union.
///
/// `Join`, `PeerList`, `Leave` and `Error` are server-emitted notifications
/// only; the router ignores them when they arrive from a client.
pub enum SignalingMessage {
    Join { room_id: String, peer_id: String },
    Offer { from: String, to: String, sdp: Option<String>, sdp_compressed: Option<String> },
    Answer { from: String, to: String, sdp: Option<String>, sdp_compressed: Option<String> },
    IceCandidate { from: String, to: String, candidate: String },
    PeerList { peers: Vec<String> },
    Leave { peer_id: String },
    Error { message: String },
    Relay { from: String, to: String, via: String, payload: String, hop_count: u32, timestamp: u64 },
    RelayRequest { from: String, to: String, target_peer: String },
    RelayResponse { from: String, to: String, candidates: Vec<RelayCandidate> },
    Reachability { from: String, reachable_peers: Vec<String> },
}

impl View for SignalingMessage {
    type V = MessageView;

    open spec fn view(&self) -> MessageView {
        match self {
            SignalingMessage::Join { room_id, peer_id } => MessageView::Join { room_id: room_id@, peer_id: peer_id@ },
            SignalingMessage::Offer { from, to, sdp, sdp_compressed } => MessageView::Offer {
                from: from@,
                to: to@,
                sdp: sdp.deep_view(),
                sdp_compressed: sdp_compressed.deep_view(),
            },
            SignalingMessage::Answer { from, to, sdp, sdp_compressed } => MessageView::Answer {
                from: from@,
                to: to@,
                sdp: sdp.deep_view(),
                sdp_compressed: sdp_compressed.deep_view(),
            },
            SignalingMessage::IceCandidate { from, to, candidate } => MessageView::IceCandidate {
                from: from@,
                to: to@,
                candidate: candidate@,
            },
            SignalingMessage::PeerList { peers } => MessageView::PeerList { peers: peers.deep_view() },
            SignalingMessage::Leave { peer_id } => MessageView::Leave { peer_id: peer_id@ },
            SignalingMessage::Error { message } => MessageView::Error { message: message@ },
            SignalingMessage::Relay { from, to, via, payload, hop_count, timestamp } => MessageView::Relay {
                from: from@,
                to: to@,
                via: via@,
                payload: payload@,
                hop_count: *hop_count,
                timestamp: *timestamp,
            },
            SignalingMessage::RelayRequest { from, to, target_peer } => MessageView::RelayRequest {
                from: from@,
                to: to@,
                target_peer: target_peer@,
            },
            SignalingMessage::RelayResponse { from, to, candidates } => MessageView::RelayResponse {
                from: from@,
                to: to@,
                candidates: candidates.deep_view(),
            },
            SignalingMessage::Reachability { from, reachable_peers } => MessageView::Reachability {
                from: from@,
                reachable_peers: reachable_peers.deep_view(),
            },
        }
    }
}

impl DeepView for SignalingMessage {
    type V = MessageView;

    open spec fn deep_view(&self) -> MessageView {
        self@
    }
}

/// The message as the router forwards it: the untrusted inbound `from` field
/// replaced by the registry-known identifier of the sending connection.
/// Variants that are never forwarded pass through unchanged.
pub open spec fn with_from(m: MessageView, sender: Seq<char>) -> MessageView {
    match m {
        MessageView::Offer { from, to, sdp, sdp_compressed } => MessageView::Offer { from: sender, to, sdp, sdp_compressed },
        MessageView::Answer { from, to, sdp, sdp_compressed } => MessageView::Answer { from: sender, to, sdp, sdp_compressed },
        MessageView::IceCandidate { from, to, candidate } => MessageView::IceCandidate { from: sender, to, candidate },
        MessageView::Relay { from, to, via, payload, hop_count, timestamp } => MessageView::Relay {
            from: sender,
            to,
            via,
            payload,
            hop_count,
            timestamp,
        },
        MessageView::RelayRequest { from, to, target_peer } => MessageView::RelayRequest { from: sender, to, target_peer },
        MessageView::RelayResponse { from, to, candidates } => MessageView::RelayResponse { from: sender, to, candidates },
        MessageView::Reachability { from, reachable_peers } => MessageView::Reachability { from: sender, reachable_peers },
        _ => m,
    }
}

/// The sender identifier a message claims, for the variants that carry one.
pub open spec fn from_of(m: MessageView) -> Option<Seq<char>> {
    match m {
        MessageView::Offer { from, .. } => Some(from),
        MessageView::Answer { from, .. } => Some(from),
        MessageView::IceCandidate { from, .. } => Some(from),
        MessageView::Relay { from, .. } => Some(from),
        MessageView::RelayRequest { from, .. } => Some(from),
        MessageView::RelayResponse { from, .. } => Some(from),
        MessageView::Reachability { from, .. } => Some(from),
        _ => None,
    }
}

/// The single addressee of a directed message, resolved for the sender:
/// a `Relay` sent by its designated relay peer is addressed to the final
/// destination, one sent by anybody else to the relay peer. `None` for
/// broadcast and for variants not accepted from clients.
pub open spec fn direct_target(m: MessageView, sender: Seq<char>) -> Option<Seq<char>> {
    match m {
        MessageView::Offer { to, .. } => Some(to),
        MessageView::Answer { to, .. } => Some(to),
        MessageView::IceCandidate { to, .. } => Some(to),
        MessageView::RelayRequest { to, .. } => Some(to),
        MessageView::RelayResponse { to, .. } => Some(to),
        MessageView::Relay { to, via, .. } => if sender == via {
            Some(to)
        } else {
            Some(via)
        },
        _ => None,
    }
}

/// Whether the router broadcasts the message to every other registered peer.
pub open spec fn is_broadcast(m: MessageView) -> bool {
    m is Reachability
}

fn dup_opt_string(o: &Option<String>) -> (r: Option<String>)
    ensures
        r.deep_view() == o.deep_view(),
{
    match o {
        Some(s) => Some(s.clone()),
        None => None,
    }
}

fn dup_strings(v: &Vec<String>) -> (r: Vec<String>)
    ensures
        r.deep_view() == v.deep_view(),
{
    let mut out: Vec<String> = Vec::new();
    let mut i: usize = 0;
    while i < v.len()
        invariant
            i <= v.len(),
            out.deep_view() == v.deep_view().take(i as int),
        decreases v.len() - i,
    {
        let ghost prev = out.deep_view();
        out.push(v[i].clone());
        i = i + 1;
        proof {
            assert(out.deep_view() =~= prev.push(v@[i - 1]@));
            assert(prev.push(v@[i - 1]@) =~= v.deep_view().take(i as int));
        }
    }
    proof {
        assert(v.deep_view().take(v.deep_view().len() as int) =~= v.deep_view());
    }
    out
}

fn dup_candidates(v: &Vec<RelayCandidate>) -> (r: Vec<RelayCandidate>)
    ensures
        r.deep_view() == v.deep_view(),
{
    let mut out: Vec<RelayCandidate> = Vec::new();
    let mut i: usize = 0;
    while i < v.len()
        invariant
            i <= v.len(),
            out.deep_view() == v.deep_view().take(i as int),
        decreases v.len() - i,
    {
        let ghost prev = out.deep_view();
        out.push(RelayCandidate {
            peer_id: v[i].peer_id.clone(),
            rtt_ms: v[i].rtt_ms,
            reliability_bits: v[i].reliability_bits,
        });
        i = i + 1;
        proof {
            assert(out.deep_view() =~= prev.push(v@[i - 1]@));
            assert(prev.push(v@[i - 1]@) =~= v.deep_view().take(i as int));
        }
    }
    proof {
        assert(v.deep_view().take(v.deep_view().len() as int) =~= v.deep_view());
    }
    out
}

impl SignalingMessage {
    /// A structurally equal copy, proved to share the message's view.
    pub fn duplicate(&self) -> (r: Self)
        ensures
            r@ == self@,
    {
        match self {
            SignalingMessage::Join { room_id, peer_id } => SignalingMessage::Join {
                room_id: room_id.clone(),
                peer_id: peer_id.clone(),
            },
            SignalingMessage::Offer { from, to, sdp, sdp_compressed } => SignalingMessage::Offer {
                from: from.clone(),
                to: to.clone(),
                sdp: dup_opt_string(sdp),
                sdp_compressed: dup_opt_string(sdp_compressed),
            },
            SignalingMessage::Answer { from, to, sdp, sdp_compressed } => SignalingMessage::Answer {
                from: from.clone(),
                to: to.clone(),
                sdp: dup_opt_string(sdp),
                sdp_compressed: dup_opt_string(sdp_compressed),
            },
            SignalingMessage::IceCandidate { from, to, candidate } => SignalingMessage::IceCandidate {
                from: from.clone(),
                to: to.clone(),
                candidate: candidate.clone(),
            },
            SignalingMessage::PeerList { peers } => SignalingMessage::PeerList { peers: dup_strings(peers) },
            SignalingMessage::Leave { peer_id } => SignalingMessage::Leave { peer_id: peer_id.clone() },
            SignalingMessage::Error { message } => SignalingMessage::Error { message: message.clone() },
            SignalingMessage::Relay { from, to, via, payload, hop_count, timestamp } => SignalingMessage::Relay {
                from: from.clone(),
                to: to.clone(),
                via: via.clone(),
                payload: payload.clone(),
                hop_count: *hop_count,
                timestamp: *timestamp,
            },
            SignalingMessage::RelayRequest { from, to, target_peer } => SignalingMessage::RelayRequest {
                from: from.clone(),
                to: to.clone(),
                target_peer: target_peer.clone(),
            },
            SignalingMessage::RelayResponse { from, to, candidates } => SignalingMessage::RelayResponse {
                from: from.clone(),
                to: to.clone(),
                candidates: dup_candidates(candidates),
            },
            SignalingMessage::Reachability { from, reachable_peers } => SignalingMessage::Reachability {
                from: from.clone(),
                reachable_peers: dup_strings(reachable_peers),
            },
        }
    }
}

} // verus!
