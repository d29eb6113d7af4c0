//! Room-scoped signaling core for a peer-to-peer real-time-communication
//! application: a peer registry, pure message-routing rules (direct
//! addressing, broadcast, two-hop relay), and the connect/message/disconnect
//! lifecycle of a room.

pub mod laws;
pub mod message;
pub mod registry;
pub mod room;
pub mod router;

pub use message::RelayCandidate;
pub use message::SignalingMessage;
