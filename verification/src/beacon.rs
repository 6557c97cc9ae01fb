//! What a beacon node decides about its peers and their messages.

pub mod heartbeat;
pub mod heartbeat_laws;
pub mod inbound;
pub mod inbound_laws;
pub mod peer;
pub mod peer_laws;
pub mod sampling;
