//! Decision logic of a validator and of a beacon node.
//!
//! * [`consensus`] holds the safety rules of a round-based BFT protocol: when a validator may
//!   vote for a block, when it may give up on a round, and what it remembers of both.
//! * [`beacon`] holds what a beacon node decides about its peers and about the messages that
//!   they send. The node performs the actions that are decided here and reports back.

pub mod beacon;
pub mod consensus;
pub mod digest;
