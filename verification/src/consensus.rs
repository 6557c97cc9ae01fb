//! The safety rules of the consensus protocol and the messages that they speak of.

pub mod certificate;
pub mod laws;
pub mod ledger;
pub mod message;
pub mod safety;
