//! Core logic of a relay that bridges two Substrate-style chains.
//!
//! The relay watches finality on a source chain and feeds proofs of it to a
//! light client on a target chain. This crate holds the decisions of that
//! relay as verified functions over plain values; networking, signing and the
//! command line live with the caller.

pub mod chain;
mod codec;
pub mod fees;
pub mod finality;
pub mod guards;
pub mod hashing;
pub mod init_bridge;
pub mod parachains;
pub mod primitives;
pub mod relay;
pub mod storage;
pub mod test_chain;
pub mod transactions;
pub mod westend;
