//! Consensus core of a simplified Tendermint-style Byzantine-fault-tolerant
//! replication protocol.
//!
//! A set of processes agrees, round by round, on one value per height: a
//! proposer broadcasts a candidate value, every process exchanges prevotes
//! and precommits over it, and a value commits once a quorum of matching
//! precommits is observed.  Every protocol message travels inside a signed
//! envelope; a message whose signature does not verify never reaches a tally.
//!
//! The crate verifies the decision logic: proposer rotation, the canonical
//! byte encoding that signatures cover, quorum tallying, and the per-round
//! state transitions.  Transport and key generation call into outside
//! libraries through a small set of trusted wrappers.

pub mod algos;
pub mod codec;
pub mod config;
pub mod crypto;
pub mod events;
pub mod messages;
pub mod params;
pub mod process;
