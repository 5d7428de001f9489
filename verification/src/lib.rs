//! On-ledger voting in two tiers: a shared counter that tallies approve and
//! reject votes for a proposal, and a per-user tracker that forwards each vote
//! to the counter through a program-derived signer.

pub mod account;
pub mod address;
pub mod counter;
pub mod derivation;
pub mod error;
pub mod tracker;
pub mod wire;
