//! The tracker authority: one record per user and proposal, through which
//! the user's votes reach the counter under a derived, delegated signer.

pub mod instruction;
pub mod processor;
pub mod state;
