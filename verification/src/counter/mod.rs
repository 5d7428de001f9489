//! The counter authority: one shared tally of approve and reject votes per
//! proposal, changed only by the authority bound to it on first use.

pub mod instruction;
pub mod processor;
pub mod state;
