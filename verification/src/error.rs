//! The ways a call can fail.

use vstd::prelude::*;

verus! {

/// Why a call was rejected. Every error is fatal to the call that raised it.
#[derive(Clone, Copy, Debug, PartialEq, Eq, Structural)]
pub enum VoteError {
    /// A required signer flag is absent.
    MissingAuthorization,
    /// The presented identity is not the authority bound to the record.
    AuthorityMismatch,
    /// A supplied address is not the one the seeds derive.
    InvalidDerivation,
    /// A record was read before it was created, or its bytes do not decode.
    UninitializedRecord,
    /// The account to create already exists.
    AccountAlreadyInUse,
    /// The instruction bytes or the account list cannot be understood.
    MalformedInstruction,
    /// A vote counter already holds the largest value a `u64` can take.
    CounterOverflow,
}

} // verus!
