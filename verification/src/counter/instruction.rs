//! The calls that the counter authority accepts.

use crate::account::{AccountMeta, Instruction};
use crate::address::Address;
use crate::error::VoteError;
use vstd::prelude::*;

verus! {

/// A vote: a tag byte with no payload.
#[derive(Clone, Copy, Debug, PartialEq, Eq, Structural)]
pub enum VoteInstruction {
    Approve,
    Reject,
}

impl VoteInstruction {
    /// The payload that stands for this vote.
    pub open spec fn encoded(self) -> Seq<u8> {
        match self {
            VoteInstruction::Approve => seq![0u8],
            VoteInstruction::Reject => seq![1u8],
        }
    }

    /// The vote that a payload stands for, if it stands for one.
    pub open spec fn decoded(data: Seq<u8>) -> Option<VoteInstruction> {
        if data.len() == 1 && data[0] == 0 {
            Some(VoteInstruction::Approve)
        } else if data.len() == 1 && data[0] == 1 {
            Some(VoteInstruction::Reject)
        } else {
            None
        }
    }

    /// Decodes a payload. It must be the tag byte and nothing more.
    pub fn try_from_slice(data: &[u8]) -> (r: Result<VoteInstruction, VoteError>)
        ensures
            match r {
                Ok(v) => Self::decoded(data@) == Some(v),
                Err(e) => e == VoteError::MalformedInstruction && Self::decoded(data@).is_none(),
            },
    {
        if data.len() != 1 {
            Err(VoteError::MalformedInstruction)
        } else if data[0] == 0 {
            Ok(VoteInstruction::Approve)
        } else if data[0] == 1 {
            Ok(VoteInstruction::Reject)
        } else {
            Err(VoteError::MalformedInstruction)
        }
    }

    /// Encodes the vote as its payload. This never fails.
    pub fn try_to_vec(&self) -> (r: Result<Vec<u8>, VoteError>)
        ensures
            r matches Ok(data) && data@ == self.encoded(),
    {
        let mut data: Vec<u8> = Vec::new();
        match self {
            VoteInstruction::Approve => data.push(0u8),
            VoteInstruction::Reject => data.push(1u8),
        }
        assert(data@ =~= self.encoded());
        Ok(data)
    }

    /// Decoding an encoded vote gives the vote again.
    pub proof fn round_trip(self)
        ensures
            Self::decoded(self.encoded()) == Some(self),
    {
    }
}

/// The accounts of a vote, in the order the counter expects: the tally
/// record, writable, then the authority, read-only and signing.
pub open spec fn vote_accounts(votes: Address, authority: Address) -> Seq<AccountMeta> {
    seq![
        AccountMeta { pubkey: votes, is_signer: false, is_writable: true },
        AccountMeta { pubkey: authority, is_signer: true, is_writable: false },
    ]
}

/// Builds the call that casts `instruction` on the tally record `votes`,
/// authorised by `authority`, for the counter program `program_id`. This
/// never fails.
pub fn generate_vote_instruction(
    program_id: Address,
    votes: Address,
    authority: Address,
    instruction: VoteInstruction,
) -> (r: Result<Instruction, VoteError>)
    ensures
        r matches Ok(ix) && ix.program_id == program_id && ix.accounts@ == vote_accounts(
            votes,
            authority,
        ) && ix.data@ == instruction.encoded(),
{
    let mut accounts: Vec<AccountMeta> = Vec::new();
    accounts.push(AccountMeta::new(votes, false));
    accounts.push(AccountMeta::new_readonly(authority, true));
    assert(accounts@ =~= vote_accounts(votes, authority));
    let data = match instruction.try_to_vec() {
        Ok(data) => data,
        Err(e) => {
            return Err(e);
        },
    };
    Ok(Instruction { program_id, accounts, data })
}

} // verus!
