//! The tally record and the rule by which a vote changes it.

use crate::address::{address_of, address_of_bytes, Address};
use crate::counter::instruction::VoteInstruction;
use crate::error::VoteError;
use crate::wire::{
    le_u32, le_u64, read_u32, read_u64, u32_bytes_unique, u32_le, u32_round_trip,
    u64_bytes_unique, u64_le, u64_round_trip, write_u32, write_u64,
};
use vstd::prelude::*;

verus! {

/// Number of bytes that a stored tally record takes.
pub const VOTES_LEN: usize = 53;

/// The tally of one proposal.
#[derive(Clone, Copy, Debug, PartialEq, Eq)]
pub struct Votes {
    /// The identity that may change this record; meaningless until
    /// `initialized` is set.
    pub authority: Address,
    /// The proposal that this record tallies.
    pub proposal_number: u32,
    pub approve_count: u64,
    pub reject_count: u64,
    /// Whether `authority` has been bound.
    pub initialized: bool,
}

impl Votes {
    /// The stored form: authority, proposal number, approve count, reject
    /// count, each little-endian, then one byte that is 1 once bound.
    pub open spec fn encoded(self) -> Seq<u8> {
        self.authority@ + u32_le(self.proposal_number) + u64_le(self.approve_count) + u64_le(
            self.reject_count,
        ) + seq![if self.initialized { 1u8 } else { 0u8 }]
    }

    /// The record that stored bytes stand for: there is one where the length
    /// is right and the last byte is 0 or 1.
    pub open spec fn decoded(data: Seq<u8>) -> Option<Votes> {
        if data.len() == 53 && data[52] <= 1 {
            Some(
                Votes {
                    authority: address_of(data.subrange(0, 32)),
                    proposal_number: le_u32(data.subrange(32, 36)) as u32,
                    approve_count: le_u64(data.subrange(36, 44)) as u64,
                    reject_count: le_u64(data.subrange(44, 52)) as u64,
                    initialized: data[52] == 1,
                },
            )
        } else {
            None
        }
    }

    /// What a vote makes of a record. The authority must have signed. An
    /// unbound record is bound to it; a bound one must be bound to it. Then
    /// the vote's counter goes up by one and the other stays.
    pub open spec fn voted(self, authority: Address, is_signer: bool, vote: VoteInstruction) -> Result<
        Votes,
        VoteError,
    > {
        if !is_signer {
            Err(VoteError::MissingAuthorization)
        } else if self.initialized && self.authority != authority {
            Err(VoteError::AuthorityMismatch)
        } else {
            match vote {
                VoteInstruction::Approve => if self.approve_count == u64::MAX {
                    Err(VoteError::CounterOverflow)
                } else {
                    Ok(
                        Votes {
                            authority,
                            initialized: true,
                            approve_count: (self.approve_count + 1) as u64,
                            ..self
                        },
                    )
                },
                VoteInstruction::Reject => if self.reject_count == u64::MAX {
                    Err(VoteError::CounterOverflow)
                } else {
                    Ok(
                        Votes {
                            authority,
                            initialized: true,
                            reject_count: (self.reject_count + 1) as u64,
                            ..self
                        },
                    )
                },
            }
        }
    }

    /// Decodes a stored record.
    pub fn try_from_slice(data: &[u8]) -> (r: Result<Votes, VoteError>)
        ensures
            match r {
                Ok(v) => Self::decoded(data@) == Some(v) && v.encoded() == data@,
                Err(e) => e == VoteError::UninitializedRecord && Self::decoded(data@).is_none(),
            },
    {
        if data.len() != 53 || data[52] > 1 {
            return Err(VoteError::UninitializedRecord);
        }
        proof {
            u32_bytes_unique(data@.subrange(32, 36));
            u64_bytes_unique(data@.subrange(36, 44));
            u64_bytes_unique(data@.subrange(44, 52));
        }
        let v = Votes {
            authority: Address::read(data, 0),
            proposal_number: read_u32(data, 32),
            approve_count: read_u64(data, 36),
            reject_count: read_u64(data, 44),
            initialized: data[52] == 1,
        };
        assert(v.encoded() =~= data@);
        Ok(v)
    }

    /// Encodes the record as it is stored. This never fails.
    pub fn try_to_vec(&self) -> (r: Result<Vec<u8>, VoteError>)
        ensures
            r matches Ok(data) && data@ == self.encoded(),
    {
        let mut data: Vec<u8> = Vec::new();
        self.authority.write(&mut data);
        write_u32(&mut data, self.proposal_number);
        write_u64(&mut data, self.approve_count);
        write_u64(&mut data, self.reject_count);
        data.push(if self.initialized { 1u8 } else { 0u8 });
        assert(data@ =~= self.encoded());
        Ok(data)
    }

    /// Applies a vote to the record, or leaves it as it was and says why.
    pub fn cast(&mut self, authority: &Address, is_signer: bool, vote: VoteInstruction) -> (r: Result<
        (),
        VoteError,
    >)
        ensures
            match r {
                Ok(()) => old(self).voted(*authority, is_signer, vote) == Ok::<Votes, VoteError>(
                    *final(self),
                ),
                Err(e) => old(self).voted(*authority, is_signer, vote) == Err::<Votes, VoteError>(e)
                    && *final(self) == *old(self),
            },
    {
        if !is_signer {
            return Err(VoteError::MissingAuthorization);
        }
        let same = self.authority.same(authority);
        if self.initialized && !same {
            return Err(VoteError::AuthorityMismatch);
        }
        match vote {
            VoteInstruction::Approve => {
                if self.approve_count == u64::MAX {
                    return Err(VoteError::CounterOverflow);
                }
                self.approve_count = self.approve_count + 1;
            },
            VoteInstruction::Reject => {
                if self.reject_count == u64::MAX {
                    return Err(VoteError::CounterOverflow);
                }
                self.reject_count = self.reject_count + 1;
            },
        }
        self.authority = *authority;
        self.initialized = true;
        Ok(())
    }

    /// Casts an approve vote.
    pub fn cast_approve(&mut self, authority: &Address, is_signer: bool) -> (r: Result<(), VoteError>)
        ensures
            match r {
                Ok(()) => old(self).voted(*authority, is_signer, VoteInstruction::Approve) == Ok::<
                    Votes,
                    VoteError,
                >(*final(self)),
                Err(e) => old(self).voted(*authority, is_signer, VoteInstruction::Approve) == Err::<
                    Votes,
                    VoteError,
                >(e) && *final(self) == *old(self),
            },
    {
        self.cast(authority, is_signer, VoteInstruction::Approve)
    }

    /// Casts a reject vote.
    pub fn cast_reject(&mut self, authority: &Address, is_signer: bool) -> (r: Result<(), VoteError>)
        ensures
            match r {
                Ok(()) => old(self).voted(*authority, is_signer, VoteInstruction::Reject) == Ok::<
                    Votes,
                    VoteError,
                >(*final(self)),
                Err(e) => old(self).voted(*authority, is_signer, VoteInstruction::Reject) == Err::<
                    Votes,
                    VoteError,
                >(e) && *final(self) == *old(self),
            },
    {
        self.cast(authority, is_signer, VoteInstruction::Reject)
    }

    /// A vote that succeeds leaves the record bound to the voter, keeps the
    /// proposal, raises the vote's own counter by one and keeps the other.
    /// On a record that was bound before, the authority is the one it had.
    pub proof fn vote_keeps_record(self, authority: Address, is_signer: bool, vote: VoteInstruction)
        requires
            self.voted(authority, is_signer, vote) is Ok,
        ensures
            ({
                let after = self.voted(authority, is_signer, vote).unwrap();
                &&& after.initialized
                &&& after.authority == authority
                &&& self.initialized ==> after.authority == self.authority
                &&& after.proposal_number == self.proposal_number
                &&& after.approve_count + after.reject_count == self.approve_count
                    + self.reject_count + 1
                &&& after.approve_count == self.approve_count + (if vote
                    == VoteInstruction::Approve {
                    1int
                } else {
                    0int
                })
            }),
    {
    }

    /// Decoding a stored record gives the record again.
    pub proof fn round_trip(self)
        ensures
            self.encoded().len() == 53,
            Self::decoded(self.encoded()) == Some(self),
    {
        let data = self.encoded();
        u32_round_trip(self.proposal_number);
        u64_round_trip(self.approve_count);
        u64_round_trip(self.reject_count);
        assert(data.subrange(0, 32) =~= self.authority@);
        assert(data.subrange(32, 36) =~= u32_le(self.proposal_number));
        assert(data.subrange(36, 44) =~= u64_le(self.approve_count));
        assert(data.subrange(44, 52) =~= u64_le(self.reject_count));
        address_of_bytes(self.authority);
    }
}

} // verus!
