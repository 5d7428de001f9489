//! The record of one user's votes on one proposal.

use crate::address::{address_of, address_of_bytes, Address};
use crate::counter::instruction::VoteInstruction;
use crate::derivation::{delegate_seed_list, derives_to, tracker_seed_list};
use crate::error::VoteError;
use crate::wire::{le_u64, read_u64, u64_bytes_unique, u64_le, u64_round_trip, write_u64};
use vstd::prelude::*;

verus! {

/// Number of bytes that a stored tracker record takes.
pub const TRACKER_LEN: usize = 50;

/// One user's votes on one proposal, with the bumps that tie the record and
/// its delegated signer to their derived addresses.
#[derive(Clone, Copy, Debug, PartialEq, Eq)]
pub struct VoteTracker {
    /// Bump of the record's own address.
    pub bump: u8,
    /// Bump of the delegated signer's address.
    pub auth_bump: u8,
    /// The tally record that this tracker votes into.
    pub proposal_to_vote: Address,
    pub approve_count: u64,
    pub reject_count: u64,
}

impl VoteTracker {
    /// The stored form: the two bumps, the tally record's address, then the
    /// approve and reject counts, little-endian.
    pub open spec fn encoded(self) -> Seq<u8> {
        seq![self.bump, self.auth_bump] + self.proposal_to_vote@ + u64_le(self.approve_count)
            + u64_le(self.reject_count)
    }

    /// The record that stored bytes stand for: there is one where the length
    /// is right.
    pub open spec fn decoded(data: Seq<u8>) -> Option<VoteTracker> {
        if data.len() == 50 {
            Some(
                VoteTracker {
                    bump: data[0],
                    auth_bump: data[1],
                    proposal_to_vote: address_of(data.subrange(2, 34)),
                    approve_count: le_u64(data.subrange(34, 42)) as u64,
                    reject_count: le_u64(data.subrange(42, 50)) as u64,
                },
            )
        } else {
            None
        }
    }

    /// The bumps are those of the record's own address and of its delegated
    /// signer: under `program`, the seeds of `user` and `counter` closed
    /// with `bump` yield `tracker`, and the seed of `counter` closed with
    /// `auth_bump` yields `delegate`.
    pub open spec fn well_derived(
        self,
        program: Address,
        user: Address,
        counter: Address,
        tracker: Address,
        delegate: Address,
    ) -> bool {
        &&& derives_to(tracker_seed_list(user@, counter@), self.bump, program@, tracker@)
        &&& derives_to(delegate_seed_list(counter@), self.auth_bump, program@, delegate@)
    }

    /// The record as first written: no votes yet.
    pub open spec fn fresh(bump: u8, auth_bump: u8, proposal_to_vote: Address) -> VoteTracker {
        VoteTracker { bump, auth_bump, proposal_to_vote, approve_count: 0, reject_count: 0 }
    }

    /// The record after one more vote of the given kind, or an error where
    /// the counter cannot grow.
    pub open spec fn voted(self, vote: VoteInstruction) -> Result<VoteTracker, VoteError> {
        match vote {
            VoteInstruction::Approve => if self.approve_count == u64::MAX {
                Err(VoteError::CounterOverflow)
            } else {
                Ok(VoteTracker { approve_count: (self.approve_count + 1) as u64, ..self })
            },
            VoteInstruction::Reject => if self.reject_count == u64::MAX {
                Err(VoteError::CounterOverflow)
            } else {
                Ok(VoteTracker { reject_count: (self.reject_count + 1) as u64, ..self })
            },
        }
    }

    /// Makes the record as first written.
    pub fn new(bump: u8, auth_bump: u8, proposal_to_vote: Address) -> (t: VoteTracker)
        ensures
            t == Self::fresh(bump, auth_bump, proposal_to_vote),
    {
        VoteTracker { bump, auth_bump, proposal_to_vote, approve_count: 0, reject_count: 0 }
    }

    /// Decodes a stored record.
    pub fn try_from_slice(data: &[u8]) -> (r: Result<VoteTracker, VoteError>)
        ensures
            match r {
                Ok(v) => Self::decoded(data@) == Some(v) && v.encoded() == data@,
                Err(e) => e == VoteError::UninitializedRecord && Self::decoded(data@).is_none(),
            },
    {
        if data.len() != 50 {
            return Err(VoteError::UninitializedRecord);
        }
        proof {
            u64_bytes_unique(data@.subrange(34, 42));
            u64_bytes_unique(data@.subrange(42, 50));
        }
        let v = VoteTracker {
            bump: data[0],
            auth_bump: data[1],
            proposal_to_vote: Address::read(data, 2),
            approve_count: read_u64(data, 34),
            reject_count: read_u64(data, 42),
        };
        assert(v.encoded() =~= data@);
        Ok(v)
    }

    /// Encodes the record as it is stored. This never fails.
    pub fn try_to_vec(&self) -> (r: Result<Vec<u8>, VoteError>)
        ensures
            r matches Ok(data) && data@ == self.encoded(),
    {
        let mut data: Vec<u8> = Vec::new();
        data.push(self.bump);
        data.push(self.auth_bump);
        self.proposal_to_vote.write(&mut data);
        write_u64(&mut data, self.approve_count);
        write_u64(&mut data, self.reject_count);
        assert(data@ =~= self.encoded());
        Ok(data)
    }

    /// Counts one more vote, or leaves the record as it was where the
    /// counter cannot grow.
    pub fn record_vote(&mut self, vote: VoteInstruction) -> (r: Result<(), VoteError>)
        ensures
            match r {
                Ok(()) => old(self).voted(vote) == Ok::<VoteTracker, VoteError>(*final(self)),
                Err(e) => old(self).voted(vote) == Err::<VoteTracker, VoteError>(e) && *final(self)
                    == *old(self),
            },
    {
        match vote {
            VoteInstruction::Approve => {
                if self.approve_count == u64::MAX {
                    return Err(VoteError::CounterOverflow);
                }
                self.approve_count = self.approve_count + 1;
            },
            VoteInstruction::Reject => {
                if self.reject_count == u64::MAX {
                    return Err(VoteError::CounterOverflow);
                }
                self.reject_count = self.reject_count + 1;
            },
        }
        Ok(())
    }

    /// A vote that is counted keeps the bumps and the tally record that the
    /// tracker refers to, raises the vote's own counter by one and keeps the
    /// other. So a record that was well derived stays so.
    pub proof fn vote_keeps_record(self, vote: VoteInstruction)
        requires
            self.voted(vote) is Ok,
        ensures
            ({
                let after = self.voted(vote).unwrap();
                &&& after.bump == self.bump
                &&& after.auth_bump == self.auth_bump
                &&& after.proposal_to_vote == self.proposal_to_vote
                &&& after.approve_count + after.reject_count == self.approve_count
                    + self.reject_count + 1
                &&& after.approve_count == self.approve_count + (if vote
                    == VoteInstruction::Approve {
                    1int
                } else {
                    0int
                })
                &&& forall|
                    program: Address,
                    user: Address,
                    counter: Address,
                    tracker: Address,
                    delegate: Address,
                |
                    self.well_derived(program, user, counter, tracker, delegate)
                        ==> #[trigger] after.well_derived(program, user, counter, tracker, delegate)
            }),
    {
    }

    /// Decoding a stored record gives the record again.
    pub proof fn round_trip(self)
        ensures
            self.encoded().len() == 50,
            Self::decoded(self.encoded()) == Some(self),
    {
        let data = self.encoded();
        u64_round_trip(self.approve_count);
        u64_round_trip(self.reject_count);
        assert(data.subrange(2, 34) =~= self.proposal_to_vote@);
        assert(data.subrange(34, 42) =~= u64_le(self.approve_count));
        assert(data.subrange(42, 50) =~= u64_le(self.reject_count));
        address_of_bytes(self.proposal_to_vote);
    }
}

} // verus!
