//! The counter authority's entry point.

use crate::account::{store, stored, Account};
use crate::address::Address;
use crate::counter::instruction::VoteInstruction;
use crate::counter::state::Votes;
use crate::error::VoteError;
use vstd::prelude::*;

verus! {

/// `Ok` where `statement` holds, `err` where it does not. The message says
/// what was expected and takes no part in the outcome.
#[allow(unused_variables)]
pub fn assert_with_msg(statement: bool, err: VoteError, msg: &str) -> (r: Result<(), VoteError>)
    ensures
        r == (if statement {
            Ok::<(), VoteError>(())
        } else {
            Err::<(), VoteError>(err)
        }),
{
    if !statement {
        Err(err)
    } else {
        Ok(())
    }
}

pub struct Processor {}

impl Processor {
    /// What a call does: the bytes that the tally record holds afterwards, or
    /// the error that ends the call. The accounts are the tally record, then
    /// the authority; the checks come in this order: the payload, the account
    /// list, the signature, the stored record, the vote itself.
    pub open spec fn processed(accounts: Seq<Account>, instruction_data: Seq<u8>) -> Result<
        Seq<u8>,
        VoteError,
    > {
        match VoteInstruction::decoded(instruction_data) {
            None => Err(VoteError::MalformedInstruction),
            Some(vote) => if accounts.len() < 2 {
                Err(VoteError::MalformedInstruction)
            } else if !accounts[1].is_signer {
                Err(VoteError::MissingAuthorization)
            } else {
                match Votes::decoded(accounts[0].data@) {
                    None => Err(VoteError::UninitializedRecord),
                    Some(votes) => match votes.voted(accounts[1].key, true, vote) {
                        Ok(after) => Ok(after.encoded()),
                        Err(e) => Err(e),
                    },
                }
            },
        }
    }

    /// Casts the vote that `instruction_data` holds on the tally record
    /// `accounts[0]`, authorised by `accounts[1]`. On success the record's
    /// bytes are replaced; on any error nothing is written.
    pub fn process_instruction(
        _program_id: &Address,
        accounts: &mut Vec<Account>,
        instruction_data: &[u8],
    ) -> (r: Result<(), VoteError>)
        ensures
            match r {
                Ok(()) => Self::processed(old(accounts)@, instruction_data@) matches Ok(data)
                    && stored(old(accounts)@, final(accounts)@, 0, data),
                Err(e) => Self::processed(old(accounts)@, instruction_data@) == Err::<
                    Seq<u8>,
                    VoteError,
                >(e) && final(accounts)@ == old(accounts)@,
            },
    {
        let vote = VoteInstruction::try_from_slice(instruction_data)?;
        if accounts.len() < 2 {
            return Err(VoteError::MalformedInstruction);
        }
        let authority = accounts[1].key;
        let is_signer = accounts[1].is_signer;
        assert_with_msg(is_signer, VoteError::MissingAuthorization, "Authority must sign")?;
        let mut votes = Votes::try_from_slice(accounts[0].data.as_slice())?;
        votes.cast(&authority, is_signer, vote)?;
        let data = votes.try_to_vec()?;
        store(accounts, 0, data);
        Ok(())
    }
}

/// The first vote on an unbound record binds it to the caller and succeeds,
/// and a vote that another identity then casts on it is refused as a
/// mismatch. This holds while the first vote's counter has room to grow.
pub proof fn first_vote_binds_authority(
    votes: Votes,
    caller: Address,
    other: Address,
    first: VoteInstruction,
    second: VoteInstruction,
)
    requires
        !votes.initialized,
        other != caller,
        first == VoteInstruction::Approve ==> votes.approve_count < u64::MAX,
        first == VoteInstruction::Reject ==> votes.reject_count < u64::MAX,
    ensures
        votes.voted(caller, true, first) matches Ok(bound) && bound.initialized && bound.authority
            == caller && bound.voted(other, true, second) == Err::<Votes, VoteError>(
            VoteError::AuthorityMismatch,
        ),
{
}

/// Two approve votes in a row from the bound authority raise the approve
/// count by exactly one each and leave the reject count as it was. This
/// holds while the approve count has room for two more.
pub proof fn approvals_add_one_each(votes: Votes, authority: Address)
    requires
        votes.initialized,
        votes.authority == authority,
        votes.approve_count + 2 <= u64::MAX,
    ensures
        votes.voted(authority, true, VoteInstruction::Approve) matches Ok(once) && {
            &&& once.approve_count == votes.approve_count + 1
            &&& once.reject_count == votes.reject_count
            &&& once.voted(authority, true, VoteInstruction::Approve) matches Ok(twice) && {
                &&& twice.approve_count == votes.approve_count + 2
                &&& twice.reject_count == votes.reject_count
            }
        },
{
}

} // verus!
