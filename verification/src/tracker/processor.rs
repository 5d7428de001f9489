//! The tracker authority's entry point. A call runs in two steps with the
//! ledger's work between them: `process_instruction` checks the call and
//! says what the ledger is to do, and `complete` takes the ledger's answer
//! and writes the tracker record.

use crate::account::{store, stored, Account, Instruction};
use crate::address::Address;
use crate::counter::instruction::{generate_vote_instruction, vote_accounts, VoteInstruction};
use crate::derivation::{
    delegate_seed_list, delegate_seeds, derives_to, found_bytes, derived,
    seed_list, seeds_with_bump, tracker_seed_list, tracker_seeds, verify, with_bump,
};
use crate::error::VoteError;
use crate::tracker::instruction::TrackerInstruction;
use crate::tracker::state::VoteTracker;
use vstd::prelude::*;

verus! {

/// `Ok` where `statement` holds, `err` where it does not. The message says
/// what was expected and takes no part in the outcome.
#[allow(unused_variables)]
pub fn assert_with_msg(statement: bool, err: VoteError, msg: &str) -> (r: Result<(), VoteError>)
    ensures
        r == (if statement {
            Ok::<(), VoteError>(())
        } else {
            Err::<(), VoteError>(err)
        }),
{
    if !statement {
        Err(err)
    } else {
        Ok(())
    }
}

/// What the ledger is asked to do between the two steps of a call.
#[derive(Clone, Copy, Debug, PartialEq, Eq)]
pub enum Action {
    /// Create and fund `account`, with room for `space` bytes and owned by
    /// `owner`, at `funder`'s expense. The tracker signs for `account` with
    /// the seeds `funder`, `counter` and `bump`.
    CreateAccount { funder: Address, account: Address, space: u64, owner: Address, counter: Address, bump: u8 },
    /// Invoke the counter `program` with `vote` on the tally record
    /// `counter`, authorised by `delegate`. The tracker signs for `delegate`
    /// with the seeds `counter` and `bump`.
    CastVote { program: Address, counter: Address, delegate: Address, vote: VoteInstruction, bump: u8 },
}

impl Action {
    /// The seeds that prove the tracker's right to sign for the derived
    /// address of this action.
    pub open spec fn signer_seed_list(self) -> Seq<Seq<u8>> {
        match self {
            Action::CreateAccount { funder, counter, bump, .. } => with_bump(
                tracker_seed_list(funder@, counter@),
                bump,
            ),
            Action::CastVote { counter, bump, .. } => with_bump(delegate_seed_list(counter@), bump),
        }
    }

    /// Builds the signer seeds.
    pub fn signer_seeds(&self) -> (seeds: Vec<Vec<u8>>)
        ensures
            seed_list(seeds@) == self.signer_seed_list(),
    {
        match self {
            Action::CreateAccount { funder, counter, bump, .. } => seeds_with_bump(
                &tracker_seeds(funder, counter),
                *bump,
            ),
            Action::CastVote { counter, bump, .. } => seeds_with_bump(&delegate_seeds(counter), *bump),
        }
    }

    /// The call to the counter that this action stands for, where it is one.
    pub fn instruction(&self) -> (r: Option<Instruction>)
        ensures
            match *self {
                Action::CreateAccount { .. } => r.is_none(),
                Action::CastVote { program, counter, delegate, vote, .. } => r matches Some(ix)
                    && ix.program_id == program && ix.accounts@ == vote_accounts(counter, delegate)
                    && ix.data@ == vote.encoded(),
            },
    {
        match self {
            Action::CreateAccount { .. } => None,
            Action::CastVote { program, counter, delegate, vote, .. } => {
                match generate_vote_instruction(*program, *counter, *delegate, *vote) {
                    Ok(ix) => Some(ix),
                    Err(_) => None,
                }
            },
        }
    }
}

/// A call that passed its checks: what the ledger is to do, and the record
/// to write once the ledger has done it.
#[derive(Clone, Copy, Debug, PartialEq, Eq)]
pub struct Pending {
    pub action: Action,
    pub record: VoteTracker,
}

pub struct Processor {}

impl Processor {
    /// What `initialize` decides from the two derivations. Both must have
    /// found an address, and the addresses must be the ones supplied.
    pub open spec fn initialized(
        program: Address,
        tracker: Address,
        user: Address,
        delegate: Address,
        counter: Address,
        found_delegate: Option<(Seq<u8>, u8)>,
        found_tracker: Option<(Seq<u8>, u8)>,
    ) -> Result<Pending, VoteError> {
        match (found_delegate, found_tracker) {
            (Some((delegate_key, auth_bump)), Some((tracker_key, bump))) => if tracker_key
                == tracker@ && delegate_key == delegate@ {
                Ok(
                    Pending {
                        action: Action::CreateAccount {
                            funder: user,
                            account: tracker,
                            space: 50,
                            owner: program,
                            counter,
                            bump,
                        },
                        record: VoteTracker::fresh(bump, auth_bump, counter),
                    },
                )
            } else {
                Err(VoteError::InvalidDerivation)
            },
            _ => Err(VoteError::InvalidDerivation),
        }
    }

    /// What a vote decides once the record is read and the two addresses are
    /// recomputed. The delegated signer is checked first, then the record's
    /// own address, then the counter's room to grow.
    pub open spec fn voted(
        record: VoteTracker,
        counter_program: Address,
        counter: Address,
        delegate: Address,
        delegate_verified: bool,
        tracker_verified: bool,
        vote: VoteInstruction,
    ) -> Result<Pending, VoteError> {
        if !delegate_verified || !tracker_verified {
            Err(VoteError::InvalidDerivation)
        } else {
            match record.voted(vote) {
                Err(e) => Err(e),
                Ok(after) => Ok(
                    Pending {
                        action: Action::CastVote {
                            program: counter_program,
                            counter,
                            delegate,
                            vote,
                            bump: record.auth_bump,
                        },
                        record: after,
                    },
                ),
            }
        }
    }

    /// What the first step of a call decides. The payload is read first,
    /// then five accounts are asked for. For `Initialize` they are the
    /// tracker record, the user, the delegated signer, the tally record and
    /// the account-creation service; for a vote, the tracker record, the
    /// user, the counter program, the tally record and the delegated signer.
    pub open spec fn planned(program: Address, accounts: Seq<Account>, instruction_data: Seq<u8>) -> Result<
        Pending,
        VoteError,
    > {
        match TrackerInstruction::decoded(instruction_data) {
            None => Err(VoteError::MalformedInstruction),
            Some(instruction) => if accounts.len() < 5 {
                Err(VoteError::MalformedInstruction)
            } else {
                match instruction {
                    TrackerInstruction::Initialize => Self::initialized(
                        program,
                        accounts[0].key,
                        accounts[1].key,
                        accounts[2].key,
                        accounts[3].key,
                        derived(delegate_seed_list(accounts[3].key@), program@),
                        derived(
                            tracker_seed_list(accounts[1].key@, accounts[3].key@),
                            program@,
                        ),
                    ),
                    TrackerInstruction::Approve => Self::planned_vote(
                        program,
                        accounts,
                        VoteInstruction::Approve,
                    ),
                    TrackerInstruction::Reject => Self::planned_vote(
                        program,
                        accounts,
                        VoteInstruction::Reject,
                    ),
                }
            },
        }
    }

    /// The delegated signer among the accounts of a call: the third account
    /// of an `Initialize`, the fifth of a vote.
    pub open spec fn delegate_of(accounts: Seq<Account>, instruction_data: Seq<u8>) -> Address {
        if TrackerInstruction::decoded(instruction_data) == Some(TrackerInstruction::Initialize) {
            accounts[2].key
        } else {
            accounts[4].key
        }
    }

    /// What the first step decides for a vote.
    pub open spec fn planned_vote(program: Address, accounts: Seq<Account>, vote: VoteInstruction) -> Result<
        Pending,
        VoteError,
    > {
        match VoteTracker::decoded(accounts[0].data@) {
            None => Err(VoteError::UninitializedRecord),
            Some(record) => Self::voted(
                record,
                accounts[2].key,
                accounts[3].key,
                accounts[4].key,
                derives_to(
                    delegate_seed_list(accounts[3].key@),
                    record.auth_bump,
                    program@,
                    accounts[4].key@,
                ),
                derives_to(
                    tracker_seed_list(accounts[1].key@, accounts[3].key@),
                    record.bump,
                    program@,
                    accounts[0].key@,
                ),
                vote,
            ),
        }
    }

    /// What the second step decides: the bytes to store in the tracker
    /// record, or the error that ends the call. An error from the ledger is
    /// handed on as it is.
    pub open spec fn completed(pending: Pending, outcome: Result<(), VoteError>, accounts: Seq<Account>) -> Result<
        Seq<u8>,
        VoteError,
    > {
        match outcome {
            Err(e) => Err(e),
            Ok(()) => if accounts.len() < 1 {
                Err(VoteError::MalformedInstruction)
            } else if accounts[0].data@.len() != 50 {
                Err(VoteError::UninitializedRecord)
            } else {
                Ok(pending.record.encoded())
            },
        }
    }

    /// Decides an `Initialize` from the outcomes of the two derivations.
    pub fn initialize(
        program: &Address,
        tracker: &Address,
        user: &Address,
        delegate: &Address,
        counter: &Address,
        found_delegate: Option<(Address, u8)>,
        found_tracker: Option<(Address, u8)>,
    ) -> (r: Result<Pending, VoteError>)
        ensures
            r == Self::initialized(
                *program,
                *tracker,
                *user,
                *delegate,
                *counter,
                found_bytes(found_delegate),
                found_bytes(found_tracker),
            ),
    {
        match (found_delegate, found_tracker) {
            (Some((delegate_key, auth_bump)), Some((tracker_key, bump))) => {
                assert_with_msg(
                    tracker_key.same(tracker),
                    VoteError::InvalidDerivation,
                    "Invalid PDA seeds for tracker",
                )?;
                assert_with_msg(
                    delegate_key.same(delegate),
                    VoteError::InvalidDerivation,
                    "Invalid PDA seeds for authority",
                )?;
                Ok(
                    Pending {
                        action: Action::CreateAccount {
                            funder: *user,
                            account: *tracker,
                            space: 50,
                            owner: *program,
                            counter: *counter,
                            bump,
                        },
                        record: VoteTracker::new(bump, auth_bump, *counter),
                    },
                )
            },
            _ => Err(VoteError::InvalidDerivation),
        }
    }

    /// Decides a vote from the stored record and the outcomes of the two
    /// re-derivations.
    pub fn vote(
        record: VoteTracker,
        counter_program: &Address,
        counter: &Address,
        delegate: &Address,
        delegate_verified: bool,
        tracker_verified: bool,
        vote: VoteInstruction,
    ) -> (r: Result<Pending, VoteError>)
        ensures
            r == Self::voted(
                record,
                *counter_program,
                *counter,
                *delegate,
                delegate_verified,
                tracker_verified,
                vote,
            ),
    {
        assert_with_msg(
            delegate_verified,
            VoteError::InvalidDerivation,
            "Invalid PDA seeds for authority",
        )?;
        assert_with_msg(
            tracker_verified,
            VoteError::InvalidDerivation,
            "Invalid PDA seeds for tracker",
        )?;
        let mut after = record;
        after.record_vote(vote)?;
        Ok(
            Pending {
                action: Action::CastVote {
                    program: *counter_program,
                    counter: *counter,
                    delegate: *delegate,
                    vote,
                    bump: record.auth_bump,
                },
                record: after,
            },
        )
    }

    /// The first step of a call: checks it and says what the ledger is to do
    /// and which record to write afterwards. Nothing is written here. The
    /// record of a call that passes always holds the bumps of the supplied
    /// tracker and delegated-signer addresses.
    pub fn process_instruction(
        program_id: &Address,
        accounts: &Vec<Account>,
        instruction_data: &[u8],
    ) -> (r: Result<Pending, VoteError>)
        ensures
            r == Self::planned(*program_id, accounts@, instruction_data@),
            r matches Ok(pending) ==> pending.record.well_derived(
                *program_id,
                accounts@[1].key,
                accounts@[3].key,
                accounts@[0].key,
                Self::delegate_of(accounts@, instruction_data@),
            ),
    {
        let instruction = TrackerInstruction::try_from_slice(instruction_data)?;
        if accounts.len() < 5 {
            return Err(VoteError::MalformedInstruction);
        }
        match instruction {
            TrackerInstruction::Initialize => {
                let tracker = accounts[0].key;
                let user = accounts[1].key;
                let delegate = accounts[2].key;
                let counter = accounts[3].key;
                let found_delegate = crate::derivation::derive(&delegate_seeds(&counter), program_id);
                let found_tracker = crate::derivation::derive(
                    &tracker_seeds(&user, &counter),
                    program_id,
                );
                Self::initialize(
                    program_id,
                    &tracker,
                    &user,
                    &delegate,
                    &counter,
                    found_delegate,
                    found_tracker,
                )
            },
            TrackerInstruction::Approve => Self::plan_vote(
                program_id,
                accounts,
                VoteInstruction::Approve,
            ),
            TrackerInstruction::Reject => Self::plan_vote(
                program_id,
                accounts,
                VoteInstruction::Reject,
            ),
        }
    }

    /// The first step of a vote: reads the record and recomputes the two
    /// addresses from the bumps it holds.
    fn plan_vote(program_id: &Address, accounts: &Vec<Account>, vote: VoteInstruction) -> (r: Result<
        Pending,
        VoteError,
    >)
        requires
            accounts@.len() >= 5,
        ensures
            r == Self::planned_vote(*program_id, accounts@, vote),
            r matches Ok(pending) ==> pending.record.well_derived(
                *program_id,
                accounts@[1].key,
                accounts@[3].key,
                accounts@[0].key,
                accounts@[4].key,
            ),
    {
        let tracker = accounts[0].key;
        let user = accounts[1].key;
        let counter_program = accounts[2].key;
        let counter = accounts[3].key;
        let delegate = accounts[4].key;
        let record = VoteTracker::try_from_slice(accounts[0].data.as_slice())?;
        let delegate_verified = verify(
            &delegate_seeds(&counter),
            record.auth_bump,
            program_id,
            &delegate,
        );
        let tracker_verified = verify(
            &tracker_seeds(&user, &counter),
            record.bump,
            program_id,
            &tracker,
        );
        Self::vote(
            record,
            &counter_program,
            &counter,
            &delegate,
            delegate_verified,
            tracker_verified,
            vote,
        )
    }

    /// The second step of a call: given what the ledger answered to the
    /// pending action, writes the tracker record `accounts[0]`, or hands the
    /// ledger's error on and writes nothing.
    pub fn complete(pending: &Pending, outcome: Result<(), VoteError>, accounts: &mut Vec<Account>) -> (r:
        Result<(), VoteError>)
        ensures
            match r {
                Ok(()) => Self::completed(*pending, outcome, old(accounts)@) matches Ok(data)
                    && stored(old(accounts)@, final(accounts)@, 0, data),
                Err(e) => Self::completed(*pending, outcome, old(accounts)@) == Err::<
                    Seq<u8>,
                    VoteError,
                >(e) && final(accounts)@ == old(accounts)@,
            },
    {
        match outcome {
            Err(e) => {
                return Err(e);
            },
            Ok(()) => {},
        }
        if accounts.len() < 1 {
            return Err(VoteError::MalformedInstruction);
        }
        if accounts[0].data.len() != 50 {
            return Err(VoteError::UninitializedRecord);
        }
        let data = pending.record.try_to_vec()?;
        store(accounts, 0, data);
        Ok(())
    }
}

/// An error from the ledger ends the call with that error, and no bytes are
/// chosen for the tracker record. So where the account-creation service
/// answers a second `Initialize` for the same user and proposal with
/// `AccountAlreadyInUse`, the call fails with it and the record stays as the
/// first call wrote it.
pub proof fn ledger_error_ends_call(pending: Pending, error: VoteError, accounts: Seq<Account>)
    ensures
        Processor::completed(pending, Err(error), accounts) == Err::<Seq<u8>, VoteError>(error),
{
}

/// A vote whose supplied delegated signer is not the address that the tally
/// record and the stored bump derive is refused with `InvalidDerivation`: no
/// action is handed to the ledger, so neither record is touched.
pub proof fn mismatched_delegate_is_refused(
    program: Address,
    accounts: Seq<Account>,
    record: VoteTracker,
    instruction: TrackerInstruction,
)
    requires
        instruction != TrackerInstruction::Initialize,
        accounts.len() >= 5,
        VoteTracker::decoded(accounts[0].data@) == Some(record),
        !derives_to(
            delegate_seed_list(accounts[3].key@),
            record.auth_bump,
            program@,
            accounts[4].key@,
        ),
    ensures
        Processor::planned(program, accounts, instruction.encoded()) == Err::<Pending, VoteError>(
            VoteError::InvalidDerivation,
        ),
{
}

} // verus!
