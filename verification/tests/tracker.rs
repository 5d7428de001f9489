use voting::account::{store, Account};
use voting::address::Address;
use voting::counter::instruction::VoteInstruction;
use voting::derivation::{delegate_seeds, tracker_seeds};
use voting::error::VoteError;
use voting::tracker::instruction::TrackerInstruction;
use voting::tracker::processor::{assert_with_msg, Action, Pending, Processor};
use voting::tracker::state::{VoteTracker, TRACKER_LEN};

fn addr(fill: u8) -> Address {
    Address::new([fill; 32])
}

const TRACKER_PROGRAM: u8 = 50;
const COUNTER_PROGRAM: u8 = 60;
const USER: u8 = 1;
const COUNTER: u8 = 2;

struct World {
    tracker_key: Address,
    tracker_bump: u8,
    delegate_key: Address,
    delegate_bump: u8,
    tracker_data: Vec<u8>,
    counter_data: Vec<u8>,
    tracker_exists: bool,
}

fn world() -> World {
    let program = addr(TRACKER_PROGRAM);
    let (tracker_key, tracker_bump) =
        voting::derivation::derive(&tracker_seeds(&addr(USER), &addr(COUNTER)), &program).unwrap();
    let (delegate_key, delegate_bump) =
        voting::derivation::derive(&delegate_seeds(&addr(COUNTER)), &program).unwrap();
    World {
        tracker_key,
        tracker_bump,
        delegate_key,
        delegate_bump,
        tracker_data: Vec::new(),
        counter_data: vec![0u8; 53],
        tracker_exists: false,
    }
}

fn initialize_accounts(w: &World) -> Vec<Account> {
    vec![
        Account { key: w.tracker_key, is_signer: false, data: w.tracker_data.clone() },
        Account { key: addr(USER), is_signer: true, data: Vec::new() },
        Account { key: w.delegate_key, is_signer: false, data: Vec::new() },
        Account { key: addr(COUNTER), is_signer: false, data: w.counter_data.clone() },
        Account { key: addr(0), is_signer: false, data: Vec::new() },
    ]
}

fn vote_accounts(w: &World) -> Vec<Account> {
    vec![
        Account { key: w.tracker_key, is_signer: false, data: w.tracker_data.clone() },
        Account { key: addr(USER), is_signer: true, data: Vec::new() },
        Account { key: addr(COUNTER_PROGRAM), is_signer: false, data: Vec::new() },
        Account { key: addr(COUNTER), is_signer: false, data: w.counter_data.clone() },
        Account { key: w.delegate_key, is_signer: false, data: Vec::new() },
    ]
}

/// Plays the ledger for one pending action.
fn perform(w: &mut World, pending: &Pending) -> Result<(), VoteError> {
    match pending.action {
        Action::CreateAccount { account, space, .. } => {
            if w.tracker_exists {
                return Err(VoteError::AccountAlreadyInUse);
            }
            assert_eq!(account, w.tracker_key);
            w.tracker_exists = true;
            w.tracker_data = vec![0u8; space as usize];
            Ok(())
        }
        Action::CastVote { counter, .. } => {
            let ix = pending.action.instruction().unwrap();
            assert_eq!(ix.accounts[0].pubkey, counter);
            let mut accounts = vec![
                Account { key: counter, is_signer: false, data: w.counter_data.clone() },
                Account {
                    key: ix.accounts[1].pubkey,
                    is_signer: ix.accounts[1].is_signer,
                    data: Vec::new(),
                },
            ];
            voting::counter::processor::Processor::process_instruction(
                &ix.program_id,
                &mut accounts,
                &ix.data,
            )?;
            w.counter_data = accounts[0].data.clone();
            Ok(())
        }
    }
}

fn call(w: &mut World, mut accounts: Vec<Account>, data: &[u8]) -> Result<(), VoteError> {
    let pending = Processor::process_instruction(&addr(TRACKER_PROGRAM), &accounts, data)?;
    let outcome = perform(w, &pending);
    accounts[0].data = w.tracker_data.clone();
    Processor::complete(&pending, outcome, &mut accounts)?;
    w.tracker_data = accounts[0].data.clone();
    Ok(())
}

fn initialize(w: &mut World) -> Result<(), VoteError> {
    let accounts = initialize_accounts(w);
    call(w, accounts, &[0])
}

fn vote(w: &mut World, tag: u8) -> Result<(), VoteError> {
    let accounts = vote_accounts(w);
    call(w, accounts, &[tag])
}

fn tracker_record(w: &World) -> VoteTracker {
    VoteTracker::try_from_slice(&w.tracker_data).unwrap()
}

fn counter_record(w: &World) -> voting::counter::state::Votes {
    voting::counter::state::Votes::try_from_slice(&w.counter_data).unwrap()
}

#[test]
fn tracker_instruction_payloads() {
    assert_eq!(TrackerInstruction::Initialize.try_to_vec(), Ok(vec![0]));
    assert_eq!(TrackerInstruction::Approve.try_to_vec(), Ok(vec![1]));
    assert_eq!(TrackerInstruction::Reject.try_to_vec(), Ok(vec![2]));
    assert_eq!(TrackerInstruction::try_from_slice(&[0]), Ok(TrackerInstruction::Initialize));
    assert_eq!(TrackerInstruction::try_from_slice(&[1]), Ok(TrackerInstruction::Approve));
    assert_eq!(TrackerInstruction::try_from_slice(&[2]), Ok(TrackerInstruction::Reject));
    assert_eq!(TrackerInstruction::try_from_slice(&[3]), Err(VoteError::MalformedInstruction));
    assert_eq!(TrackerInstruction::try_from_slice(&[]), Err(VoteError::MalformedInstruction));
    assert_eq!(TrackerInstruction::try_from_slice(&[1, 0]), Err(VoteError::MalformedInstruction));
}

#[test]
fn tracker_assert_with_msg() {
    assert_eq!(assert_with_msg(true, VoteError::InvalidDerivation, "m"), Ok(()));
    assert_eq!(
        assert_with_msg(false, VoteError::InvalidDerivation, "m"),
        Err(VoteError::InvalidDerivation)
    );
}

#[test]
fn tracker_layout_is_fixed() {
    let record = VoteTracker {
        bump: 254,
        auth_bump: 253,
        proposal_to_vote: addr(0xCD),
        approve_count: 3,
        reject_count: 0x0102,
    };
    let bytes = record.try_to_vec().unwrap();
    assert_eq!(bytes.len(), TRACKER_LEN);
    assert_eq!(TRACKER_LEN, 50);
    let mut expected = vec![254u8, 253];
    expected.extend_from_slice(&[0xCD; 32]);
    expected.extend_from_slice(&[3, 0, 0, 0, 0, 0, 0, 0]);
    expected.extend_from_slice(&[2, 1, 0, 0, 0, 0, 0, 0]);
    assert_eq!(bytes, expected);
    assert_eq!(VoteTracker::try_from_slice(&bytes), Ok(record));
    assert_eq!(VoteTracker::try_from_slice(&bytes[..49]), Err(VoteError::UninitializedRecord));
    assert_eq!(VoteTracker::try_from_slice(&[]), Err(VoteError::UninitializedRecord));
}

#[test]
fn tracker_record_counts_votes() {
    let mut record = VoteTracker::new(7, 8, addr(2));
    assert_eq!(
        record,
        VoteTracker {
            bump: 7,
            auth_bump: 8,
            proposal_to_vote: addr(2),
            approve_count: 0,
            reject_count: 0
        }
    );
    assert_eq!(record.record_vote(VoteInstruction::Approve), Ok(()));
    assert_eq!(record.record_vote(VoteInstruction::Reject), Ok(()));
    assert_eq!(record.record_vote(VoteInstruction::Reject), Ok(()));
    assert_eq!((record.approve_count, record.reject_count), (1, 2));
    record.reject_count = u64::MAX;
    assert_eq!(record.record_vote(VoteInstruction::Reject), Err(VoteError::CounterOverflow));
    assert_eq!(record.reject_count, u64::MAX);
}

#[test]
fn initialize_plans_the_account_and_the_record() {
    let w = world();
    let pending =
        Processor::process_instruction(&addr(TRACKER_PROGRAM), &initialize_accounts(&w), &[0])
            .unwrap();
    assert_eq!(
        pending,
        Pending {
            action: Action::CreateAccount {
                funder: addr(USER),
                account: w.tracker_key,
                space: 50,
                owner: addr(TRACKER_PROGRAM),
                counter: addr(COUNTER),
                bump: w.tracker_bump,
            },
            record: VoteTracker {
                bump: w.tracker_bump,
                auth_bump: w.delegate_bump,
                proposal_to_vote: addr(COUNTER),
                approve_count: 0,
                reject_count: 0,
            },
        }
    );
    assert_eq!(
        pending.action.signer_seeds(),
        vec![vec![USER; 32], vec![COUNTER; 32], vec![w.tracker_bump]]
    );
    assert_eq!(pending.action.instruction(), None);
}

#[test]
fn initialize_refuses_addresses_that_do_not_derive() {
    let w = world();
    let mut accounts = initialize_accounts(&w);
    accounts[0].key = addr(77);
    assert_eq!(
        Processor::process_instruction(&addr(TRACKER_PROGRAM), &accounts, &[0]),
        Err(VoteError::InvalidDerivation)
    );
    let mut accounts = initialize_accounts(&w);
    accounts[2].key = w.tracker_key;
    assert_eq!(
        Processor::process_instruction(&addr(TRACKER_PROGRAM), &accounts, &[0]),
        Err(VoteError::InvalidDerivation)
    );
    assert_eq!(
        Processor::initialize(&addr(5), &addr(1), &addr(2), &addr(3), &addr(4), None, None),
        Err(VoteError::InvalidDerivation)
    );
    assert_eq!(
        Processor::initialize(
            &addr(5),
            &addr(1),
            &addr(2),
            &addr(3),
            &addr(4),
            Some((addr(3), 9)),
            None
        ),
        Err(VoteError::InvalidDerivation)
    );
}

#[test]
fn initialize_decides_from_the_derivations() {
    let r = Processor::initialize(
        &addr(5),
        &addr(1),
        &addr(2),
        &addr(3),
        &addr(4),
        Some((addr(3), 200)),
        Some((addr(1), 201)),
    )
    .unwrap();
    assert_eq!(r.record, VoteTracker::new(201, 200, addr(4)));
    assert_eq!(
        r.action,
        Action::CreateAccount {
            funder: addr(2),
            account: addr(1),
            space: 50,
            owner: addr(5),
            counter: addr(4),
            bump: 201
        }
    );
}

#[test]
fn calls_need_a_payload_and_five_accounts() {
    let w = world();
    let accounts = initialize_accounts(&w);
    assert_eq!(
        Processor::process_instruction(&addr(TRACKER_PROGRAM), &accounts, &[9]),
        Err(VoteError::MalformedInstruction)
    );
    for data in [[0u8], [1], [2]] {
        assert_eq!(
            Processor::process_instruction(&addr(TRACKER_PROGRAM), &accounts[..4].to_vec(), &data),
            Err(VoteError::MalformedInstruction)
        );
    }
}

#[test]
fn second_initialize_fails_and_keeps_the_record() {
    let mut w = world();
    assert_eq!(initialize(&mut w), Ok(()));
    assert_eq!(vote(&mut w, 1), Ok(()));
    let before = w.tracker_data.clone();
    assert_eq!(initialize(&mut w), Err(VoteError::AccountAlreadyInUse));
    assert_eq!(w.tracker_data, before);
    assert_eq!(tracker_record(&w).approve_count, 1);
}

#[test]
fn complete_hands_on_the_ledgers_error() {
    let w = world();
    let pending =
        Processor::process_instruction(&addr(TRACKER_PROGRAM), &initialize_accounts(&w), &[0])
            .unwrap();
    let mut accounts = initialize_accounts(&w);
    accounts[0].data = vec![9u8; 50];
    let before = accounts.clone();
    assert_eq!(
        Processor::complete(&pending, Err(VoteError::AccountAlreadyInUse), &mut accounts),
        Err(VoteError::AccountAlreadyInUse)
    );
    assert_eq!(accounts, before);
    assert_eq!(
        Processor::complete(&pending, Err(VoteError::AuthorityMismatch), &mut accounts),
        Err(VoteError::AuthorityMismatch)
    );
    assert_eq!(accounts, before);
}

#[test]
fn complete_needs_a_record_of_the_right_size() {
    let w = world();
    let pending =
        Processor::process_instruction(&addr(TRACKER_PROGRAM), &initialize_accounts(&w), &[0])
            .unwrap();
    let mut none: Vec<Account> = Vec::new();
    assert_eq!(
        Processor::complete(&pending, Ok(()), &mut none),
        Err(VoteError::MalformedInstruction)
    );
    let mut accounts = initialize_accounts(&w);
    accounts[0].data = vec![0u8; 42];
    assert_eq!(
        Processor::complete(&pending, Ok(()), &mut accounts),
        Err(VoteError::UninitializedRecord)
    );
    assert_eq!(accounts[0].data, vec![0u8; 42]);
    accounts[0].data = vec![0u8; 50];
    assert_eq!(Processor::complete(&pending, Ok(()), &mut accounts), Ok(()));
    assert_eq!(accounts[0].data, pending.record.try_to_vec().unwrap());
}

#[test]
fn vote_before_initialize_is_refused() {
    let w = world();
    assert_eq!(
        Processor::process_instruction(&addr(TRACKER_PROGRAM), &vote_accounts(&w), &[1]),
        Err(VoteError::UninitializedRecord)
    );
}

#[test]
fn vote_with_wrong_delegate_changes_nothing() {
    let mut w = world();
    assert_eq!(initialize(&mut w), Ok(()));
    let tracker_before = w.tracker_data.clone();
    let counter_before = w.counter_data.clone();
    let mut accounts = vote_accounts(&w);
    accounts[4].key = addr(99);
    assert_eq!(call(&mut w, accounts, &[1]), Err(VoteError::InvalidDerivation));
    assert_eq!(w.tracker_data, tracker_before);
    assert_eq!(w.counter_data, counter_before);
}

#[test]
fn vote_from_another_user_or_record_is_refused() {
    let mut w = world();
    assert_eq!(initialize(&mut w), Ok(()));
    let mut accounts = vote_accounts(&w);
    accounts[1].key = addr(33);
    assert_eq!(call(&mut w, accounts, &[2]), Err(VoteError::InvalidDerivation));
    let mut accounts = vote_accounts(&w);
    accounts[0].key = addr(34);
    assert_eq!(call(&mut w, accounts, &[2]), Err(VoteError::InvalidDerivation));
    let mut accounts = vote_accounts(&w);
    accounts[3].key = addr(35);
    assert_eq!(call(&mut w, accounts, &[2]), Err(VoteError::InvalidDerivation));
    assert_eq!(counter_record(&w).reject_count, 0);
}

#[test]
fn vote_plans_the_call_to_the_counter() {
    let mut w = world();
    assert_eq!(initialize(&mut w), Ok(()));
    let pending =
        Processor::process_instruction(&addr(TRACKER_PROGRAM), &vote_accounts(&w), &[2]).unwrap();
    assert_eq!(
        pending.action,
        Action::CastVote {
            program: addr(COUNTER_PROGRAM),
            counter: addr(COUNTER),
            delegate: w.delegate_key,
            vote: VoteInstruction::Reject,
            bump: w.delegate_bump,
        }
    );
    assert_eq!(pending.record.reject_count, 1);
    assert_eq!(pending.record.approve_count, 0);
    assert_eq!(pending.action.signer_seeds(), vec![vec![COUNTER; 32], vec![w.delegate_bump]]);
    let ix = pending.action.instruction().unwrap();
    assert_eq!(ix.program_id, addr(COUNTER_PROGRAM));
    assert_eq!(ix.data, vec![1]);
    assert_eq!(ix.accounts[1].pubkey, w.delegate_key);
    assert!(ix.accounts[1].is_signer);
}

#[test]
fn vote_decides_from_the_verifications() {
    let record = VoteTracker::new(7, 8, addr(2));
    let v = |d: bool, t: bool| {
        Processor::vote(record, &addr(60), &addr(2), &addr(3), d, t, VoteInstruction::Approve)
    };
    assert_eq!(v(false, true), Err(VoteError::InvalidDerivation));
    assert_eq!(v(true, false), Err(VoteError::InvalidDerivation));
    assert_eq!(v(false, false), Err(VoteError::InvalidDerivation));
    let pending = v(true, true).unwrap();
    assert_eq!(pending.record.approve_count, 1);
    let mut full = record;
    full.approve_count = u64::MAX;
    assert_eq!(
        Processor::vote(full, &addr(60), &addr(2), &addr(3), true, true, VoteInstruction::Approve),
        Err(VoteError::CounterOverflow)
    );
}

#[test]
fn failed_counter_call_leaves_the_tracker_untouched() {
    let mut w = world();
    assert_eq!(initialize(&mut w), Ok(()));
    let mut bound = counter_record(&w);
    bound.authority = addr(200);
    bound.initialized = true;
    w.counter_data = bound.try_to_vec().unwrap();
    let before = w.tracker_data.clone();
    assert_eq!(vote(&mut w, 1), Err(VoteError::AuthorityMismatch));
    assert_eq!(w.tracker_data, before);
    assert_eq!(counter_record(&w), bound);
}

#[test]
fn approve_reject_approve_through_the_tracker() {
    let mut w = world();
    assert_eq!(initialize(&mut w), Ok(()));
    assert_eq!(tracker_record(&w).proposal_to_vote, addr(COUNTER));
    assert!(!counter_record(&w).initialized);

    assert_eq!(vote(&mut w, 1), Ok(()));
    assert_eq!(counter_record(&w).authority, w.delegate_key);
    assert!(counter_record(&w).initialized);
    assert_eq!(counter_record(&w).approve_count, 1);
    assert_eq!(tracker_record(&w).approve_count, 1);

    assert_eq!(vote(&mut w, 2), Ok(()));
    assert_eq!(counter_record(&w).reject_count, 1);
    assert_eq!(tracker_record(&w).reject_count, 1);

    assert_eq!(vote(&mut w, 1), Ok(()));
    assert_eq!(counter_record(&w).approve_count, 2);
    assert_eq!(tracker_record(&w).approve_count, 2);
    assert_eq!(counter_record(&w).reject_count, 1);
    assert_eq!(tracker_record(&w).reject_count, 1);
}

#[test]
fn store_replaces_one_accounts_bytes() {
    let w = world();
    let mut accounts = initialize_accounts(&w);
    let before = accounts.clone();
    store(&mut accounts, 3, vec![1, 2, 3]);
    assert_eq!(accounts[3].data, vec![1, 2, 3]);
    assert_eq!(accounts[3].key, before[3].key);
    assert_eq!(accounts[..3], before[..3]);
    assert_eq!(accounts[4], before[4]);
}
