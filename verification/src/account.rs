//! What a call sees of the ledger: the accounts handed to it, and the
//! instructions one program sends to another.

use crate::address::Address;
use vstd::prelude::*;

verus! {

/// One account of a call's account list: its address, whether its owner
/// signed the call, and the bytes it stores.
#[derive(Clone, Debug, PartialEq, Eq)]
pub struct Account {
    pub key: Address,
    pub is_signer: bool,
    pub data: Vec<u8>,
}

/// How an instruction refers to one account.
#[derive(Clone, Copy, Debug, PartialEq, Eq)]
pub struct AccountMeta {
    pub pubkey: Address,
    pub is_signer: bool,
    pub is_writable: bool,
}

impl AccountMeta {
    /// A writable account.
    pub fn new(pubkey: Address, is_signer: bool) -> (m: AccountMeta)
        ensures
            m == (AccountMeta { pubkey, is_signer, is_writable: true }),
    {
        AccountMeta { pubkey, is_signer, is_writable: true }
    }

    /// A read-only account.
    pub fn new_readonly(pubkey: Address, is_signer: bool) -> (m: AccountMeta)
        ensures
            m == (AccountMeta { pubkey, is_signer, is_writable: false }),
    {
        AccountMeta { pubkey, is_signer, is_writable: false }
    }
}

/// A call to a program: the program, the accounts it works on, in order, and
/// the payload.
#[derive(Clone, Debug, PartialEq, Eq)]
pub struct Instruction {
    pub program_id: Address,
    pub accounts: Vec<AccountMeta>,
    pub data: Vec<u8>,
}

/// `after` is `before` with the bytes of the account at `at` replaced by
/// `data`, and nothing else changed.
pub open spec fn stored(before: Seq<Account>, after: Seq<Account>, at: int, data: Seq<u8>) -> bool {
    &&& 0 <= at < before.len()
    &&& after.len() == before.len()
    &&& after[at].key == before[at].key
    &&& after[at].is_signer == before[at].is_signer
    &&& after[at].data@ == data
    &&& forall|i: int| 0 <= i < before.len() && i != at ==> after[i] == before[i]
}

/// Replaces the bytes that the account at `at` stores.
pub fn store(accounts: &mut Vec<Account>, at: usize, data: Vec<u8>)
    requires
        at < old(accounts)@.len(),
    ensures
        stored(old(accounts)@, final(accounts)@, at as int, data@),
{
    let key = accounts[at].key;
    let is_signer = accounts[at].is_signer;
    accounts.set(at, Account { key, is_signer, data });
}

} // verus!
