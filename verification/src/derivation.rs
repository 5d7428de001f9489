//! Program-derived addresses: addresses computed from seeds and a program
//! identity that lie off the key-pair curve, so that no private key signs for
//! them and only the deriving program can authorise on their behalf.

use crate::address::Address;
use vstd::prelude::*;

verus! {

/// The address that `seeds` yield under `program`, or `None` where the seeds
/// are too many or too long, or where the hash lands on the key-pair curve.
/// The value is that of `solana_program::pubkey::Pubkey::create_program_address`.
pub uninterp spec fn program_address(seeds: Seq<Seq<u8>>, program: Seq<u8>) -> Option<Seq<u8>>;

/// A list of seeds as the byte strings it holds.
pub open spec fn seed_list(seeds: Seq<Vec<u8>>) -> Seq<Seq<u8>> {
    Seq::new(seeds.len(), |i: int| seeds[i]@)
}

/// `seeds` followed by the one-byte seed `bump`.
pub open spec fn with_bump(seeds: Seq<Seq<u8>>, bump: u8) -> Seq<Seq<u8>> {
    seeds.push(seq![bump])
}

/// An optional address as its bytes.
pub open spec fn address_bytes(a: Option<Address>) -> Option<Seq<u8>> {
    match a {
        Some(a) => Some(a@),
        None => None,
    }
}

/// An optional address and bump, the address as its bytes.
pub open spec fn found_bytes(f: Option<(Address, u8)>) -> Option<(Seq<u8>, u8)> {
    match f {
        Some((a, b)) => Some((a@, b)),
        None => None,
    }
}

/// What `verify` decides: the seeds, closed with `bump`, yield `candidate`.
pub open spec fn derives_to(
    seeds: Seq<Seq<u8>>,
    bump: u8,
    program: Seq<u8>,
    candidate: Seq<u8>,
) -> bool {
    program_address(with_bump(seeds, bump), program) == Some(candidate)
}

/// Whether the seeds, closed with `bump`, yield an address at all.
pub open spec fn viable(seeds: Seq<Seq<u8>>, program: Seq<u8>, bump: u8) -> bool {
    program_address(with_bump(seeds, bump), program).is_some()
}

/// Whether `found` is what the search for a bump finds for `seeds` under
/// `program`. The search tries the bumps from 255 down to 1 and stops at the
/// first that yields an address. So an address and bump are found where the
/// bump is at least 1, the seeds closed with it yield the address, and no
/// higher bump yields any; nothing is found where no bump from 1 to 255
/// yields an address.
pub open spec fn is_derivation(
    seeds: Seq<Seq<u8>>,
    program: Seq<u8>,
    found: Option<(Seq<u8>, u8)>,
) -> bool {
    match found {
        Some((address, bump)) => {
            &&& bump >= 1
            &&& derives_to(seeds, bump, program, address)
            &&& forall|higher: u8| bump < higher ==> !viable(seeds, program, higher)
        },
        None => forall|bump: u8| bump >= 1 ==> !viable(seeds, program, bump),
    }
}

/// What the search for a bump finds for `seeds` under `program`.
#[verifier::opaque]
pub open spec fn derived(seeds: Seq<Seq<u8>>, program: Seq<u8>) -> Option<(Seq<u8>, u8)> {
    choose|found: Option<(Seq<u8>, u8)>| is_derivation(seeds, program, found)
}

/// The search has one outcome: whatever meets its description is `derived`.
pub proof fn derivation_is_unique(
    seeds: Seq<Seq<u8>>,
    program: Seq<u8>,
    found: Option<(Seq<u8>, u8)>,
)
    requires
        is_derivation(seeds, program, found),
    ensures
        derived(seeds, program) == found,
{
    reveal(derived);
    let other = derived(seeds, program);
    assert(is_derivation(seeds, program, other));
    match (found, other) {
        (Some((a1, b1)), Some((a2, b2))) => {
            assert(viable(seeds, program, b1));
            assert(viable(seeds, program, b2));
            assert(b1 == b2);
        },
        (Some((a1, b1)), None) => {
            assert(viable(seeds, program, b1));
        },
        (None, Some((a2, b2))) => {
            assert(viable(seeds, program, b2));
        },
        (None, None) => {},
    }
}

/// Calls `Pubkey::create_program_address` on the seeds as given. The contract
/// claims only that the outcome is the named value `program_address` of the
/// same seeds and program, an error of any kind read as `None`.
#[verifier::external_body]
fn create_program_address(seeds: &Vec<Vec<u8>>, program: &Address) -> (r: Option<Address>)
    ensures
        address_bytes(r) == program_address(seed_list(seeds@), program@),
{
    let refs: Vec<&[u8]> = seeds.iter().map(|s| s.as_slice()).collect();
    let id = solana_program::pubkey::Pubkey::new_from_array(program.bytes);
    match solana_program::pubkey::Pubkey::create_program_address(&refs, &id) {
        Ok(key) => Some(Address { bytes: key.to_bytes() }),
        Err(_) => None,
    }
}

/// Calls `Pubkey::try_find_program_address`. That function tries the bump
/// 255 first and counts down to 1, calls `create_program_address` on the
/// seeds with the bump appended as a last seed, returns the first address
/// that comes back with its bump, and returns nothing once every bump has
/// failed. It gives up at once on seeds that are too many or too long, which
/// fail for every bump alike. The contract claims exactly that, over the
/// named value `program_address`.
#[verifier::external_body]
fn try_find_program_address(seeds: &Vec<Vec<u8>>, program: &Address) -> (r: Option<(Address, u8)>)
    ensures
        is_derivation(seed_list(seeds@), program@, found_bytes(r)),
{
    let refs: Vec<&[u8]> = seeds.iter().map(|s| s.as_slice()).collect();
    let id = solana_program::pubkey::Pubkey::new_from_array(program.bytes);
    match solana_program::pubkey::Pubkey::try_find_program_address(&refs, &id) {
        Some((key, bump)) => Some((Address { bytes: key.to_bytes() }, bump)),
        None => None,
    }
}

/// A copy of a byte string.
fn copy_bytes(src: &Vec<u8>) -> (out: Vec<u8>)
    ensures
        out@ == src@,
{
    let mut out: Vec<u8> = Vec::new();
    let mut i: usize = 0;
    while i < src.len()
        invariant
            i <= src.len(),
            out@ == src@.subrange(0, i as int),
        decreases src.len() - i,
    {
        out.push(src[i]);
        assert(out@ =~= src@.subrange(0, i as int + 1));
        i += 1;
    }
    assert(src@.subrange(0, src.len() as int) =~= src@);
    out
}

/// The seeds, closed with the one-byte seed `bump`.
pub fn seeds_with_bump(seeds: &Vec<Vec<u8>>, bump: u8) -> (out: Vec<Vec<u8>>)
    ensures
        seed_list(out@) == with_bump(seed_list(seeds@), bump),
{
    let mut out: Vec<Vec<u8>> = Vec::new();
    let mut i: usize = 0;
    while i < seeds.len()
        invariant
            i <= seeds.len(),
            out@.len() == i,
            forall|j: int| 0 <= j < i ==> out@[j]@ == seeds@[j]@,
        decreases seeds.len() - i,
    {
        out.push(copy_bytes(&seeds[i]));
        i += 1;
    }
    let mut last: Vec<u8> = Vec::new();
    last.push(bump);
    assert(last@ =~= seq![bump]);
    out.push(last);
    assert(seed_list(out@) =~= with_bump(seed_list(seeds@), bump));
    out
}

/// Finds the derived address of `seeds` under `program` and the bump that
/// puts it off the curve: the highest bump from 255 down to 1 with which the
/// seeds yield an address. `None` where no bump does.
pub fn derive(seeds: &Vec<Vec<u8>>, program: &Address) -> (r: Option<(Address, u8)>)
    ensures
        found_bytes(r) == derived(seed_list(seeds@), program@),
        is_derivation(seed_list(seeds@), program@, found_bytes(r)),
{
    let r = try_find_program_address(seeds, program);
    proof {
        derivation_is_unique(seed_list(seeds@), program@, found_bytes(r));
    }
    r
}

/// Whether a recomputed address is there and equals `candidate`.
pub fn address_matches(derived: &Option<Address>, candidate: &Address) -> (r: bool)
    ensures
        r == (address_bytes(*derived) == Some(candidate@)),
{
    match derived {
        Some(a) => a.same(candidate),
        None => false,
    }
}

/// Recomputes the address of `seeds` closed with `bump` under `program` and
/// says whether it is `candidate`. The order of the seeds matters.
pub fn verify(seeds: &Vec<Vec<u8>>, bump: u8, program: &Address, candidate: &Address) -> (r: bool)
    ensures
        r == derives_to(seed_list(seeds@), bump, program@, candidate@),
{
    let closed = seeds_with_bump(seeds, bump);
    let derived = create_program_address(&closed, program);
    address_matches(&derived, candidate)
}

/// The seeds of the delegated signer that votes into `counter`.
pub open spec fn delegate_seed_list(counter: Seq<u8>) -> Seq<Seq<u8>> {
    seq![counter]
}

/// The seeds of the record that tracks `user`'s votes into `counter`.
pub open spec fn tracker_seed_list(user: Seq<u8>, counter: Seq<u8>) -> Seq<Seq<u8>> {
    seq![user, counter]
}

/// Builds the seeds of the delegated signer: the counter record's address.
pub fn delegate_seeds(counter: &Address) -> (seeds: Vec<Vec<u8>>)
    ensures
        seed_list(seeds@) == delegate_seed_list(counter@),
{
    let mut seeds: Vec<Vec<u8>> = Vec::new();
    seeds.push(counter.to_seed());
    assert(seed_list(seeds@) =~= delegate_seed_list(counter@));
    seeds
}

/// Builds the seeds of a tracker record: the user's identity, then the
/// counter record's address.
pub fn tracker_seeds(user: &Address, counter: &Address) -> (seeds: Vec<Vec<u8>>)
    ensures
        seed_list(seeds@) == tracker_seed_list(user@, counter@),
{
    let mut seeds: Vec<Vec<u8>> = Vec::new();
    seeds.push(user.to_seed());
    seeds.push(counter.to_seed());
    assert(seed_list(seeds@) =~= tracker_seed_list(user@, counter@));
    seeds
}

/// The search from `top` downwards, given that no bump above `top` yields an
/// address: it has an outcome.
proof fn search_below(seeds: Seq<Seq<u8>>, program: Seq<u8>, top: u8) -> (found: Option<
    (Seq<u8>, u8),
>)
    requires
        forall|higher: u8| top < higher ==> !viable(seeds, program, higher),
    ensures
        is_derivation(seeds, program, found),
    decreases top,
{
    if top == 0 {
        None
    } else if viable(seeds, program, top) {
        Some((program_address(with_bump(seeds, top), program).unwrap(), top))
    } else {
        search_below(seeds, program, (top - 1) as u8)
    }
}

/// The search always has an outcome, and `derived` is it.
pub proof fn derived_is_derivation(seeds: Seq<Seq<u8>>, program: Seq<u8>)
    ensures
        is_derivation(seeds, program, derived(seeds, program)),
{
    reveal(derived);
    let found = search_below(seeds, program, 255);
}

/// An address that `derive` finds passes `verify` with the bump found beside
/// it: for all seeds and every program, where the search finds an address
/// and a bump, the seeds closed with that bump yield that address.
pub proof fn derived_address_verifies(seeds: Seq<Seq<u8>>, program: Seq<u8>)
    ensures
        derived(seeds, program) matches Some((address, bump)) ==> derives_to(
            seeds,
            bump,
            program,
            address,
        ),
{
    derived_is_derivation(seeds, program);
}

/// No bump above the one that `derive` finds passes `verify`, whatever the
/// candidate address.
pub proof fn higher_bump_fails(seeds: Seq<Seq<u8>>, program: Seq<u8>, bump: u8, candidate: Seq<u8>)
    requires
        derived(seeds, program) matches Some((_, found_bump)) && found_bump < bump,
    ensures
        !derives_to(seeds, bump, program, candidate),
{
    derived_is_derivation(seeds, program);
    assert(!viable(seeds, program, bump));
}

} // verus!
