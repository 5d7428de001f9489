use borsh::BorshSerialize;
use solana_program::pubkey::Pubkey;
use voting::address::Address;
use voting::derivation::{
    address_matches, delegate_seeds, seeds_with_bump, tracker_seeds, verify,
};
use voting::wire::{read_u32, read_u64, write_u32, write_u64};

fn addr(fill: u8) -> Address {
    Address::new([fill; 32])
}

#[test]
fn derive_agrees_with_the_ledger_library() {
    let program = addr(9);
    let counter = addr(3);
    let seeds = delegate_seeds(&counter);
    let (key, bump) = voting::derivation::derive(&seeds, &program).unwrap();
    let (expected, expected_bump) =
        Pubkey::find_program_address(&[&[3u8; 32]], &Pubkey::new_from_array([9u8; 32]));
    assert_eq!(key.bytes, expected.to_bytes());
    assert_eq!(bump, expected_bump);
    assert_ne!(key, counter);
    assert_ne!(key, program);
}

#[test]
fn derived_address_passes_verify() {
    let program = addr(7);
    let seeds = tracker_seeds(&addr(1), &addr(2));
    let (key, bump) = voting::derivation::derive(&seeds, &program).unwrap();
    assert!(verify(&seeds, bump, &program, &key));
}

#[test]
fn verify_agrees_with_create_program_address() {
    let program = addr(7);
    let seeds = tracker_seeds(&addr(1), &addr(2));
    let (_, bump) = voting::derivation::derive(&seeds, &program).unwrap();
    let expected = Pubkey::create_program_address(
        &[&[1u8; 32], &[2u8; 32], &[bump]],
        &Pubkey::new_from_array([7u8; 32]),
    )
    .unwrap();
    assert!(verify(&seeds, bump, &program, &Address::new(expected.to_bytes())));
}

#[test]
fn verify_rejects_another_bump() {
    let program = addr(7);
    let seeds = tracker_seeds(&addr(1), &addr(2));
    let (key, bump) = voting::derivation::derive(&seeds, &program).unwrap();
    assert!(!verify(&seeds, bump.wrapping_sub(1), &program, &key));
}

#[test]
fn verify_rejects_another_address_program_or_order() {
    let program = addr(7);
    let seeds = tracker_seeds(&addr(1), &addr(2));
    let (key, bump) = voting::derivation::derive(&seeds, &program).unwrap();
    assert!(!verify(&seeds, bump, &program, &addr(1)));
    assert!(!verify(&seeds, bump, &addr(8), &key));
    assert!(!verify(&tracker_seeds(&addr(2), &addr(1)), bump, &program, &key));
}

#[test]
fn the_two_derivations_are_independent() {
    let program = addr(7);
    let user = addr(1);
    let counter = addr(2);
    let (delegate, _) = voting::derivation::derive(&delegate_seeds(&counter), &program).unwrap();
    let (tracker, _) =
        voting::derivation::derive(&tracker_seeds(&user, &counter), &program).unwrap();
    assert_ne!(delegate, tracker);
}

#[test]
fn overlong_seed_derives_nothing() {
    let program = addr(7);
    let seeds = vec![vec![0u8; 33]];
    assert_eq!(voting::derivation::derive(&seeds, &program), None);
    assert!(!verify(&seeds, 255, &program, &addr(1)));
}

#[test]
fn seed_builders_give_the_addresses_in_order() {
    assert_eq!(delegate_seeds(&addr(3)), vec![vec![3u8; 32]]);
    assert_eq!(tracker_seeds(&addr(1), &addr(2)), vec![vec![1u8; 32], vec![2u8; 32]]);
    assert_eq!(
        seeds_with_bump(&delegate_seeds(&addr(3)), 254),
        vec![vec![3u8; 32], vec![254u8]]
    );
}

#[test]
fn address_matches_needs_an_equal_address() {
    assert!(address_matches(&Some(addr(4)), &addr(4)));
    assert!(!address_matches(&Some(addr(4)), &addr(5)));
    assert!(!address_matches(&None, &addr(4)));
}

#[test]
fn address_same_read_write() {
    let mut bytes = [0u8; 32];
    for (i, b) in bytes.iter_mut().enumerate() {
        *b = i as u8;
    }
    let a = Address::new(bytes);
    assert!(a.same(&Address::new(bytes)));
    bytes[31] = 0;
    assert!(!a.same(&Address::new(bytes)));
    let mut out = vec![0xAAu8];
    a.write(&mut out);
    assert_eq!(out.len(), 33);
    assert_eq!(Address::read(&out, 1), a);
    assert_eq!(a.to_seed(), a.bytes.to_vec());
}

#[test]
fn integers_are_little_endian() {
    let mut out = Vec::new();
    write_u32(&mut out, 0x0102_0304);
    assert_eq!(out, vec![4, 3, 2, 1]);
    write_u64(&mut out, 0x0102_0304_0506_0708);
    assert_eq!(out, vec![4, 3, 2, 1, 8, 7, 6, 5, 4, 3, 2, 1]);
    assert_eq!(read_u32(&out, 0), 0x0102_0304);
    assert_eq!(read_u64(&out, 4), 0x0102_0304_0506_0708);
}

#[test]
fn integers_round_trip_at_the_limits() {
    for v in [0u64, 1, 255, 256, u64::MAX - 1, u64::MAX] {
        let mut out = Vec::new();
        write_u64(&mut out, v);
        assert_eq!(out, v.to_le_bytes().to_vec());
        assert_eq!(out, v.try_to_vec().unwrap());
        assert_eq!(read_u64(&out, 0), v);
    }
    for v in [0u32, 1, 65535, 65536, u32::MAX] {
        let mut out = Vec::new();
        write_u32(&mut out, v);
        assert_eq!(out, v.try_to_vec().unwrap());
        assert_eq!(read_u32(&out, 0), v);
    }
}

#[test]
fn derive_finds_the_highest_bump_that_yields_an_address() {
    let program_key = Pubkey::new_from_array([7u8; 32]);
    let mut seen_below_255 = false;
    for user in 0u8..40 {
        let seeds = tracker_seeds(&addr(user), &addr(2));
        let (key, bump) = voting::derivation::derive(&seeds, &addr(7)).unwrap();
        assert!(bump >= 1);
        assert!(verify(&seeds, bump, &addr(7), &key));
        let mut higher = 255u8;
        while higher > bump {
            assert!(Pubkey::create_program_address(
                &[&[user; 32], &[2u8; 32], &[higher]],
                &program_key
            )
            .is_err());
            assert!(!verify(&seeds, higher, &addr(7), &key));
            higher -= 1;
        }
        seen_below_255 = seen_below_255 || bump < 255;
    }
    assert!(seen_below_255);
}

#[test]
fn sixteen_seeds_leave_no_room_for_a_bump() {
    let seeds = vec![vec![1u8]; 16];
    assert_eq!(voting::derivation::derive(&seeds, &addr(7)), None);
    let seeds = vec![vec![1u8]; 15];
    let (key, bump) = voting::derivation::derive(&seeds, &addr(7)).unwrap();
    assert!(verify(&seeds, bump, &addr(7), &key));
}
