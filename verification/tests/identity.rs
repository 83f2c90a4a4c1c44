use anchor_lang::prelude::Pubkey;
use m2::identity::{
    find_address, promise_address, promise_seeds, sequence_seed, signer_seeds, slug_seed,
    user_address, user_seeds, vault_authority, vault_seeds, PROMISE_TAG, PROMISE_WALLET_TAG,
    USER_TAG,
};
use m2::Key;

fn id_key(b: u8) -> Key {
    Key { bytes: [b; 32] }
}

#[test]
fn keys_are_equal_when_their_bytes_are() {
    let mut bytes = [7u8; 32];
    assert_eq!(Key { bytes }, id_key(7));
    bytes[31] = 8;
    assert_ne!(Key { bytes }, id_key(7));
    bytes[31] = 7;
    bytes[0] = 0;
    assert_ne!(Key { bytes }, id_key(7));
    assert_eq!(id_key(7).to_vec(), vec![7u8; 32]);
}

#[test]
fn tags_are_ascii_words() {
    assert_eq!(&USER_TAG, b"user");
    assert_eq!(&PROMISE_TAG, b"promise");
    assert_eq!(&PROMISE_WALLET_TAG, b"promise_wallet");
}

#[test]
fn sequence_seed_is_big_endian() {
    assert_eq!(sequence_seed(0), vec![0, 0, 0, 0, 0, 0, 0, 0]);
    assert_eq!(sequence_seed(1), vec![0, 0, 0, 0, 0, 0, 0, 1]);
    assert_eq!(sequence_seed(256), vec![0, 0, 0, 0, 0, 0, 1, 0]);
    assert_eq!(sequence_seed(0x0102030405060708), vec![1, 2, 3, 4, 5, 6, 7, 8]);
    assert_eq!(sequence_seed(u64::MAX), vec![255u8; 8]);
}

#[test]
fn slug_seed_keeps_at_most_32_bytes() {
    assert_eq!(slug_seed(""), b"");
    assert_eq!(slug_seed("alice"), b"alice");
    let exact = "abcdefghijklmnopqrstuvwxyz012345";
    assert_eq!(exact.len(), 32);
    assert_eq!(slug_seed(exact), exact.as_bytes());
    let long = "abcdefghijklmnopqrstuvwxyz0123456789";
    assert_eq!(slug_seed(long), &long.as_bytes()[0..32]);
}

#[test]
fn slug_seed_counts_bytes_not_characters() {
    let slug = "ééééééééééééééééé";
    assert_eq!(slug.len(), 34);
    assert_eq!(slug_seed(slug), &slug.as_bytes()[0..32]);
}

#[test]
fn seed_tuples_hold_tag_owner_and_counter() {
    let owner = id_key(3);
    assert_eq!(user_seeds("alice"), vec![b"user".to_vec(), b"alice".to_vec()]);
    assert_eq!(
        promise_seeds(&owner, 5),
        vec![b"promise".to_vec(), vec![3u8; 32], vec![0, 0, 0, 0, 0, 0, 0, 5]]
    );
    assert_eq!(
        vault_seeds(&owner, 5),
        vec![b"promise_wallet".to_vec(), vec![3u8; 32], vec![0, 0, 0, 0, 0, 0, 0, 5]]
    );
    assert_eq!(
        signer_seeds(&owner, 5, 254),
        vec![
            b"promise_wallet".to_vec(),
            vec![3u8; 32],
            vec![0, 0, 0, 0, 0, 0, 0, 5],
            vec![254u8]
        ]
    );
}

#[test]
fn vault_authority_is_the_program_address_of_its_seeds() {
    let owner = id_key(3);
    let program = id_key(42);
    let counter: u64 = 9;
    let (expected, bump) = Pubkey::find_program_address(
        &[b"promise_wallet".as_ref(), owner.bytes.as_ref(), &counter.to_be_bytes()],
        &Pubkey::new_from_array(program.bytes),
    );
    let derived = vault_authority(&owner, counter, &program);
    assert_eq!(derived, Some((Key { bytes: expected.to_bytes() }, bump)));
    assert_ne!(derived.unwrap().0, owner);
    assert_ne!(derived.unwrap().0, program);
}

#[test]
fn user_and_promise_addresses_are_program_addresses() {
    let owner = id_key(3);
    let program = id_key(42);
    let (user, user_bump) = Pubkey::find_program_address(
        &[b"user".as_ref(), b"alice".as_ref()],
        &Pubkey::new_from_array(program.bytes),
    );
    assert_eq!(user_address("alice", &program), Some((Key { bytes: user.to_bytes() }, user_bump)));
    let (promise, promise_bump) = Pubkey::find_program_address(
        &[b"promise".as_ref(), owner.bytes.as_ref(), &1u64.to_be_bytes()],
        &Pubkey::new_from_array(program.bytes),
    );
    assert_eq!(
        promise_address(&owner, 1, &program),
        Some((Key { bytes: promise.to_bytes() }, promise_bump))
    );
}

#[test]
fn derivation_is_deterministic_and_tells_inputs_apart() {
    let owner = id_key(3);
    let program = id_key(42);
    let first = vault_authority(&owner, 0, &program);
    assert!(first.is_some());
    assert_eq!(first, vault_authority(&owner, 0, &program));
    assert_ne!(first, vault_authority(&owner, 1, &program));
    assert_ne!(first, vault_authority(&id_key(4), 0, &program));
    assert_ne!(first, vault_authority(&owner, 0, &id_key(43)));
    assert_ne!(first, promise_address(&owner, 0, &program));
}

#[test]
fn signer_seeds_derive_the_authority_they_sign_for() {
    let owner = id_key(3);
    let program = id_key(42);
    let (authority, bump) = vault_authority(&owner, 2, &program).unwrap();
    let seeds = signer_seeds(&owner, 2, bump);
    let parts: Vec<&[u8]> = seeds.iter().map(|s| s.as_slice()).collect();
    let made = Pubkey::create_program_address(&parts, &Pubkey::new_from_array(program.bytes));
    assert_eq!(made.unwrap().to_bytes(), authority.bytes);
}

#[test]
fn no_address_for_a_seed_that_is_too_long() {
    let program = id_key(42);
    assert_eq!(find_address(&vec![vec![0u8; 33]], &program), None);
    assert!(find_address(&vec![vec![0u8; 32]], &program).is_some());
}

#[test]
fn slugs_with_the_same_first_32_bytes_share_an_address() {
    let program = id_key(42);
    let a = "abcdefghijklmnopqrstuvwxyz012345-one";
    let b = "abcdefghijklmnopqrstuvwxyz012345-two";
    assert_eq!(user_address(a, &program), user_address(b, &program));
    assert_ne!(user_address("alice", &program), user_address("bob", &program));
}
