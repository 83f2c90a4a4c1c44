use m2::identity::user_address;
use m2::{Key, M2Errors, M2User, UserRegistry};

fn rg_key(b: u8) -> Key {
    Key { bytes: [b; 32] }
}

#[test]
fn a_new_registry_is_empty() {
    let registry = UserRegistry::new();
    assert_eq!(registry.get(&rg_key(1)), None);
}

#[test]
fn registration_creates_the_record_at_the_derived_address() {
    let program = rg_key(42);
    let mut registry = UserRegistry::new();
    let address = registry
        .register(rg_key(1), "Alice".to_string(), "alice".to_string(), &program)
        .unwrap();
    assert_eq!(user_address("alice", &program).map(|derived| derived.0), Some(address));
    assert_eq!(
        registry.get(&address),
        Some(&M2User {
            slug: "alice".to_string(),
            name: "Alice".to_string(),
            promise_count: 0,
            user_pk: rg_key(1),
        })
    );
    assert_eq!(registry.get(&rg_key(1)), None);
}

#[test]
fn a_slug_is_registered_once() {
    let program = rg_key(42);
    let mut registry = UserRegistry::new();
    let address = registry
        .register(rg_key(1), "Alice".to_string(), "alice".to_string(), &program)
        .unwrap();
    assert_eq!(
        registry.register(rg_key(1), "Alice".to_string(), "alice".to_string(), &program),
        Err(M2Errors::DuplicateUser)
    );
    assert_eq!(
        registry.register(rg_key(2), "Mallory".to_string(), "alice".to_string(), &program),
        Err(M2Errors::DuplicateUser)
    );
    assert!(registry.register(rg_key(2), "Bob".to_string(), "bob".to_string(), &program).is_ok());
    assert_eq!(
        registry.register(rg_key(3), "Carol".to_string(), "alice".to_string(), &program),
        Err(M2Errors::DuplicateUser)
    );
    assert_eq!(registry.get(&address).unwrap().name, "Alice");
    assert_eq!(registry.get(&address).unwrap().user_pk, rg_key(1));
}

#[test]
fn slugs_that_share_32_bytes_collide() {
    let program = rg_key(42);
    let mut registry = UserRegistry::new();
    let first = "abcdefghijklmnopqrstuvwxyz012345-one".to_string();
    let second = "abcdefghijklmnopqrstuvwxyz012345-two".to_string();
    assert!(registry.register(rg_key(1), "One".to_string(), first, &program).is_ok());
    assert_eq!(
        registry.register(rg_key(2), "Two".to_string(), second, &program),
        Err(M2Errors::DuplicateUser)
    );
}

#[test]
fn one_party_may_register_under_several_slugs() {
    let program = rg_key(42);
    let mut registry = UserRegistry::new();
    let a = registry.register(rg_key(1), "Alice".to_string(), "alice".to_string(), &program);
    let b = registry.register(rg_key(1), "Alice".to_string(), "alice2".to_string(), &program);
    assert!(a.is_ok() && b.is_ok());
    assert_ne!(a, b);
}

#[test]
fn registration_at_a_given_address() {
    let mut registry = UserRegistry::new();
    assert_eq!(
        registry.register_at(rg_key(1), "Alice".to_string(), "alice".to_string(), None),
        Err(M2Errors::NoDerivedAddress)
    );
    let at_7 = Some((rg_key(7), 255));
    let at_8 = Some((rg_key(8), 254));
    assert_eq!(
        registry.register_at(rg_key(1), "Alice".to_string(), "alice".to_string(), at_7),
        Ok(rg_key(7))
    );
    assert_eq!(
        registry.register_at(rg_key(2), "Bob".to_string(), "bob".to_string(), at_7),
        Err(M2Errors::DuplicateUser)
    );
    assert_eq!(
        registry.register_at(rg_key(2), "Bob".to_string(), "bob".to_string(), at_8),
        Ok(rg_key(8))
    );
    assert_eq!(registry.get(&rg_key(7)).unwrap().slug, "alice");
    assert_eq!(registry.get(&rg_key(8)).unwrap().slug, "bob");
    assert_eq!(registry.get(&rg_key(9)), None);
}

#[test]
fn the_same_slug_under_another_program_is_another_record() {
    let mut registry = UserRegistry::new();
    let a = registry.register(rg_key(1), "Alice".to_string(), "alice".to_string(), &rg_key(42));
    let b = registry.register(rg_key(1), "Alice".to_string(), "alice".to_string(), &rg_key(43));
    assert!(a.is_ok() && b.is_ok());
    assert_ne!(a, b);
}

#[test]
fn every_record_lives_at_the_address_of_its_slug() {
    let program = rg_key(42);
    let mut registry = UserRegistry::new();
    let mut addresses = Vec::new();
    for (owner, slug) in [(1u8, "alice"), (2, "bob"), (1, "carol"), (3, "dave")] {
        let address = registry
            .register(rg_key(owner), slug.to_uppercase(), slug.to_string(), &program)
            .unwrap();
        addresses.push(address);
    }
    for (i, address) in addresses.iter().enumerate() {
        let record = registry.get(address).unwrap();
        assert_eq!(user_address(&record.slug, &program).map(|derived| derived.0), Some(*address));
        for other in &addresses[i + 1..] {
            assert_ne!(address, other);
            assert_ne!(record.slug, registry.get(other).unwrap().slug);
        }
    }
}
