use std::collections::hash_map::DefaultHasher;
use std::collections::HashMap;
use std::hash::{Hash, Hasher};

use social_service::address::Address;

#[test]
fn address_test_different_addresses() {
    let first_address = Address("0xAlice".to_string());
    let second_address = Address("0xBob".to_string());

    assert_ne!(first_address, second_address);
}

#[test]
fn address_test_same_address_lower() {
    let first_address = Address("0xAlice".to_string());
    let second_address = Address("0xaLICE".to_string());

    assert_eq!(first_address, second_address);
}

#[test]
fn address_test_hash_map() {
    let mut map = HashMap::new();

    map.insert(Address("0xAlice".to_string()), "first_value");

    assert!(map.contains_key(&Address("0xAlice".to_string())));
    assert!(map.contains_key(&Address("0xaLICE".to_string())));
    assert!(!map.contains_key(&Address("0xBob".to_string())));
}

#[test]
fn addresses_built_with_new() {
    let mut map = HashMap::new();
    map.insert(Address::new("0xAlice".to_string()), "first_value");

    assert_eq!(Address::new("0xAlice".to_string()), Address::new("0xaLICE".to_string()));
    assert_ne!(Address::new("0xAlice".to_string()), Address::new("0xBob".to_string()));
    assert!(map.contains_key(&Address::new("0xALICE".to_string())));
    assert!(!map.contains_key(&Address::new("0xAlic".to_string())));
}

#[test]
fn address_hash_feeds_each_lowercase_byte() {
    let hash_of = |a: &Address| {
        let mut h = DefaultHasher::new();
        a.hash(&mut h);
        h.finish()
    };
    let mut expected = DefaultHasher::new();
    for b in "0xalice".as_bytes() {
        b.hash(&mut expected);
    }
    assert_eq!(hash_of(&Address("0xAlice".to_string())), expected.finish());
    assert_eq!(
        hash_of(&Address("0xAlice".to_string())),
        hash_of(&Address("0xaLICE".to_string()))
    );
}
