use registry::address::{find_entry_address, find_registry_address};
use registry::pubkey::Pubkey;
use registry::{check_id, id, ID};

fn key(byte: u8) -> Pubkey {
    Pubkey::new_from_array([byte; 32])
}

#[test]
fn registry_address_of_known_inputs() {
    let (address, bump) = find_registry_address(&key(1), "acme", &id()).unwrap();
    assert_eq!(
        address.to_bytes(),
        [
            104, 18, 133, 51, 6, 12, 139, 104, 224, 157, 100, 144, 169, 106, 66, 214, 186, 23,
            102, 234, 184, 215, 151, 253, 60, 128, 121, 163, 37, 11, 214, 56
        ]
    );
    assert_eq!(bump, 255);
}

#[test]
fn entry_address_of_known_inputs() {
    let (registry, _) = find_registry_address(&key(1), "acme", &id()).unwrap();
    let (address, bump) = find_entry_address(&key(2), &registry, &id()).unwrap();
    assert_eq!(
        address.to_bytes(),
        [
            108, 123, 76, 241, 113, 110, 102, 148, 7, 146, 154, 217, 8, 24, 205, 122, 60, 125,
            174, 222, 245, 36, 9, 124, 100, 45, 225, 23, 54, 47, 150, 69
        ]
    );
    assert_eq!(bump, 251);
}

#[test]
fn entry_address_with_a_lower_bump() {
    let (address, bump) = find_entry_address(&key(2), &key(7), &key(9)).unwrap();
    assert_eq!(
        address.to_bytes(),
        [
            224, 176, 252, 230, 48, 116, 235, 103, 201, 73, 219, 171, 101, 159, 200, 90, 189, 39,
            28, 234, 112, 9, 86, 193, 123, 171, 31, 71, 156, 114, 113, 188
        ]
    );
    assert_eq!(bump, 253);
}

#[test]
fn derivation_agrees_with_the_outside_function() {
    let program = anchor_lang::prelude::Pubkey::new_from_array([9; 32]);
    for byte in 0..40u8 {
        let expected =
            anchor_lang::prelude::Pubkey::find_program_address(&[&[byte; 32], &[7; 32]], &program);
        let (address, bump) = find_entry_address(&key(byte), &key(7), &key(9)).unwrap();
        assert_eq!(address.to_bytes(), expected.0.to_bytes());
        assert_eq!(bump, expected.1);
    }
}

#[test]
fn derivation_is_repeatable() {
    let first = find_entry_address(&key(3), &key(4), &key(5));
    let second = find_entry_address(&key(3), &key(4), &key(5));
    assert!(first.is_some());
    assert_eq!(first, second);
    let first = find_registry_address(&key(3), "names", &key(5));
    let second = find_registry_address(&key(3), "names", &key(5));
    assert!(first.is_some());
    assert_eq!(first, second);
}

#[test]
fn derivation_tells_inputs_apart() {
    let base = find_entry_address(&key(3), &key(4), &key(5)).unwrap().0;
    assert_ne!(base, key(3));
    assert_ne!(base, key(4));
    assert_ne!(base, find_entry_address(&key(4), &key(3), &key(5)).unwrap().0);
    assert_ne!(base, find_entry_address(&key(6), &key(4), &key(5)).unwrap().0);
    assert_ne!(base, find_entry_address(&key(3), &key(6), &key(5)).unwrap().0);
    assert_ne!(base, find_entry_address(&key(3), &key(4), &key(6)).unwrap().0);
    let named = find_registry_address(&key(3), "a", &key(5)).unwrap().0;
    assert_ne!(named, find_registry_address(&key(3), "b", &key(5)).unwrap().0);
    assert_ne!(named, find_registry_address(&key(4), "a", &key(5)).unwrap().0);
}

#[test]
fn registry_name_of_seed_length() {
    let longest = "a".repeat(32);
    assert!(find_registry_address(&key(1), &longest, &key(5)).is_some());
    let too_long = "a".repeat(33);
    assert_eq!(find_registry_address(&key(1), &too_long, &key(5)), None);
    assert!(find_registry_address(&key(1), "", &key(5)).is_some());
}

#[test]
fn program_key_is_the_declared_one() {
    let declared: anchor_lang::prelude::Pubkey =
        "E2FcHsC9STeB6FEtxBKGAwMTX7cbfYMyjSHKs4QbBAmh".parse().unwrap();
    assert_eq!(id().to_bytes(), declared.to_bytes());
    assert_eq!(ID, declared.to_bytes());
    assert!(check_id(&id()));
    assert!(!check_id(&key(0)));
}

#[test]
fn keys_compare_by_their_bytes() {
    let mut bytes = [5u8; 32];
    assert_eq!(Pubkey::new_from_array(bytes), key(5));
    bytes[31] = 6;
    assert_ne!(Pubkey::new_from_array(bytes), key(5));
    bytes[31] = 5;
    bytes[0] = 6;
    assert_ne!(Pubkey::new_from_array(bytes), key(5));
    assert_eq!(Pubkey::default().to_bytes(), [0u8; 32]);
}
