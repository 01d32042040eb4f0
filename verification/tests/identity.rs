use anchor_lang::prelude::Pubkey;
use user_points::identity::Identity;

fn key(tag: u8) -> Identity {
    Identity::new([tag; 32])
}

#[test]
fn default_identity_is_all_zero() {
    assert_eq!(Identity::default().to_bytes(), [0u8; 32]);
    assert_eq!(Identity::default().to_bytes(), Pubkey::default().to_bytes());
}

#[test]
fn default_identity_is_recognised() {
    assert!(Identity::default().is_default());
    assert!(Identity::new([0u8; 32]).is_default());
}

#[test]
fn other_identities_are_not_default() {
    assert!(!key(1).is_default());
    let mut bytes = [0u8; 32];
    bytes[31] = 1;
    assert!(!Identity::new(bytes).is_default());
    let mut bytes = [0u8; 32];
    bytes[0] = 0x80;
    assert!(!Identity::new(bytes).is_default());
}

#[test]
fn new_keeps_the_bytes() {
    let mut bytes = [0u8; 32];
    for (i, b) in bytes.iter_mut().enumerate() {
        *b = i as u8;
    }
    assert_eq!(Identity::new(bytes).to_bytes(), bytes);
    assert_eq!(Identity::new(bytes).bytes, bytes);
}

#[test]
fn equal_bytes_make_equal_identities() {
    assert_eq!(key(7), key(7));
    assert!(key(7) == Identity::new([7u8; 32]));
    assert!(!(key(7) != key(7)));
}

#[test]
fn one_differing_byte_makes_identities_differ() {
    for at in [0usize, 7, 8, 15, 16, 23, 24, 31] {
        let mut bytes = [7u8; 32];
        bytes[at] = 8;
        assert_ne!(key(7), Identity::new(bytes));
        assert!(key(7) != Identity::new(bytes));
        assert!(!(Identity::new(bytes) == key(7)));
    }
}

#[test]
fn equality_agrees_with_the_key_type() {
    let a = [3u8; 32];
    let mut b = [3u8; 32];
    b[20] = 4;
    assert_eq!(Identity::new(a) == Identity::new(a), Pubkey::from(a) == Pubkey::from(a));
    assert_eq!(Identity::new(a) == Identity::new(b), Pubkey::from(a) == Pubkey::from(b));
}
