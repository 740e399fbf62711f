use custom_token_program::identity::{Identity, IDENTITY_BYTES};

#[test]
fn identity_keeps_its_bytes() {
    let mut bytes = [0u8; 32];
    for (i, byte) in bytes.iter_mut().enumerate() {
        *byte = i as u8;
    }
    let identity = Identity::new(bytes);
    assert_eq!(identity.to_bytes(), bytes);
    assert_eq!(identity.bytes, bytes);
    assert_eq!(IDENTITY_BYTES, 32);
}

#[test]
fn equal_identities_are_the_same() {
    let a = Identity::new([3u8; 32]);
    let b = Identity::new([3u8; 32]);
    assert!(a.same_as(&b));
    assert!(b.same_as(&a));
    assert!(a.same_as(&a));
}

#[test]
fn one_differing_byte_tells_identities_apart() {
    let a = Identity::new([3u8; 32]);
    for position in 0..32 {
        let mut bytes = [3u8; 32];
        bytes[position] = 4;
        let b = Identity::new(bytes);
        assert!(!a.same_as(&b));
        assert!(!b.same_as(&a));
    }
}
