use std::collections::hash_map::DefaultHasher;
use std::hash::{Hash, Hasher};
use wholesum::gossip::{gossip_message_id, message_id_from_digest};

#[test]
fn message_id_from_digest_is_decimal() {
    assert_eq!(message_id_from_digest(0), b"0".to_vec());
    assert_eq!(message_id_from_digest(7), b"7".to_vec());
    assert_eq!(message_id_from_digest(10), b"10".to_vec());
    assert_eq!(message_id_from_digest(1_234_567_890), b"1234567890".to_vec());
    assert_eq!(message_id_from_digest(u64::MAX), b"18446744073709551615".to_vec());
}

#[test]
fn message_id_from_digest_matches_to_string() {
    for d in [1u64, 9, 99, 100, 101, 65_535, 4_294_967_296, 9_999_999_999_999_999_999] {
        assert_eq!(message_id_from_digest(d), d.to_string().into_bytes());
    }
}

#[test]
fn gossip_message_id_is_decimal_default_hash() {
    for data in [b"".to_vec(), b"hello".to_vec(), vec![0u8; 300], (0..=255u8).collect()] {
        let mut s = DefaultHasher::new();
        data.hash(&mut s);
        let expected = s.finish().to_string().into_bytes();
        assert_eq!(gossip_message_id(&data), expected);
    }
}

#[test]
fn gossip_message_id_is_content_addressed() {
    let a = gossip_message_id(b"same content");
    let b = gossip_message_id(&b"same content".to_vec());
    assert_eq!(a, b);
    assert_ne!(gossip_message_id(b"one"), gossip_message_id(b"two"));
}
