use trustnet::ledger::Pubkey;
use trustnet::utils::hashing::{hash_bytes, hash_vote, vote_preimage};

fn key(fill: u8) -> Pubkey {
    Pubkey { bytes: [fill; 32] }
}

#[test]
fn hash_bytes_of_the_empty_input() {
    let expected: [u8; 32] = [
        0xe3, 0xb0, 0xc4, 0x42, 0x98, 0xfc, 0x1c, 0x14, 0x9a, 0xfb, 0xf4, 0xc8, 0x99, 0x6f, 0xb9,
        0x24, 0x27, 0xae, 0x41, 0xe4, 0x64, 0x9b, 0x93, 0x4c, 0xa4, 0x95, 0x99, 0x1b, 0x78, 0x52,
        0xb8, 0x55,
    ];
    assert_eq!(hash_bytes(&[]), expected);
}

#[test]
fn hash_bytes_of_abc() {
    let expected: [u8; 32] = [
        0xba, 0x78, 0x16, 0xbf, 0x8f, 0x01, 0xcf, 0xea, 0x41, 0x41, 0x40, 0xde, 0x5d, 0xae, 0x22,
        0x23, 0xb0, 0x03, 0x61, 0xa3, 0x96, 0x17, 0x7a, 0x9c, 0xb4, 0x10, 0xff, 0x61, 0xf2, 0x00,
        0x15, 0xad,
    ];
    assert_eq!(hash_bytes(&[0x61, 0x62, 0x63]), expected);
}

#[test]
fn hash_bytes_does_not_hand_its_input_back() {
    let input = [7u8; 32];
    assert_ne!(hash_bytes(&input), input);
}

#[test]
fn vote_preimage_lays_the_parts_end_to_end() {
    let data = vote_preimage(&key(1), &key(2), true, &[9, 8, 7]);
    let mut expected: Vec<u8> = Vec::new();
    expected.extend_from_slice(&[1u8; 32]);
    expected.extend_from_slice(&[2u8; 32]);
    expected.push(1);
    expected.extend_from_slice(&[9, 8, 7]);
    assert_eq!(data, expected);
    let against = vote_preimage(&key(1), &key(2), false, &[]);
    assert_eq!(against.len(), 65);
    assert_eq!(against[64], 0);
}

#[test]
fn hash_vote_is_the_digest_of_the_preimage() {
    let salt = [5u8, 6, 7, 8];
    let digest = hash_vote(&key(1), &key(2), true, &salt);
    let data = vote_preimage(&key(1), &key(2), true, &salt);
    assert_eq!(digest, hash_bytes(&data));
}

#[test]
fn hash_vote_changes_with_each_part() {
    let salt = [5u8, 6, 7, 8];
    let digest = hash_vote(&key(1), &key(2), true, &salt);
    assert_ne!(digest, hash_vote(&key(1), &key(2), false, &salt));
    assert_ne!(digest, hash_vote(&key(1), &key(2), true, &[5, 6, 7, 9]));
    assert_ne!(digest, hash_vote(&key(3), &key(2), true, &salt));
    assert_ne!(digest, hash_vote(&key(1), &key(3), true, &salt));
    assert_eq!(digest, hash_vote(&key(1), &key(2), true, &salt));
}
