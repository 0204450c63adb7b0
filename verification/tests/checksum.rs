use dash_handshake::checksum::{calculate_checksum, checksum_from_digest};

#[test]
fn checksum_of_empty_payload_is_pinned() {
    assert_eq!(calculate_checksum(b""), vec![0x5d, 0xf6, 0xe0, 0xe2]);
}

#[test]
fn checksum_is_deterministic() {
    let first = calculate_checksum(b"");
    let second = calculate_checksum(b"");
    assert_eq!(first, second);
    let payload = vec![7u8; 1000];
    assert_eq!(calculate_checksum(&payload), calculate_checksum(&payload));
}

#[test]
fn checksum_of_known_payloads() {
    assert_eq!(calculate_checksum(b"hello"), vec![0x95, 0x95, 0xc9, 0xdf]);
    assert_eq!(calculate_checksum(b"abc"), vec![0x4f, 0x8b, 0x42, 0xc2]);
}

#[test]
fn checksum_has_four_bytes() {
    assert_eq!(calculate_checksum(b"").len(), 4);
    assert_eq!(calculate_checksum(&[0u8; 64]).len(), 4);
    assert_eq!(calculate_checksum(&[0xffu8; 4096]).len(), 4);
}

#[test]
fn checksum_depends_on_payload() {
    assert_ne!(calculate_checksum(b"hello"), calculate_checksum(b"hellp"));
    assert_ne!(calculate_checksum(b""), calculate_checksum(&[0u8]));
}

#[test]
fn checksum_through_crate_root() {
    assert_eq!(dash_handshake::calculate_checksum(b"hello"), vec![0x95, 0x95, 0xc9, 0xdf]);
}

#[test]
fn checksum_is_the_start_of_the_digest() {
    let digest: Vec<u8> = (1..=32u8).collect();
    assert_eq!(checksum_from_digest(&digest), vec![1, 2, 3, 4]);
    assert_eq!(checksum_from_digest(&[9, 8, 7, 6]), vec![9, 8, 7, 6]);
    assert_eq!(checksum_from_digest(&[0xff, 0, 0xff, 0, 0xff]), vec![0xff, 0, 0xff, 0]);
}
