use dash_handshake::checksum::calculate_checksum;
use dash_handshake::command::get_command_from_response;
use dash_handshake::message::{
    assemble_frame, create_message, COMMAND_FIELD_LEN, COMMAND_INV, COMMAND_VERACK, COMMAND_VERSION,
    DASH_DEFAULT_PORT, DASH_MAINNET_MAGIC,
};

fn length_field(frame: &[u8]) -> u32 {
    u32::from_le_bytes([frame[16], frame[17], frame[18], frame[19]])
}

#[test]
fn constants_of_the_wire_format() {
    assert_eq!(DASH_MAINNET_MAGIC, [0xbf, 0x0c, 0x6b, 0xbd]);
    assert_eq!(DASH_DEFAULT_PORT, 9999);
    assert_eq!(COMMAND_VERSION, "version");
    assert_eq!(COMMAND_VERACK, "verack");
    assert_eq!(COMMAND_INV, "inv");
    assert_eq!(COMMAND_FIELD_LEN, 12);
}

#[test]
fn verack_frame_is_exact() {
    let frame = create_message("verack", &[]);
    let expected: Vec<u8> = vec![
        0xbf, 0x0c, 0x6b, 0xbd, // magic
        b'v', b'e', b'r', b'a', b'c', b'k', 0, 0, 0, 0, 0, 0, // command
        0, 0, 0, 0, // length
        0x5d, 0xf6, 0xe0, 0xe2, // checksum
    ];
    assert_eq!(frame, expected);
}

#[test]
fn frame_with_payload_is_exact() {
    let frame = create_message("inv", b"hello");
    let expected: Vec<u8> = vec![
        0xbf, 0x0c, 0x6b, 0xbd, b'i', b'n', b'v', 0, 0, 0, 0, 0, 0, 0, 0, 0, 5, 0, 0, 0, 0x95, 0x95,
        0xc9, 0xdf, b'h', b'e', b'l', b'l', b'o',
    ];
    assert_eq!(frame, expected);
}

#[test]
fn frame_starts_with_magic() {
    let frame = create_message("version", &[1, 2, 3]);
    assert_eq!(&frame[0..4], &DASH_MAINNET_MAGIC[..]);
}

#[test]
fn length_field_is_payload_length() {
    for len in [0usize, 1, 2, 255, 256, 257, 1000, 65536, 70000] {
        let payload = vec![0xabu8; len];
        let frame = create_message("version", &payload);
        assert_eq!(length_field(&frame) as usize, len);
        assert_eq!(frame.len(), 24 + len);
    }
}

#[test]
fn length_field_is_little_endian() {
    let payload = vec![0u8; 0x010203];
    let frame = create_message("x", &payload);
    assert_eq!(&frame[16..20], &[0x03, 0x02, 0x01, 0x00]);
}

#[test]
fn checksum_field_is_double_hash_of_payload() {
    for payload in [&b""[..], &b"hello"[..], &[0u8; 300][..]] {
        let frame = create_message("verack", payload);
        assert_eq!(&frame[20..24], &calculate_checksum(payload)[..]);
    }
    let frame = create_message("version", b"hello");
    assert_eq!(&frame[20..24], &[0x95, 0x95, 0xc9, 0xdf]);
}

#[test]
fn payload_follows_header_unchanged() {
    let payload: Vec<u8> = (0..=255u8).collect();
    let frame = create_message("version", &payload);
    assert_eq!(&frame[24..], &payload[..]);
}

#[test]
fn command_is_padded_with_zero_bytes() {
    let frame = create_message("version", &[]);
    assert_eq!(&frame[4..11], b"version");
    assert_eq!(&frame[11..16], &[0u8; 5]);
}

#[test]
fn command_of_twelve_bytes_has_no_padding() {
    let frame = create_message("abcdefghijkl", &[9]);
    assert_eq!(&frame[4..16], b"abcdefghijkl");
    assert_eq!(length_field(&frame), 1);
    assert_eq!(frame.len(), 25);
}

#[test]
fn empty_command_is_all_padding() {
    let frame = create_message("", &[]);
    assert_eq!(&frame[4..16], &[0u8; 12]);
    assert_eq!(frame.len(), 24);
}

#[test]
fn command_that_is_not_ascii_is_framed_by_its_bytes() {
    let frame = create_message("h\u{e9}llo", &[]);
    assert_eq!(&frame[4..10], "h\u{e9}llo".as_bytes());
    assert_eq!(&frame[10..16], &[0u8; 6]);
}

#[test]
fn extracting_from_a_frame_gives_the_command_back() {
    let commands = ["version", "verack", "inv", "", "a", "getheaders", "abcdefghijkl", "h\u{e9}llo"];
    let payloads: [&[u8]; 4] = [&[], &[0], b"hello", &[0xff; 100]];
    for command in commands {
        for payload in payloads {
            let frame = create_message(command, payload);
            assert_eq!(get_command_from_response(&frame), command);
        }
    }
}

#[test]
fn extracting_drops_nul_characters_at_the_end_of_a_command() {
    let frame = create_message("ab\0", &[]);
    assert_eq!(get_command_from_response(&frame), "ab");
    let frame = create_message("a\0b", &[]);
    assert_eq!(get_command_from_response(&frame), "a\0b");
}

#[test]
fn create_message_through_crate_root() {
    assert_eq!(dash_handshake::create_message("verack", &[]).len(), 24);
}

#[test]
fn assembled_frame_is_exact() {
    let frame = assemble_frame("inv", &[7, 8], &[1, 2, 3, 4]);
    let expected: Vec<u8> = vec![
        0xbf, 0x0c, 0x6b, 0xbd, b'i', b'n', b'v', 0, 0, 0, 0, 0, 0, 0, 0, 0, 2, 0, 0, 0, 1, 2, 3,
        4, 7, 8,
    ];
    assert_eq!(frame, expected);
}

#[test]
fn created_frame_is_assembled_with_the_checksum_of_the_payload() {
    let payload = b"some payload";
    assert_eq!(
        create_message("version", payload),
        assemble_frame("version", payload, &calculate_checksum(payload))
    );
}
