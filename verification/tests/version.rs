use dash_handshake::version::{
    create_version_message_payload, unix_seconds, version_payload, ConfigError, NetAddress,
    VersionConfig, MAX_USER_AGENT_LEN, PROTOCOL_VERSION, USER_AGENT,
};
use std::time::{SystemTime, UNIX_EPOCH};

fn i32_at(bytes: &[u8], at: usize) -> i32 {
    i32::from_le_bytes([bytes[at], bytes[at + 1], bytes[at + 2], bytes[at + 3]])
}

fn u64_at(bytes: &[u8], at: usize) -> u64 {
    let mut field = [0u8; 8];
    field.copy_from_slice(&bytes[at..at + 8]);
    u64::from_le_bytes(field)
}

fn i64_at(bytes: &[u8], at: usize) -> i64 {
    u64_at(bytes, at) as i64
}

fn port_at(bytes: &[u8], at: usize) -> u16 {
    u16::from_be_bytes([bytes[at], bytes[at + 1]])
}

fn sample_config() -> VersionConfig {
    let receiver = NetAddress {
        services: 9,
        ip: [0, 1, 2, 3, 4, 5, 6, 7, 8, 9, 10, 11, 12, 13, 14, 15],
        port: 0x1234,
    };
    let sender = NetAddress {
        services: 0xff,
        ip: [16, 17, 18, 19, 20, 21, 22, 23, 24, 25, 26, 27, 28, 29, 30, 31],
        port: 0xabcd,
    };
    VersionConfig::new(-2, 0x0102030405060708, receiver, sender, "ab", -70000).unwrap()
}

#[test]
fn constants_of_the_payload() {
    assert_eq!(PROTOCOL_VERSION, 70230);
    assert_eq!(USER_AGENT, "/DashRustClient:0.1.0/");
    assert_eq!(MAX_USER_AGENT_LEN, 255);
}

#[test]
fn mainnet_payload_is_exact() {
    let payload = version_payload(&VersionConfig::dash_mainnet(), 1700000000, 0x0123456789abcdef);
    let expected: Vec<u8> = vec![
        86, 18, 1, 0, // protocol version
        0, 0, 0, 0, 0, 0, 0, 0, // local services
        0, 241, 83, 101, 0, 0, 0, 0, // timestamp
        1, 0, 0, 0, 0, 0, 0, 0, // receiver services
        0, 0, 0, 0, 0, 0, 0, 0, 0, 0, 255, 255, 8, 219, 5, 90, // receiver address
        39, 15, // receiver port
        0, 0, 0, 0, 0, 0, 0, 0, // sender services
        0, 0, 0, 0, 0, 0, 0, 0, 0, 0, 0, 0, 0, 0, 0, 0, // sender address
        39, 15, // sender port
        239, 205, 171, 137, 103, 69, 35, 1, // nonce
        22, // user agent length
        47, 68, 97, 115, 104, 82, 117, 115, 116, 67, 108, 105, 101, 110, 116, 58, 48, 46, 49, 46,
        48, 47, // user agent
        0, 0, 0, 0, // start height
    ];
    assert_eq!(payload.len(), 107);
    assert_eq!(payload, expected);
}

#[test]
fn payload_with_negative_fields_is_exact() {
    let payload = version_payload(&sample_config(), -3, 0xfedcba9876543210);
    let expected: Vec<u8> = vec![
        254, 255, 255, 255, 8, 7, 6, 5, 4, 3, 2, 1, 253, 255, 255, 255, 255, 255, 255, 255, 9, 0,
        0, 0, 0, 0, 0, 0, 0, 1, 2, 3, 4, 5, 6, 7, 8, 9, 10, 11, 12, 13, 14, 15, 18, 52, 255, 0, 0,
        0, 0, 0, 0, 0, 16, 17, 18, 19, 20, 21, 22, 23, 24, 25, 26, 27, 28, 29, 30, 31, 171, 205,
        16, 50, 84, 118, 152, 186, 220, 254, 2, 97, 98, 144, 238, 254, 255,
    ];
    assert_eq!(payload, expected);
}

#[test]
fn payload_fields_read_back_as_configured() {
    let config = sample_config();
    let payload = version_payload(&config, 1234567890123, 42);
    assert_eq!(i32_at(&payload, 0), -2);
    assert_eq!(u64_at(&payload, 4), 0x0102030405060708);
    assert_eq!(i64_at(&payload, 12), 1234567890123);
    assert_eq!(u64_at(&payload, 20), 9);
    assert_eq!(&payload[28..44], &config.receiver().ip[..]);
    assert_eq!(port_at(&payload, 44), 0x1234);
    assert_eq!(u64_at(&payload, 46), 0xff);
    assert_eq!(&payload[54..70], &config.sender().ip[..]);
    assert_eq!(port_at(&payload, 70), 0xabcd);
    assert_eq!(u64_at(&payload, 72), 42);
    assert_eq!(payload[80], 2);
    assert_eq!(&payload[81..83], b"ab");
    assert_eq!(i32_at(&payload, 83), -70000);
    assert_eq!(payload.len(), 87);
}

#[test]
fn mainnet_payload_fields_read_back_as_configured() {
    let config = VersionConfig::dash_mainnet();
    let payload = version_payload(&config, 0, 0);
    assert_eq!(i32_at(&payload, 0), config.protocol_version());
    assert_eq!(u64_at(&payload, 4), config.local_services());
    assert_eq!(u64_at(&payload, 20), config.receiver().services);
    assert_eq!(u64_at(&payload, 46), config.sender().services);
    let agent_len = payload[80] as usize;
    assert_eq!(&payload[81..81 + agent_len], config.user_agent().as_bytes());
    assert_eq!(i32_at(&payload, 81 + agent_len), config.start_height());
}

#[test]
fn extreme_values_read_back() {
    let address = NetAddress { services: u64::MAX, ip: [0xff; 16], port: u16::MAX };
    for (version, height) in [(i32::MIN, i32::MAX), (i32::MAX, i32::MIN), (0, -1), (-1, 0)] {
        let config = VersionConfig::new(version, u64::MAX, address, address, "", height).unwrap();
        for (timestamp, nonce) in [(i64::MIN, u64::MAX), (i64::MAX, 0), (-1, 1), (0, 1 << 63)] {
            let payload = version_payload(&config, timestamp, nonce);
            assert_eq!(payload.len(), 85);
            assert_eq!(i32_at(&payload, 0), version);
            assert_eq!(u64_at(&payload, 4), u64::MAX);
            assert_eq!(i64_at(&payload, 12), timestamp);
            assert_eq!(port_at(&payload, 44), u16::MAX);
            assert_eq!(u64_at(&payload, 72), nonce);
            assert_eq!(payload[80], 0);
            assert_eq!(i32_at(&payload, 81), height);
        }
    }
}

#[test]
fn mainnet_settings() {
    let config = VersionConfig::dash_mainnet();
    assert_eq!(config.protocol_version(), 70230);
    assert_eq!(config.local_services(), 0);
    assert_eq!(config.receiver().services, 1);
    assert_eq!(config.receiver().ip, [0, 0, 0, 0, 0, 0, 0, 0, 0, 0, 0xff, 0xff, 8, 219, 5, 90]);
    assert_eq!(config.receiver().port, 9999);
    assert_eq!(config.sender().services, 0);
    assert_eq!(config.sender().ip, [0u8; 16]);
    assert_eq!(config.sender().port, 9999);
    assert_eq!(config.user_agent(), "/DashRustClient:0.1.0/");
    assert_eq!(config.start_height(), 0);
}

#[test]
fn ipv4_address_is_mapped() {
    let address = NetAddress::from_ipv4(5, [192, 168, 1, 2], 8333);
    assert_eq!(address.services, 5);
    assert_eq!(address.ip, [0, 0, 0, 0, 0, 0, 0, 0, 0, 0, 0xff, 0xff, 192, 168, 1, 2]);
    assert_eq!(address.port, 8333);
}

#[test]
fn unspecified_address_is_zero() {
    let address = NetAddress::unspecified(3, 19999);
    assert_eq!(address.services, 3);
    assert_eq!(address.ip, [0u8; 16]);
    assert_eq!(address.port, 19999);
}

#[test]
fn user_agent_of_255_bytes_is_accepted() {
    let address = NetAddress::unspecified(0, 0);
    let agent = "a".repeat(255);
    let config = VersionConfig::new(1, 2, address, address, &agent, 3).unwrap();
    assert_eq!(config.user_agent(), agent);
    let payload = version_payload(&config, 0, 0);
    assert_eq!(payload.len(), 85 + 255);
    assert_eq!(payload[80], 255);
    assert_eq!(&payload[81..336], agent.as_bytes());
    assert_eq!(i32_at(&payload, 336), 3);
}

#[test]
fn user_agent_of_256_bytes_is_rejected() {
    let address = NetAddress::unspecified(0, 0);
    let agent = "a".repeat(256);
    let result = VersionConfig::new(1, 2, address, address, &agent, 3);
    assert!(matches!(result, Err(ConfigError::UserAgentTooLong)));
}

#[test]
fn user_agent_length_counts_bytes() {
    let address = NetAddress::unspecified(0, 0);
    // 128 characters of two bytes each.
    let agent = "\u{e9}".repeat(128);
    assert!(matches!(
        VersionConfig::new(1, 2, address, address, &agent, 3),
        Err(ConfigError::UserAgentTooLong)
    ));
    let agent = "\u{e9}".repeat(127);
    let config = VersionConfig::new(1, 2, address, address, &agent, 3).unwrap();
    let payload = version_payload(&config, 0, 0);
    assert_eq!(payload[80], 254);
    assert_eq!(payload.len(), 85 + 254);
}

#[test]
fn config_keeps_what_it_was_given() {
    let config = sample_config();
    assert_eq!(config.protocol_version(), -2);
    assert_eq!(config.local_services(), 0x0102030405060708);
    assert_eq!(config.receiver().services, 9);
    assert_eq!(config.receiver().port, 0x1234);
    assert_eq!(config.sender().services, 0xff);
    assert_eq!(config.sender().port, 0xabcd);
    assert_eq!(config.user_agent(), "ab");
    assert_eq!(config.start_height(), -70000);
}

#[test]
fn created_payload_carries_the_configuration() {
    let config = VersionConfig::dash_mainnet();
    let payload = create_version_message_payload(&config);
    assert_eq!(payload.len(), 107);
    let reference = version_payload(&config, i64_at(&payload, 12), u64_at(&payload, 72));
    assert_eq!(payload, reference);
}

#[test]
fn created_payload_is_stamped_with_the_time_of_the_call() {
    let before = SystemTime::now().duration_since(UNIX_EPOCH).unwrap().as_secs() as i64;
    let payload = create_version_message_payload(&VersionConfig::dash_mainnet());
    let after = SystemTime::now().duration_since(UNIX_EPOCH).unwrap().as_secs() as i64;
    let timestamp = i64_at(&payload, 12);
    assert!(before <= timestamp && timestamp <= after);
    assert!(timestamp > 1_600_000_000);
}

#[test]
fn created_payloads_draw_fresh_nonces() {
    let config = VersionConfig::dash_mainnet();
    let mut nonces: Vec<u64> = Vec::new();
    for _ in 0..16 {
        let payload = create_version_message_payload(&config);
        nonces.push(u64_at(&payload, 72));
    }
    nonces.sort();
    nonces.dedup();
    assert_eq!(nonces.len(), 16);
}

#[test]
fn created_payload_through_crate_root() {
    let config = dash_handshake::VersionConfig::dash_mainnet();
    assert_eq!(dash_handshake::create_version_message_payload(&config).len(), 107);
}

#[test]
fn timestamp_after_the_epoch_is_the_distance() {
    assert_eq!(unix_seconds(false, 0), 0);
    assert_eq!(unix_seconds(false, 1), 1);
    assert_eq!(unix_seconds(false, 1700000000), 1700000000);
    assert_eq!(unix_seconds(false, i64::MAX as u64), i64::MAX);
}

#[test]
fn timestamp_before_the_epoch_is_negative() {
    assert_eq!(unix_seconds(true, 0), 0);
    assert_eq!(unix_seconds(true, 1), -1);
    assert_eq!(unix_seconds(true, 86400), -86400);
    assert_eq!(unix_seconds(true, i64::MAX as u64), -i64::MAX);
}

#[test]
fn timestamp_out_of_range_is_held_to_the_range() {
    assert_eq!(unix_seconds(false, i64::MAX as u64 + 1), i64::MAX);
    assert_eq!(unix_seconds(false, u64::MAX), i64::MAX);
    assert_eq!(unix_seconds(true, i64::MAX as u64 + 1), i64::MIN);
    assert_eq!(unix_seconds(true, u64::MAX), i64::MIN);
}
