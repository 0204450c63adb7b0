//! The payload of a `version` message.
//!
//! | field             | bytes        | encoding                          |
//! |-------------------|--------------|-----------------------------------|
//! | protocol version  | 0..4         | signed, little-endian             |
//! | local services    | 4..12        | unsigned, little-endian           |
//! | timestamp         | 12..20       | signed, little-endian, Unix seconds |
//! | receiver services | 20..28       | unsigned, little-endian           |
//! | receiver address  | 28..44       | sixteen bytes                     |
//! | receiver port     | 44..46       | unsigned, big-endian              |
//! | sender services   | 46..54       | unsigned, little-endian           |
//! | sender address    | 54..70       | sixteen bytes                     |
//! | sender port       | 70..72       | unsigned, big-endian              |
//! | nonce             | 72..80       | unsigned, little-endian           |
//! | user agent length | 80           | one byte, `n`                     |
//! | user agent        | 81..81+n     | `n` bytes                         |
//! | start height      | 81+n..85+n   | signed, little-endian             |

use crate::encoding::{
    be_bytes, be_value, from_twos_complement, le_bytes, le_value, lemma_capacity_values,
    lemma_le_bytes_len, lemma_le_round_trip, lemma_twos_complement_round_trip, twos_complement,
    write_i32_le, write_i64_le, write_u16_be, write_u64_le,
};
use crate::message::DASH_DEFAULT_PORT;
use std::time::{Duration, SystemTime, SystemTimeError, UNIX_EPOCH};
use vstd::prelude::*;
use vstd::utf8::{encode_utf8, is_ascii_chars, is_ascii_chars_encode_utf8};

verus! {

/// The protocol version that this node speaks.
pub const PROTOCOL_VERSION: i32 = 70230;

/// The user agent that this node reports.
pub const USER_AGENT: &'static str = "/DashRustClient:0.1.0/";

/// The longest user agent, in bytes, whose length fits the one-byte prefix.
pub const MAX_USER_AGENT_LEN: usize = 255;

/// A network address record: what a node offers and where it is reached.
#[derive(Clone, Copy, Debug)]
pub struct NetAddress {
    /// The service bits of the node at this address.
    pub services: u64,
    /// The IPv6 address; an IPv4 address stands in its IPv4-mapped form.
    pub ip: [u8; 16],
    /// The TCP port.
    pub port: u16,
}

/// The IPv4-mapped IPv6 form of `octets`: ten zero bytes, two bytes `0xff`,
/// and the four octets.
pub open spec fn ipv4_mapped(octets: Seq<u8>) -> Seq<u8> {
    seq![0u8, 0u8, 0u8, 0u8, 0u8, 0u8, 0u8, 0u8, 0u8, 0u8, 0xffu8, 0xffu8] + octets
}

/// The 26 bytes of an address record: services, address, port.
pub open spec fn net_address_bytes(address: NetAddress) -> Seq<u8> {
    le_bytes(address.services as nat, 8) + address.ip@ + be_bytes(address.port as nat, 2)
}

impl NetAddress {
    /// The record of a node that is reached over IPv4.
    pub fn from_ipv4(services: u64, octets: [u8; 4], port: u16) -> (address: NetAddress)
        ensures
            address.services == services,
            address.ip@ == ipv4_mapped(octets@),
            address.port == port,
    {
        let ip: [u8; 16] = [
            0,
            0,
            0,
            0,
            0,
            0,
            0,
            0,
            0,
            0,
            0xff,
            0xff,
            octets[0],
            octets[1],
            octets[2],
            octets[3],
        ];
        assert(ip@ =~= ipv4_mapped(octets@));
        NetAddress { services, ip, port }
    }

    /// The record of a node that knows no address of its own: the
    /// unspecified address, all zero.
    pub fn unspecified(services: u64, port: u16) -> (address: NetAddress)
        ensures
            address.services == services,
            address.ip@ == Seq::new(16, |i: int| 0u8),
            address.port == port,
    {
        let ip: [u8; 16] = [0; 16];
        assert(ip@ =~= Seq::new(16, |i: int| 0u8));
        NetAddress { services, ip, port }
    }
}

/// Why a configuration was turned down.
#[derive(Clone, Copy, Debug, PartialEq, Eq, Structural)]
pub enum ConfigError {
    /// The user agent is longer than 255 bytes, so its length does not fit
    /// the one-byte prefix.
    UserAgentTooLong,
}

/// What a `version` payload says of this node and of its peer, apart from
/// the timestamp and the nonce, which are drawn anew for each payload.
///
/// A value of this type always holds a user agent of at most 255 bytes.
#[derive(Debug)]
pub struct VersionConfig {
    protocol_version: i32,
    local_services: u64,
    receiver: NetAddress,
    sender: NetAddress,
    user_agent: String,
    start_height: i32,
}

/// The mathematical content of a [`VersionConfig`].
pub struct VersionSettings {
    pub protocol_version: i32,
    pub local_services: u64,
    pub receiver: NetAddress,
    pub sender: NetAddress,
    /// The user agent's bytes.
    pub user_agent: Seq<u8>,
    pub start_height: i32,
}

impl View for VersionConfig {
    type V = VersionSettings;

    closed spec fn view(&self) -> VersionSettings {
        VersionSettings {
            protocol_version: self.protocol_version,
            local_services: self.local_services,
            receiver: self.receiver,
            sender: self.sender,
            user_agent: encode_utf8(self.user_agent@),
            start_height: self.start_height,
        }
    }
}

/// The payload that `settings` gives with `timestamp` and `nonce`.
pub open spec fn version_payload_bytes(settings: VersionSettings, timestamp: i64, nonce: u64) -> Seq<
    u8,
> {
    le_bytes(twos_complement(settings.protocol_version as int, 4), 4) + le_bytes(
        settings.local_services as nat,
        8,
    ) + le_bytes(twos_complement(timestamp as int, 8), 8) + net_address_bytes(settings.receiver)
        + net_address_bytes(settings.sender) + le_bytes(nonce as nat, 8)
        + seq![settings.user_agent.len() as u8] + settings.user_agent + le_bytes(
        twos_complement(settings.start_height as int, 4),
        4,
    )
}

impl VersionConfig {
    #[verifier::type_invariant]
    spec fn user_agent_fits(self) -> bool {
        encode_utf8(self.user_agent@).len() <= 255
    }

    /// Checks the settings and keeps them.
    ///
    /// The one thing that can be wrong with them is a user agent of more
    /// than 255 bytes.
    pub fn new(
        protocol_version: i32,
        local_services: u64,
        receiver: NetAddress,
        sender: NetAddress,
        user_agent: &str,
        start_height: i32,
    ) -> (config: Result<VersionConfig, ConfigError>)
        ensures
            match config {
                Ok(c) => encode_utf8(user_agent@).len() <= 255 && c@ == (VersionSettings {
                    protocol_version,
                    local_services,
                    receiver,
                    sender,
                    user_agent: encode_utf8(user_agent@),
                    start_height,
                }),
                Err(e) => encode_utf8(user_agent@).len() > 255 && e
                    == ConfigError::UserAgentTooLong,
            },
    {
        if user_agent.as_bytes().len() > MAX_USER_AGENT_LEN {
            return Err(ConfigError::UserAgentTooLong);
        }
        Ok(
            VersionConfig {
                protocol_version,
                local_services,
                receiver,
                sender,
                user_agent: user_agent.to_owned(),
                start_height,
            },
        )
    }

    /// The settings for a handshake with the Dash main network node at
    /// 8.219.5.90: protocol version 70230, no services offered, no address
    /// of our own, and a chain that starts at height 0.
    pub fn dash_mainnet() -> (config: VersionConfig)
        ensures
            config@.protocol_version == 70230,
            config@.local_services == 0,
            config@.receiver.services == 1,
            config@.receiver.ip@ == ipv4_mapped(seq![8u8, 219u8, 5u8, 90u8]),
            config@.receiver.port == 9999,
            config@.sender.services == 0,
            config@.sender.ip@ == Seq::new(16, |i: int| 0u8),
            config@.sender.port == 9999,
            config@.user_agent == encode_utf8(USER_AGENT@),
            config@.user_agent.len() == 22,
            config@.start_height == 0,
    {
        proof {
            reveal_strlit("/DashRustClient:0.1.0/");
            assert(is_ascii_chars(USER_AGENT@));
            is_ascii_chars_encode_utf8(USER_AGENT@);
        }
        let octets: [u8; 4] = [8, 219, 5, 90];
        assert(octets@ =~= seq![8u8, 219u8, 5u8, 90u8]);
        VersionConfig {
            protocol_version: PROTOCOL_VERSION,
            local_services: 0,
            receiver: NetAddress::from_ipv4(1, octets, DASH_DEFAULT_PORT),
            sender: NetAddress::unspecified(0, DASH_DEFAULT_PORT),
            user_agent: USER_AGENT.to_owned(),
            start_height: 0,
        }
    }

    /// The protocol version.
    pub fn protocol_version(&self) -> (value: i32)
        ensures
            value == self@.protocol_version,
    {
        self.protocol_version
    }

    /// The service bits of this node.
    pub fn local_services(&self) -> (value: u64)
        ensures
            value == self@.local_services,
    {
        self.local_services
    }

    /// The address record of the peer.
    pub fn receiver(&self) -> (value: NetAddress)
        ensures
            value == self@.receiver,
    {
        self.receiver
    }

    /// The address record of this node.
    pub fn sender(&self) -> (value: NetAddress)
        ensures
            value == self@.sender,
    {
        self.sender
    }

    /// The user agent.
    pub fn user_agent(&self) -> (value: &str)
        ensures
            encode_utf8(value@) == self@.user_agent,
            self@.user_agent.len() <= 255,
    {
        proof {
            use_type_invariant(self);
        }
        self.user_agent.as_str()
    }

    /// The height of the best block that this node knows.
    pub fn start_height(&self) -> (value: i32)
        ensures
            value == self@.start_height,
    {
        self.start_height
    }
}

/// Appends the 26 bytes of `address` to `buf`.
fn append_net_address(buf: &mut Vec<u8>, address: &NetAddress)
    ensures
        final(buf)@ == old(buf)@ + net_address_bytes(*address),
{
    write_u64_le(buf, address.services);
    buf.extend_from_slice(address.ip.as_slice());
    write_u16_be(buf, address.port);
    assert(buf@ =~= old(buf)@ + net_address_bytes(*address));
}

/// Serialises the `version` payload that `config` gives with `timestamp`
/// and `nonce`, field by field in the order of the wire format.
pub fn version_payload(config: &VersionConfig, timestamp: i64, nonce: u64) -> (payload: Vec<u8>)
    ensures
        payload@ == version_payload_bytes(config@, timestamp, nonce),
        payload@.len() == 85 + config@.user_agent.len(),
        config@.user_agent.len() <= 255,
{
    proof {
        lemma_version_payload_len(config@, timestamp, nonce);
    }
    let mut payload: Vec<u8> = Vec::new();
    write_i32_le(&mut payload, config.protocol_version);
    write_u64_le(&mut payload, config.local_services);
    write_i64_le(&mut payload, timestamp);
    append_net_address(&mut payload, &config.receiver);
    append_net_address(&mut payload, &config.sender);
    write_u64_le(&mut payload, nonce);

    let agent = config.user_agent();
    let agent_bytes = agent.as_bytes();
    payload.push(agent_bytes.len() as u8);
    payload.extend_from_slice(agent_bytes);

    write_i32_le(&mut payload, config.start_height);
    assert(payload@ =~= version_payload_bytes(config@, timestamp, nonce));
    payload
}

/// A point in time as the system clock reports it.
#[verifier::external_type_specification]
#[verifier::external_body]
pub struct ExSystemTime(SystemTime);

/// What `SystemTime::duration_since` reports where the second point in time
/// is the later one.
#[verifier::external_type_specification]
#[verifier::external_body]
pub struct ExSystemTimeError(SystemTimeError);

/// Reads the system clock.
///
/// Calls `std::time::SystemTime::now`. Nothing is claimed of the result.
#[verifier::external_body]
fn system_time_now() -> SystemTime {
    SystemTime::now()
}

/// The time from the Unix epoch to `time`, or the error where `time` is the
/// earlier of the two.
///
/// Calls `std::time::SystemTime::duration_since` with `UNIX_EPOCH`. Nothing
/// is claimed of the result.
#[verifier::external_body]
fn duration_since_unix_epoch(time: &SystemTime) -> Result<Duration, SystemTimeError> {
    time.duration_since(UNIX_EPOCH)
}

/// How far before the Unix epoch the time lay for which `error` was
/// reported.
///
/// Calls `std::time::SystemTimeError::duration`. Nothing is claimed of the
/// result.
#[verifier::external_body]
fn duration_before_unix_epoch(error: &SystemTimeError) -> Duration {
    error.duration()
}

/// The whole seconds of `duration`.
///
/// Calls `std::time::Duration::as_secs`. Nothing is claimed of the result.
#[verifier::external_body]
fn whole_seconds(duration: &Duration) -> u64 {
    duration.as_secs()
}

/// Draws a nonce.
///
/// Calls `rand::random::<u64>`. Nothing is claimed of the result: every
/// value may come back.
#[verifier::external_body]
fn random_nonce() -> u64 {
    rand::random::<u64>()
}

/// The Unix timestamp of a point in time that lies `seconds` whole seconds
/// from the epoch, before it or after it: `seconds` with the sign of the
/// side, held to the range of the timestamp field where it is too far away
/// to fit.
pub open spec fn unix_seconds_of(before_epoch: bool, seconds: u64) -> i64 {
    if seconds > i64::MAX {
        if before_epoch {
            i64::MIN
        } else {
            i64::MAX
        }
    } else if before_epoch {
        (-(seconds as int)) as i64
    } else {
        seconds as i64
    }
}

/// Turns a reading of the clock into a Unix timestamp.
///
/// A time after the epoch gives its distance in seconds, a time before the
/// epoch the negated distance. A distance that the signed field cannot hold
/// gives the nearest value that it can.
pub fn unix_seconds(before_epoch: bool, seconds: u64) -> (timestamp: i64)
    ensures
        timestamp == unix_seconds_of(before_epoch, seconds),
        seconds <= i64::MAX && !before_epoch ==> timestamp == seconds,
        seconds <= i64::MAX && before_epoch ==> timestamp == -seconds,
        before_epoch ==> timestamp <= 0,
        !before_epoch ==> timestamp >= 0,
{
    if seconds > 0x7fff_ffff_ffff_ffff {
        if before_epoch {
            i64::MIN
        } else {
            i64::MAX
        }
    } else {
        let distance: i64 = seconds as i64;
        if before_epoch {
            -distance
        } else {
            distance
        }
    }
}

/// The wall-clock time as a Unix timestamp: the seconds since the epoch,
/// negative where the clock reads a time before it.
///
/// The clock decides the result, and any value may come back;
/// [`unix_seconds`] says what the timestamp is for each reading.
fn unix_timestamp() -> i64 {
    let now = system_time_now();
    match duration_since_unix_epoch(&now) {
        Ok(elapsed) => unix_seconds(false, whole_seconds(&elapsed)),
        Err(error) => {
            let distance = duration_before_unix_epoch(&error);
            unix_seconds(true, whole_seconds(&distance))
        },
    }
}

/// Builds a `version` payload for `config`, with the wall-clock time of the
/// call as its timestamp and a nonce drawn at random for this call.
///
/// There is no failure: every field has a fixed width and fits it. Which
/// timestamp and nonce the payload carries is decided by the clock and the
/// random source; [`version_payload`] says what the payload is for each
/// pair.
pub fn create_version_message_payload(config: &VersionConfig) -> (payload: Vec<u8>)
    ensures
        exists|timestamp: i64, nonce: u64|
            payload@ == #[trigger] version_payload_bytes(config@, timestamp, nonce),
        payload@.len() == 85 + config@.user_agent.len(),
        config@.user_agent.len() <= 255,
{
    let timestamp: i64 = unix_timestamp();
    let nonce: u64 = random_nonce();
    version_payload(config, timestamp, nonce)
}

/// The unsigned little-endian number of `width` bytes at `start`.
pub open spec fn unsigned_le_at(bytes: Seq<u8>, start: int, width: nat) -> nat {
    le_value(bytes.subrange(start, start + width))
}

/// The signed little-endian number of `width` bytes at `start`.
pub open spec fn signed_le_at(bytes: Seq<u8>, start: int, width: nat) -> int {
    from_twos_complement(unsigned_le_at(bytes, start, width), width)
}

/// The unsigned big-endian number of `width` bytes at `start`.
pub open spec fn unsigned_be_at(bytes: Seq<u8>, start: int, width: nat) -> nat {
    be_value(bytes.subrange(start, start + width))
}

/// The payload's length: 85 bytes of fixed-width fields and the user agent.
pub proof fn lemma_version_payload_len(settings: VersionSettings, timestamp: i64, nonce: u64)
    ensures
        version_payload_bytes(settings, timestamp, nonce).len() == 85 + settings.user_agent.len(),
{
    lemma_payload_parts(settings, timestamp, nonce);
}

/// Where each field of a payload lies.
proof fn lemma_payload_parts(settings: VersionSettings, timestamp: i64, nonce: u64)
    ensures
        ({
            let payload = version_payload_bytes(settings, timestamp, nonce);
            let n = settings.user_agent.len() as int;
            &&& payload.len() == 85 + n
            &&& payload.subrange(0, 4) == le_bytes(
                twos_complement(settings.protocol_version as int, 4),
                4,
            )
            &&& payload.subrange(4, 12) == le_bytes(settings.local_services as nat, 8)
            &&& payload.subrange(12, 20) == le_bytes(twos_complement(timestamp as int, 8), 8)
            &&& payload.subrange(20, 28) == le_bytes(settings.receiver.services as nat, 8)
            &&& payload.subrange(28, 44) == settings.receiver.ip@
            &&& payload.subrange(44, 46) == be_bytes(settings.receiver.port as nat, 2)
            &&& payload.subrange(46, 54) == le_bytes(settings.sender.services as nat, 8)
            &&& payload.subrange(54, 70) == settings.sender.ip@
            &&& payload.subrange(70, 72) == be_bytes(settings.sender.port as nat, 2)
            &&& payload.subrange(72, 80) == le_bytes(nonce as nat, 8)
            &&& payload[80] == settings.user_agent.len() as u8
            &&& payload.subrange(81, 81 + n) == settings.user_agent
            &&& payload.subrange(81 + n, 85 + n) == le_bytes(
                twos_complement(settings.start_height as int, 4),
                4,
            )
        }),
{
    let payload = version_payload_bytes(settings, timestamp, nonce);
    let n = settings.user_agent.len() as int;
    lemma_le_bytes_len(twos_complement(settings.protocol_version as int, 4), 4);
    lemma_le_bytes_len(settings.local_services as nat, 8);
    lemma_le_bytes_len(twos_complement(timestamp as int, 8), 8);
    lemma_le_bytes_len(settings.receiver.services as nat, 8);
    lemma_le_bytes_len(settings.receiver.port as nat, 2);
    lemma_le_bytes_len(settings.sender.services as nat, 8);
    lemma_le_bytes_len(settings.sender.port as nat, 2);
    lemma_le_bytes_len(nonce as nat, 8);
    lemma_le_bytes_len(twos_complement(settings.start_height as int, 4), 4);
    assert(settings.receiver.ip@.len() == 16);
    assert(settings.sender.ip@.len() == 16);
    assert(net_address_bytes(settings.receiver).len() == 26);
    assert(net_address_bytes(settings.sender).len() == 26);
    assert(payload.len() == 85 + n);
    assert(payload.subrange(0, 4) =~= le_bytes(
        twos_complement(settings.protocol_version as int, 4),
        4,
    ));
    assert(payload.subrange(4, 12) =~= le_bytes(settings.local_services as nat, 8));
    assert(payload.subrange(12, 20) =~= le_bytes(twos_complement(timestamp as int, 8), 8));
    assert(payload.subrange(20, 28) =~= le_bytes(settings.receiver.services as nat, 8));
    assert(payload.subrange(28, 44) =~= settings.receiver.ip@);
    assert(payload.subrange(44, 46) =~= be_bytes(settings.receiver.port as nat, 2));
    assert(payload.subrange(46, 54) =~= le_bytes(settings.sender.services as nat, 8));
    assert(payload.subrange(54, 70) =~= settings.sender.ip@);
    assert(payload.subrange(70, 72) =~= be_bytes(settings.sender.port as nat, 2));
    assert(payload.subrange(72, 80) =~= le_bytes(nonce as nat, 8));
    assert(payload.subrange(81, 81 + n) =~= settings.user_agent);
    assert(payload.subrange(81 + n, 85 + n) =~= le_bytes(
        twos_complement(settings.start_height as int, 4),
        4,
    ));
}

/// Reading the fixed-width fields back out of a payload recovers what the
/// payload was built from: the protocol version, the service bits, the
/// ports, the start height, the timestamp and the nonce.
pub proof fn lemma_version_payload_round_trip(
    settings: VersionSettings,
    timestamp: i64,
    nonce: u64,
)
    requires
        settings.user_agent.len() <= 255,
    ensures
        ({
            let payload = version_payload_bytes(settings, timestamp, nonce);
            let n = settings.user_agent.len() as int;
            &&& signed_le_at(payload, 0, 4) == settings.protocol_version
            &&& unsigned_le_at(payload, 4, 8) == settings.local_services
            &&& signed_le_at(payload, 12, 8) == timestamp
            &&& unsigned_le_at(payload, 20, 8) == settings.receiver.services
            &&& payload.subrange(28, 44) == settings.receiver.ip@
            &&& unsigned_be_at(payload, 44, 2) == settings.receiver.port
            &&& unsigned_le_at(payload, 46, 8) == settings.sender.services
            &&& payload.subrange(54, 70) == settings.sender.ip@
            &&& unsigned_be_at(payload, 70, 2) == settings.sender.port
            &&& unsigned_le_at(payload, 72, 8) == nonce
            &&& payload[80] == n
            &&& payload.subrange(81, 81 + n) == settings.user_agent
            &&& signed_le_at(payload, 81 + n, 4) == settings.start_height
        }),
{
    lemma_payload_parts(settings, timestamp, nonce);
    lemma_capacity_values();
    lemma_twos_complement_round_trip(settings.protocol_version as int, 4);
    lemma_twos_complement_round_trip(timestamp as int, 8);
    lemma_twos_complement_round_trip(settings.start_height as int, 4);
    lemma_le_round_trip(twos_complement(settings.protocol_version as int, 4), 4);
    lemma_le_round_trip(settings.local_services as nat, 8);
    lemma_le_round_trip(twos_complement(timestamp as int, 8), 8);
    lemma_le_round_trip(settings.receiver.services as nat, 8);
    lemma_le_round_trip(settings.receiver.port as nat, 2);
    lemma_le_round_trip(settings.sender.services as nat, 8);
    lemma_le_round_trip(settings.sender.port as nat, 2);
    lemma_le_round_trip(nonce as nat, 8);
    lemma_le_round_trip(twos_complement(settings.start_height as int, 4), 4);
}

} // verus!
