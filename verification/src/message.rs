//! Frames: a 24-byte header followed by the payload.
//!
//! | field    | bytes   | content                                          |
//! |----------|---------|--------------------------------------------------|
//! | magic    | 0..4    | the network's constant                           |
//! | command  | 4..16   | the command name, padded with zero bytes         |
//! | length   | 16..20  | the payload's byte length, little-endian         |
//! | checksum | 20..24  | the first four bytes of the payload's double hash |
//! | payload  | 24..    | command-specific                                 |

use crate::checksum::{calculate_checksum, checksum_of};
use crate::encoding::{
    le_bytes, le_value, lemma_capacity_values, lemma_le_bytes_len, lemma_le_round_trip,
    write_u32_le,
};
use vstd::prelude::*;
use vstd::utf8::encode_utf8;

verus! {

/// The magic bytes of the Dash main network.
pub const DASH_MAINNET_MAGIC: [u8; 4] = [0xbf, 0x0c, 0x6b, 0xbd];

/// The port on which Dash main network nodes listen.
pub const DASH_DEFAULT_PORT: u16 = 9999;

/// The command name of the message that opens a handshake.
pub const COMMAND_VERSION: &'static str = "version";

/// The command name of the message that acknowledges a `version`.
pub const COMMAND_VERACK: &'static str = "verack";

/// The command name of an inventory announcement.
pub const COMMAND_INV: &'static str = "inv";

/// The width of the command field of a header.
pub const COMMAND_FIELD_LEN: usize = 12;

/// The magic bytes as a sequence.
pub open spec fn magic_bytes() -> Seq<u8> {
    seq![0xbfu8, 0x0cu8, 0x6bu8, 0xbdu8]
}

/// `n` zero bytes.
pub open spec fn zero_bytes(n: nat) -> Seq<u8> {
    Seq::new(n, |i: int| 0u8)
}

/// The command field of a header: the UTF-8 bytes of `command`, followed by
/// zero bytes up to a width of twelve.
pub open spec fn command_field(command: Seq<char>) -> Seq<u8> {
    encode_utf8(command) + zero_bytes((12 - encode_utf8(command).len()) as nat)
}

/// The frame that carries `payload` under `command` with `checksum` in its
/// checksum field.
pub open spec fn frame_with_checksum(
    command: Seq<char>,
    payload: Seq<u8>,
    checksum: Seq<u8>,
) -> Seq<u8> {
    magic_bytes() + command_field(command) + le_bytes(payload.len(), 4) + checksum + payload
}

/// The frame that carries `payload` under `command`.
pub open spec fn frame_bytes(command: Seq<char>, payload: Seq<u8>) -> Seq<u8> {
    frame_with_checksum(command, payload, checksum_of(payload))
}

/// Where each field of a frame lies. The length field holds the payload's
/// byte length and the checksum field the first four bytes of the payload's
/// double SHA-256, whatever the command and the payload are.
pub proof fn lemma_frame_layout(command: Seq<char>, payload: Seq<u8>)
    requires
        encode_utf8(command).len() <= 12,
        payload.len() <= u32::MAX,
    ensures
        frame_bytes(command, payload).len() == 24 + payload.len(),
        frame_bytes(command, payload).subrange(0, 4) == magic_bytes(),
        frame_bytes(command, payload).subrange(4, 16) == command_field(command),
        frame_bytes(command, payload).subrange(16, 20) == le_bytes(payload.len(), 4),
        le_value(frame_bytes(command, payload).subrange(16, 20)) == payload.len(),
        frame_bytes(command, payload).subrange(20, 24) == checksum_of(payload),
        frame_bytes(command, payload).subrange(24, 24 + payload.len() as int) == payload,
{
    let frame = frame_bytes(command, payload);
    lemma_le_bytes_len(payload.len(), 4);
    lemma_capacity_values();
    lemma_le_round_trip(payload.len(), 4);
    assert(command_field(command).len() == 12);
    assert(frame.subrange(0, 4) =~= magic_bytes());
    assert(frame.subrange(4, 16) =~= command_field(command));
    assert(frame.subrange(16, 20) =~= le_bytes(payload.len(), 4));
    assert(frame.subrange(20, 24) =~= checksum_of(payload));
    assert(frame.subrange(24, 24 + payload.len() as int) =~= payload);
}

/// Lays out a frame: magic, the command name padded to twelve bytes with
/// zeros, the payload length, `checksum` and the payload.
///
/// The checksum is taken as it is given; [`create_message`] computes it
/// from the payload.
pub fn assemble_frame(command: &str, payload: &[u8], checksum: &[u8]) -> (message: Vec<u8>)
    requires
        encode_utf8(command@).len() <= 12,
        payload@.len() <= u32::MAX,
    ensures
        message@ == frame_with_checksum(command@, payload@, checksum@),
        message@.len() == 20 + checksum@.len() + payload@.len(),
{
    let mut message: Vec<u8> = Vec::new();
    message.extend_from_slice(DASH_MAINNET_MAGIC.as_slice());
    assert(message@ =~= magic_bytes());

    let name = command.as_bytes();
    message.extend_from_slice(name);

    let padding_length: usize = COMMAND_FIELD_LEN - name.len();
    let padding: Vec<u8> = vec![0u8; padding_length];
    assert(padding@ =~= zero_bytes(padding_length as nat));
    message.extend_from_slice(padding.as_slice());

    write_u32_le(&mut message, payload.len() as u32);
    message.extend_from_slice(checksum);
    message.extend_from_slice(payload);

    proof {
        lemma_le_bytes_len(payload@.len(), 4);
    }
    assert(message@ =~= frame_with_checksum(command@, payload@, checksum@));
    message
}

/// Builds the frame for `payload` under `command`: magic, the command name
/// padded to twelve bytes with zeros, the payload length, the checksum and
/// the payload.
///
/// A command name longer than twelve bytes does not fit the header and a
/// payload longer than `u32::MAX` bytes does not fit the length field; both
/// are left to the caller to rule out.
pub fn create_message(command: &str, payload: &[u8]) -> (message: Vec<u8>)
    requires
        encode_utf8(command@).len() <= 12,
        payload@.len() <= u32::MAX,
    ensures
        message@ == frame_bytes(command@, payload@),
        message@.len() == 24 + payload@.len(),
{
    let checksum = calculate_checksum(payload);
    assemble_frame(command, payload, checksum.as_slice())
}

} // verus!
