//! Fixed-width integer encodings of the wire format.
//!
//! The byte sequences are defined arithmetically, as base-256 digits, so that
//! the frame and payload layouts can be stated and reasoned about without bit
//! operations.

use byteorder::{BigEndian, LittleEndian, WriteBytesExt};
use vstd::prelude::*;

verus! {

/// The `width` least significant base-256 digits of `value`, least
/// significant digit first.
pub open spec fn le_bytes(value: nat, width: nat) -> Seq<u8>
    decreases width,
{
    if width == 0 {
        Seq::empty()
    } else {
        seq![(value % 256) as u8] + le_bytes(value / 256, (width - 1) as nat)
    }
}

/// The `width` least significant base-256 digits of `value`, most
/// significant digit first.
pub open spec fn be_bytes(value: nat, width: nat) -> Seq<u8> {
    le_bytes(value, width).reverse()
}

/// The number whose base-256 digits, least significant first, are `bytes`.
pub open spec fn le_value(bytes: Seq<u8>) -> nat
    decreases bytes.len(),
{
    if bytes.len() == 0 {
        0
    } else {
        bytes[0] as nat + 256 * le_value(bytes.drop_first())
    }
}

/// The number whose base-256 digits, most significant first, are `bytes`.
pub open spec fn be_value(bytes: Seq<u8>) -> nat {
    le_value(bytes.reverse())
}

/// The number of values that `width` bytes can tell apart: 256 to the power
/// `width`.
pub open spec fn capacity(width: nat) -> nat
    decreases width,
{
    if width == 0 {
        1
    } else {
        256 * capacity((width - 1) as nat)
    }
}

/// The unsigned number that stands for `value` in two's complement on
/// `width` bytes.
pub open spec fn twos_complement(value: int, width: nat) -> nat {
    if value >= 0 {
        value as nat
    } else {
        (value + capacity(width)) as nat
    }
}

/// The signed number that `value` stands for in two's complement on `width`
/// bytes.
pub open spec fn from_twos_complement(value: nat, width: nat) -> int {
    if 2 * value < capacity(width) {
        value as int
    } else {
        value - capacity(width)
    }
}

/// An encoding has as many bytes as its width.
pub proof fn lemma_le_bytes_len(value: nat, width: nat)
    ensures
        le_bytes(value, width).len() == width,
        be_bytes(value, width).len() == width,
    decreases width,
{
    if width > 0 {
        lemma_le_bytes_len(value / 256, (width - 1) as nat);
    }
}

/// The capacities of the widths that the wire format uses.
pub proof fn lemma_capacity_values()
    ensures
        capacity(2) == 0x1_0000,
        capacity(4) == 0x1_0000_0000,
        capacity(8) == 0x1_0000_0000_0000_0000,
{
    reveal_with_fuel(capacity, 9);
}

/// Decoding undoes encoding: a value that fits in `width` bytes is read
/// back unchanged, in either byte order.
pub proof fn lemma_le_round_trip(value: nat, width: nat)
    requires
        value < capacity(width),
    ensures
        le_value(le_bytes(value, width)) == value,
        be_value(be_bytes(value, width)) == value,
    decreases width,
{
    let bytes = le_bytes(value, width);
    if width > 0 {
        let rest = le_bytes(value / 256, (width - 1) as nat);
        lemma_le_round_trip(value / 256, (width - 1) as nat);
        assert(bytes.drop_first() =~= rest);
    }
    assert(bytes.reverse().reverse() =~= bytes);
}

/// Two's complement loses nothing: a signed value within the range of
/// `width` bytes is read back unchanged.
pub proof fn lemma_twos_complement_round_trip(value: int, width: nat)
    requires
        -capacity(width) <= 2 * value < capacity(width),
    ensures
        twos_complement(value, width) < capacity(width),
        from_twos_complement(twos_complement(value, width), width) == value,
{
}

/// Appends `n` to `buf` as four bytes, least significant first.
///
/// Calls `byteorder::WriteBytesExt::write_u32::<LittleEndian>` on the
/// vector. The contract claims that the call appends exactly the four
/// little-endian bytes of `n` and leaves what was there before untouched. A
/// `Vec<u8>` writer appends and reports no error, so the result is unwrapped.
#[verifier::external_body]
pub(crate) fn write_u32_le(buf: &mut Vec<u8>, n: u32)
    ensures
        final(buf)@ == old(buf)@ + le_bytes(n as nat, 4),
{
    buf.write_u32::<LittleEndian>(n).unwrap();
}

/// Appends `n` to `buf` as eight bytes, least significant first.
///
/// Calls `byteorder::WriteBytesExt::write_u64::<LittleEndian>` on the
/// vector. The contract claims that the call appends exactly the eight
/// little-endian bytes of `n`.
#[verifier::external_body]
pub(crate) fn write_u64_le(buf: &mut Vec<u8>, n: u64)
    ensures
        final(buf)@ == old(buf)@ + le_bytes(n as nat, 8),
{
    buf.write_u64::<LittleEndian>(n).unwrap();
}

/// Appends `n` to `buf` as four bytes in two's complement, least
/// significant first.
///
/// Calls `byteorder::WriteBytesExt::write_i32::<LittleEndian>` on the
/// vector, which writes `n` cast to `u32`. The contract claims that the call
/// appends exactly those four bytes.
#[verifier::external_body]
pub(crate) fn write_i32_le(buf: &mut Vec<u8>, n: i32)
    ensures
        final(buf)@ == old(buf)@ + le_bytes(twos_complement(n as int, 4), 4),
{
    buf.write_i32::<LittleEndian>(n).unwrap();
}

/// Appends `n` to `buf` as eight bytes in two's complement, least
/// significant first.
///
/// Calls `byteorder::WriteBytesExt::write_i64::<LittleEndian>` on the
/// vector, which writes `n` cast to `u64`. The contract claims that the call
/// appends exactly those eight bytes.
#[verifier::external_body]
pub(crate) fn write_i64_le(buf: &mut Vec<u8>, n: i64)
    ensures
        final(buf)@ == old(buf)@ + le_bytes(twos_complement(n as int, 8), 8),
{
    buf.write_i64::<LittleEndian>(n).unwrap();
}

/// Appends `n` to `buf` as two bytes, most significant first.
///
/// Calls `byteorder::WriteBytesExt::write_u16::<BigEndian>` on the vector.
/// The contract claims that the call appends exactly the two big-endian
/// bytes of `n`.
#[verifier::external_body]
pub(crate) fn write_u16_be(buf: &mut Vec<u8>, n: u16)
    ensures
        final(buf)@ == old(buf)@ + be_bytes(n as nat, 2),
{
    buf.write_u16::<BigEndian>(n).unwrap();
}

} // verus!
