//! Reading the command name out of the header of an inbound frame.
//!
//! Only the header is looked at: neither the length nor the checksum is held
//! against the payload, and a frame split over several reads is not put
//! together again.

use crate::message::{command_field, frame_bytes, zero_bytes};
use vstd::prelude::*;
use vstd::slice::slice_subrange;
use vstd::string::StrSliceExecFns;
use vstd::utf8::{
    decode_utf8, encode_utf8, encode_utf8_decode_utf8, encode_utf8_valid_utf8,
    is_ascii_chars, is_ascii_chars_encode_utf8, valid_utf8,
};

verus! {

/// What `String::from_utf8_lossy` makes of `bytes` that are not valid UTF-8:
/// the text in which each ill-formed stretch is replaced by U+FFFD.
///
/// The replacement rule is not written out here. The name is applied to
/// ill-formed input only; well-formed input is decoded by `decode_utf8`.
pub uninterp spec fn utf8_lossy(bytes: Seq<u8>) -> Seq<char>;

/// The permissive decoding of `bytes`: the text they encode where they are
/// valid UTF-8, and the text with replacement characters where they are not.
pub open spec fn decode_lossy(bytes: Seq<u8>) -> Seq<char> {
    if valid_utf8(bytes) {
        decode_utf8(bytes)
    } else {
        utf8_lossy(bytes)
    }
}

/// `text` without the NUL characters at its end.
pub open spec fn strip_trailing_nuls(text: Seq<char>) -> Seq<char>
    decreases text.len(),
{
    if text.len() > 0 && text.last() == '\0' {
        strip_trailing_nuls(text.drop_last())
    } else {
        text
    }
}

/// The bytes of the command field that `response` holds: bytes 4 to 16,
/// cut short where `response` ends earlier.
pub open spec fn header_command_bytes(response: Seq<u8>) -> Seq<u8> {
    let end = if response.len() < 16 {
        response.len() as int
    } else {
        16
    };
    let start = if end < 4 {
        end
    } else {
        4
    };
    response.subrange(start, end)
}

/// The command name that the header of `response` carries.
pub open spec fn command_of(response: Seq<u8>) -> Seq<char> {
    strip_trailing_nuls(decode_lossy(header_command_bytes(response)))
}

/// `n` NUL characters.
pub open spec fn nul_chars(n: nat) -> Seq<char> {
    Seq::new(n, |i: int| '\0')
}

/// Decodes `bytes` permissively.
///
/// Calls `String::from_utf8_lossy` and takes ownership of the text. The
/// contract claims that valid UTF-8 is decoded as it stands, which is what
/// the function's documentation says of well-formed input, and names the
/// result for ill-formed input without saying what it holds.
#[verifier::external_body]
pub(crate) fn from_utf8_lossy(bytes: &[u8]) -> (text: String)
    ensures
        text@ == (if valid_utf8(bytes@) {
            decode_utf8(bytes@)
        } else {
            utf8_lossy(bytes@)
        }),
{
    String::from_utf8_lossy(bytes).into_owned()
}

/// Removes the NUL characters at the end of `text`.
pub fn trim_trailing_nuls(text: &str) -> (trimmed: String)
    ensures
        trimmed@ == strip_trailing_nuls(text@),
{
    let mut end: usize = text.unicode_len();
    assert(text@.subrange(0, end as int) =~= text@);
    while end > 0 && text.get_char(end - 1) == '\0'
        invariant
            end <= text@.len(),
            strip_trailing_nuls(text@) == strip_trailing_nuls(text@.subrange(0, end as int)),
        decreases end,
    {
        assert(text@.subrange(0, end as int).drop_last() =~= text@.subrange(0, end - 1));
        end -= 1;
    }
    text.substring_char(0, end).to_owned()
}

/// Extracts the command name from the bytes of one read.
///
/// The name is what bytes 4 to 16 of `response` decode to, without the NUL
/// padding at its end. Bytes that are not valid UTF-8 are replaced, never
/// rejected. A response shorter than a header yields the part of the name
/// that is there, and the empty name where the response ends before the
/// command field begins.
pub fn get_command_from_response(response: &[u8]) -> (command: String)
    ensures
        command@ == command_of(response@),
        response@.len() <= 4 ==> command@ == Seq::<char>::empty(),
{
    let end_index: usize = if response.len() < 16 {
        response.len()
    } else {
        16
    };
    let start_index: usize = if end_index < 4 {
        end_index
    } else {
        4
    };
    let field = slice_subrange(response, start_index, end_index);
    let text = from_utf8_lossy(field);
    proof {
        lemma_short_response_has_no_command(response@);
    }
    trim_trailing_nuls(text.as_str())
}

/// A response that ends before the command field begins carries the empty
/// command name.
pub proof fn lemma_short_response_has_no_command(response: Seq<u8>)
    ensures
        response.len() <= 4 ==> command_of(response) == Seq::<char>::empty(),
{
    if response.len() <= 4 {
        let field = header_command_bytes(response);
        assert(field.len() == 0);
        assert(valid_utf8(field));
        assert(decode_utf8(field) =~= Seq::<char>::empty());
    }
}

/// Stripping ignores NUL characters that are appended.
pub proof fn lemma_strip_ignores_padding(text: Seq<char>, n: nat)
    ensures
        strip_trailing_nuls(text + nul_chars(n)) == strip_trailing_nuls(text),
    decreases n,
{
    let padded = text + nul_chars(n);
    if n == 0 {
        assert(padded =~= text);
    } else {
        assert(padded.last() == '\0');
        assert(padded.drop_last() =~= text + nul_chars((n - 1) as nat));
        lemma_strip_ignores_padding(text, (n - 1) as nat);
    }
}

/// The encoding of a concatenation is the concatenation of the encodings.
pub proof fn lemma_encode_utf8_concat(a: Seq<char>, b: Seq<char>)
    ensures
        encode_utf8(a + b) == encode_utf8(a) + encode_utf8(b),
    decreases a.len(),
{
    if a.len() == 0 {
        assert(a + b =~= b);
        assert(encode_utf8(a) + encode_utf8(b) =~= encode_utf8(b));
    } else {
        assert((a + b).drop_first() =~= a.drop_first() + b);
        lemma_encode_utf8_concat(a.drop_first(), b);
        assert(encode_utf8(a + b) =~= encode_utf8(a) + encode_utf8(b));
    }
}

/// The command field of a header is the encoding of the command name
/// followed by NUL characters.
pub proof fn lemma_command_field_is_padded_text(command: Seq<char>)
    requires
        encode_utf8(command).len() <= 12,
    ensures
        command_field(command) == encode_utf8(
            command + nul_chars((12 - encode_utf8(command).len()) as nat),
        ),
{
    let n = (12 - encode_utf8(command).len()) as nat;
    let nuls = nul_chars(n);
    assert(is_ascii_chars(nuls));
    is_ascii_chars_encode_utf8(nuls);
    assert(encode_utf8(nuls) =~= zero_bytes(n));
    lemma_encode_utf8_concat(command, nuls);
}

/// Extraction undoes framing: the command name read out of a frame is the
/// name the frame was built with, without the NUL characters that the name
/// may have ended in. This holds for every payload, the empty one as well.
pub proof fn lemma_extract_command_of_frame(command: Seq<char>, payload: Seq<u8>)
    requires
        encode_utf8(command).len() <= 12,
    ensures
        command_of(frame_bytes(command, payload)) == strip_trailing_nuls(command),
        command.len() == 0 || command.last() != '\0' ==> command_of(
            frame_bytes(command, payload),
        ) == command,
{
    let frame = frame_bytes(command, payload);
    let n = (12 - encode_utf8(command).len()) as nat;
    let padded = command + nul_chars(n);
    assert(command_field(command).len() == 12);
    assert(header_command_bytes(frame) =~= command_field(command));
    lemma_command_field_is_padded_text(command);
    encode_utf8_valid_utf8(padded);
    encode_utf8_decode_utf8(padded);
    assert(decode_lossy(header_command_bytes(frame)) == padded);
    lemma_strip_ignores_padding(command, n);
}

} // verus!
