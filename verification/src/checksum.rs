//! The four-byte integrity tag of a frame: the start of a double SHA-256.

use sha2::{Digest, Sha256};
use vstd::prelude::*;

verus! {

/// The SHA-256 digest of `data`.
///
/// The hash function is not written out here: the name stands for what the
/// `sha2` crate computes, which depends on the input bytes alone.
pub uninterp spec fn sha256(data: Seq<u8>) -> Seq<u8>;

/// The first four bytes of `digest`.
pub open spec fn first_four(digest: Seq<u8>) -> Seq<u8> {
    seq![digest[0], digest[1], digest[2], digest[3]]
}

/// The first four bytes of the digest of the digest of `payload`.
pub open spec fn checksum_of(payload: Seq<u8>) -> Seq<u8> {
    first_four(sha256(sha256(payload)))
}

/// Hashes `data` with SHA-256.
///
/// Calls `sha2::Sha256::digest` and copies the output array into a vector.
/// The contract claims that the result is the SHA-256 digest of `data`, and
/// that it is 32 bytes long, which is the output size the crate fixes for
/// this hasher.
#[verifier::external_body]
pub(crate) fn sha256_digest(data: &[u8]) -> (digest: Vec<u8>)
    ensures
        digest@ == sha256(data@),
        digest@.len() == 32,
{
    Sha256::digest(data).to_vec()
}

/// Cuts a digest down to a checksum: its first four bytes.
pub fn checksum_from_digest(digest: &[u8]) -> (checksum: Vec<u8>)
    requires
        digest@.len() >= 4,
    ensures
        checksum@ == first_four(digest@),
        checksum@ == digest@.subrange(0, 4),
{
    let mut checksum: Vec<u8> = Vec::new();
    checksum.push(digest[0]);
    checksum.push(digest[1]);
    checksum.push(digest[2]);
    checksum.push(digest[3]);
    assert(checksum@ =~= first_four(digest@));
    assert(checksum@ =~= digest@.subrange(0, 4));
    checksum
}

/// Computes the checksum of `payload`: the first four bytes of
/// SHA-256(SHA-256(`payload`)).
///
/// Total over all byte sequences, the empty one as well.
pub fn calculate_checksum(payload: &[u8]) -> (checksum: Vec<u8>)
    ensures
        checksum@ == checksum_of(payload@),
        checksum@.len() == 4,
{
    let hash1 = sha256_digest(payload);
    let hash2 = sha256_digest(hash1.as_slice());
    checksum_from_digest(hash2.as_slice())
}

} // verus!
