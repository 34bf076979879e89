//! The two cryptographic digests the engine commits with. Both are computed
//! by outside crates; this module names their results and nothing more.

use vstd::prelude::*;

verus! {

/// The BLAKE3 digest of `input`, as the `blake3` crate computes it.
pub uninterp spec fn blake3_digest(input: Seq<u8>) -> Seq<u8>;

/// The SHA-256 digest of `input`, as `solana_program::hash` computes it.
pub uninterp spec fn sha256_digest(input: Seq<u8>) -> Seq<u8>;

/// Calls `blake3::hash` and copies out its 32 bytes.
///
/// Trusted: the result is the BLAKE3 digest of exactly the bytes given, a
/// function of those bytes alone. Nothing is claimed of the digest's value.
#[verifier::external_body]
pub(crate) fn blake3_hash(input: &[u8]) -> (out: [u8; 32])
    ensures
        out@ == blake3_digest(input@),
{
    *blake3::hash(input).as_bytes()
}

/// Calls `solana_program::hash::hash` and copies out its 32 bytes.
///
/// Trusted: the result is the SHA-256 digest of exactly the bytes given, a
/// function of those bytes alone. Nothing is claimed of the digest's value.
#[verifier::external_body]
pub(crate) fn sha256_hash(input: &[u8]) -> (out: [u8; 32])
    ensures
        out@ == sha256_digest(input@),
{
    solana_program::hash::hash(input).to_bytes()
}

} // verus!
