//! Canvas noise that is the same for the same seed.

use vstd::prelude::*;

verus! {

/// The SHA-256 digest of a sequence of bytes.
pub uninterp spec fn sha256(data: Seq<u8>) -> Seq<u8>;

/// The length from which on `ring` takes no input: 2^61 bytes, whose length
/// in bits no longer fits 64 bits.
pub const DIGEST_INPUT_LIMIT: u64 = 0x2000_0000_0000_0000;

/// Thirty-two bytes of noise for a seed: its SHA-256 digest, computed by
/// `ring::digest::digest`.
#[verifier::external_body]
pub fn deterministic_canvas_noise(seed: &[u8]) -> (out: [u8; 32])
    requires
        seed@.len() < DIGEST_INPUT_LIMIT,
    ensures
        out@ == sha256(seed@),
{
    let digest = ring::digest::digest(&ring::digest::SHA256, seed);
    let mut out = [0_u8; 32];
    out.copy_from_slice(digest.as_ref());
    out
}

} // verus!
