//! The public randomness of a beacon.

use vstd::prelude::*;

use crate::message::{sha256, sha256_digest};

verus! {

/// Derives the randomness of a beacon from its signature: the SHA-256 digest
/// of the signature bytes. It checks nothing: call it only for a signature
/// that verified.
pub fn derive_randomness(signature: &[u8]) -> (r: [u8; 32])
    ensures
        r@ == sha256(signature@),
{
    sha256_digest(signature)
}

/// Randomness is deterministic: two calls on the same signature bytes give
/// the same 32 bytes.
pub proof fn lemma_randomness_deterministic(
    a: &[u8],
    b: &[u8],
    ra: [u8; 32],
    rb: [u8; 32],
)
    requires
        a@ == b@,
        call_ensures(derive_randomness, (a,), ra),
        call_ensures(derive_randomness, (b,), rb),
    ensures
        ra == rb,
{
    assert(ra@ =~= rb@);
}

} // verus!
