use vstd::prelude::*;
use sha2::Digest;

verus! {

/// The SHA-256 digest of `data`.
pub uninterp spec fn sha256(data: Seq<u8>) -> Seq<u8>;

/// Relies on `sha2::Sha256::digest`: the SHA-256 digest of `data`, 32 bytes.
#[verifier::external_body]
pub(crate) fn sha256_digest(data: &[u8]) -> (r: [u8; 32])
    ensures
        r@ == sha256(data@),
{
    sha2::Sha256::digest(data).into()
}

/// The weight of byte `i` of a big-endian `u64`: 256 to the power `7 - i`.
pub open spec fn byte_weight(i: int) -> u64 {
    if i == 0 {
        0x100_0000_0000_0000
    } else if i == 1 {
        0x1_0000_0000_0000
    } else if i == 2 {
        0x100_0000_0000
    } else if i == 3 {
        0x1_0000_0000
    } else if i == 4 {
        0x100_0000
    } else if i == 5 {
        0x1_0000
    } else if i == 6 {
        0x100
    } else {
        1
    }
}

/// Byte `i` (0 is the most significant) of the big-endian form of `n`.
pub open spec fn be_byte(n: u64, i: int) -> u8 {
    (n / byte_weight(i) % 256) as u8
}

/// The eight bytes of `n`, most significant first.
pub open spec fn u64_be_bytes(n: u64) -> Seq<u8> {
    seq![
        be_byte(n, 0),
        be_byte(n, 1),
        be_byte(n, 2),
        be_byte(n, 3),
        be_byte(n, 4),
        be_byte(n, 5),
        be_byte(n, 6),
        be_byte(n, 7),
    ]
}

/// Serialises a round number for hashing: big-endian, eight bytes.
pub fn round_to_bytes(round: u64) -> (r: [u8; 8])
    ensures
        r@ == u64_be_bytes(round),
{
    let r: [u8; 8] = [
        (round / 0x100_0000_0000_0000 % 256) as u8,
        (round / 0x1_0000_0000_0000 % 256) as u8,
        (round / 0x100_0000_0000 % 256) as u8,
        (round / 0x1_0000_0000 % 256) as u8,
        (round / 0x100_0000 % 256) as u8,
        (round / 0x1_0000 % 256) as u8,
        (round / 0x100 % 256) as u8,
        (round % 256) as u8,
    ];
    assert(r@ =~= u64_be_bytes(round));
    r
}

/// The bytes that a beacon's signature signs, before hashing: the previous
/// signature (empty in unchained mode) followed by the round, big-endian.
pub open spec fn signed_bytes(round: u64, previous_signature: Seq<u8>) -> Seq<u8> {
    previous_signature + u64_be_bytes(round)
}

/// The message of a beacon: the SHA-256 digest of its signed bytes.
pub open spec fn beacon_message(round: u64, previous_signature: Seq<u8>) -> Seq<u8> {
    sha256(signed_bytes(round, previous_signature))
}

/// Computes the message of the beacon of round `current_round` whose previous
/// signature is `prev_sig`.
pub fn message(current_round: u64, prev_sig: &[u8]) -> (r: [u8; 32])
    ensures
        r@ == beacon_message(current_round, prev_sig@),
{
    let mut buf: Vec<u8> = Vec::new();
    buf.extend_from_slice(prev_sig);
    let round_bytes = round_to_bytes(current_round);
    buf.extend_from_slice(&round_bytes);
    assert(buf@ =~= signed_bytes(current_round, prev_sig@));
    sha256_digest(buf.as_slice())
}

/// Distinct rounds give distinct signed bytes, whatever the previous
/// signature: a signature cannot be moved to another round without the
/// message that it signs changing before the hash.
pub proof fn lemma_signed_bytes_distinguish_rounds(round_a: u64, round_b: u64, prev: Seq<u8>)
    requires
        round_a != round_b,
    ensures
        signed_bytes(round_a, prev) != signed_bytes(round_b, prev),
{
    if signed_bytes(round_a, prev) == signed_bytes(round_b, prev) {
        let n = prev.len() as int;
        assert forall|i: int| 0 <= i < 8 implies be_byte(round_a, i) == be_byte(round_b, i) by {
            assert(signed_bytes(round_a, prev)[n + i] == be_byte(round_a, i));
            assert(signed_bytes(round_b, prev)[n + i] == be_byte(round_b, i));
        }
        lemma_be_bytes_injective(round_a, round_b);
    }
}

/// Previous signatures of the same length that differ in any byte give
/// distinct signed bytes for the same round.
pub proof fn lemma_signed_bytes_distinguish_previous(round: u64, prev_a: Seq<u8>, prev_b: Seq<u8>)
    requires
        prev_a.len() == prev_b.len(),
        prev_a != prev_b,
    ensures
        signed_bytes(round, prev_a) != signed_bytes(round, prev_b),
{
    assert(!(prev_a =~= prev_b));
    let i = choose|i: int| 0 <= i < prev_a.len() && prev_a[i] != prev_b[i];
    assert(signed_bytes(round, prev_a)[i] == prev_a[i]);
    assert(signed_bytes(round, prev_b)[i] == prev_b[i]);
}

/// Numbers with the same eight big-endian bytes are equal.
proof fn lemma_be_bytes_injective(a: u64, b: u64)
    requires
        forall|i: int| 0 <= i < 8 ==> be_byte(a, i) == be_byte(b, i),
    ensures
        a == b,
{
    assert(be_byte(a, 0) == be_byte(b, 0));
    assert(be_byte(a, 1) == be_byte(b, 1));
    assert(be_byte(a, 2) == be_byte(b, 2));
    assert(be_byte(a, 3) == be_byte(b, 3));
    assert(be_byte(a, 4) == be_byte(b, 4));
    assert(be_byte(a, 5) == be_byte(b, 5));
    assert(be_byte(a, 6) == be_byte(b, 6));
    assert(be_byte(a, 7) == be_byte(b, 7));
    assert((a / 0x100_0000_0000_0000 % 256 == b / 0x100_0000_0000_0000 % 256 && a
        / 0x1_0000_0000_0000 % 256 == b / 0x1_0000_0000_0000 % 256 && a / 0x100_0000_0000 % 256
        == b / 0x100_0000_0000 % 256 && a / 0x1_0000_0000 % 256 == b / 0x1_0000_0000 % 256 && a
        / 0x100_0000 % 256 == b / 0x100_0000 % 256 && a / 0x1_0000 % 256 == b / 0x1_0000 % 256
        && a / 0x100 % 256 == b / 0x100 % 256 && a % 256 == b % 256) ==> a == b) by (bit_vector);
}

} // verus!
