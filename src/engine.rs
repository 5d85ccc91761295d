//! The elliptic-curve engine that the verifier relies on: points of the two
//! groups of BLS12-381, hashing onto them, and the pairing check. The
//! arithmetic is done by the `bls12_381` crate.
//!
//! A point is known to the proofs by its canonical compressed encoding. Every
//! point value of this module is made here and carries that encoding beside
//! the point itself, so that the two always agree.

use vstd::prelude::*;
use bls12_381::hash_to_curve::{ExpandMsgXmd, HashToCurve};
use bls12_381::{G1Affine, G1Projective, G2Affine, G2Prepared, G2Projective};
use pairing::group::Group;

verus! {

#[verifier::external_type_specification]
#[verifier::external_body]
pub struct ExG1Affine(G1Affine);

#[verifier::external_type_specification]
#[verifier::external_body]
pub struct ExG2Affine(G2Affine);

/// Whether `G1Affine::from_compressed` accepts these bytes: the canonical
/// compressed encoding of a point of the prime-order subgroup of G1.
pub uninterp spec fn g1_decodes(b: Seq<u8>) -> bool;

/// Whether `G1Affine::from_compressed_unchecked` accepts these bytes: the
/// canonical compressed encoding of a point on the G1 curve.
pub uninterp spec fn g1_decodes_unchecked(b: Seq<u8>) -> bool;

/// Whether `G2Affine::from_compressed` accepts these bytes.
pub uninterp spec fn g2_decodes(b: Seq<u8>) -> bool;

/// Whether `G2Affine::from_compressed_unchecked` accepts these bytes.
pub uninterp spec fn g2_decodes_unchecked(b: Seq<u8>) -> bool;

/// Compressed encoding of the G1 point that hash-to-curve (expand-message-xmd
/// over SHA-256, simplified SWU map) gives for `msg` under the tag `dst`.
pub uninterp spec fn hash_to_g1(msg: Seq<u8>, dst: Seq<u8>) -> Seq<u8>;

/// Compressed encoding of the G2 point that hash-to-curve gives for `msg`
/// under the tag `dst`.
pub uninterp spec fn hash_to_g2(msg: Seq<u8>, dst: Seq<u8>) -> Seq<u8>;

/// Whether e(p, q) == e(r, s), where p and r are the G1 points and q and s
/// the G2 points with these compressed encodings.
pub uninterp spec fn pairings_equal(p: Seq<u8>, q: Seq<u8>, r: Seq<u8>, s: Seq<u8>) -> bool;

/// Compressed encoding of the standard generator of G1.
pub open spec fn g1_generator_bytes() -> Seq<u8> {
    seq![
        0x97, 0xf1, 0xd3, 0xa7, 0x31, 0x97, 0xd7, 0x94, 0x26, 0x95, 0x63, 0x8c,
        0x4f, 0xa9, 0xac, 0x0f, 0xc3, 0x68, 0x8c, 0x4f, 0x97, 0x74, 0xb9, 0x05,
        0xa1, 0x4e, 0x3a, 0x3f, 0x17, 0x1b, 0xac, 0x58, 0x6c, 0x55, 0xe8, 0x3f,
        0xf9, 0x7a, 0x1a, 0xef, 0xfb, 0x3a, 0xf0, 0x0a, 0xdb, 0x22, 0xc6, 0xbb,
    ]
}

/// Compressed encoding of the standard generator of G2.
pub open spec fn g2_generator_bytes() -> Seq<u8> {
    seq![
        0x93, 0xe0, 0x2b, 0x60, 0x52, 0x71, 0x9f, 0x60, 0x7d, 0xac, 0xd3, 0xa0,
        0x88, 0x27, 0x4f, 0x65, 0x59, 0x6b, 0xd0, 0xd0, 0x99, 0x20, 0xb6, 0x1a,
        0xb5, 0xda, 0x61, 0xbb, 0xdc, 0x7f, 0x50, 0x49, 0x33, 0x4c, 0xf1, 0x12,
        0x13, 0x94, 0x5d, 0x57, 0xe5, 0xac, 0x7d, 0x05, 0x5d, 0x04, 0x2b, 0x7e,
        0x02, 0x4a, 0xa2, 0xb2, 0xf0, 0x8f, 0x0a, 0x91, 0x26, 0x08, 0x05, 0x27,
        0x2d, 0xc5, 0x10, 0x51, 0xc6, 0xe4, 0x7a, 0xd4, 0xfa, 0x40, 0x3b, 0x02,
        0xb4, 0x51, 0x0b, 0x64, 0x7a, 0xe3, 0xd1, 0x77, 0x0b, 0xac, 0x03, 0x26,
        0xa8, 0x05, 0xbb, 0xef, 0xd4, 0x80, 0x56, 0xc8, 0xc1, 0x21, 0xbd, 0xb8,
    ]
}

/// A point of G1 together with its compressed encoding.
#[derive(Clone, Copy, Debug, PartialEq, Eq)]
pub struct G1 {
    point: G1Affine,
    compressed: [u8; 48],
}

/// A point of G2 together with its compressed encoding.
#[derive(Clone, Copy, Debug, PartialEq, Eq)]
pub struct G2 {
    point: G2Affine,
    compressed: [u8; 96],
}

impl View for G1 {
    type V = Seq<u8>;

    closed spec fn view(&self) -> Seq<u8> {
        self.compressed@
    }
}

impl View for G2 {
    type V = Seq<u8>;

    closed spec fn view(&self) -> Seq<u8> {
        self.compressed@
    }
}

impl G1 {
    /// The compressed encoding of this point (48 bytes).
    pub fn to_compressed(&self) -> (r: [u8; 48])
        ensures
            r@ == self@,
    {
        self.compressed
    }
}

impl G2 {
    /// The compressed encoding of this point (96 bytes).
    pub fn to_compressed(&self) -> (r: [u8; 96])
        ensures
            r@ == self@,
    {
        self.compressed
    }
}

/// Relies on `G1Affine::from_compressed`, which runs
/// `from_compressed_unchecked` and then checks subgroup membership; a point
/// it accepts compresses back to the same bytes.
#[verifier::external_body]
pub(crate) fn g1_decompress(bytes: &[u8; 48]) -> (r: Option<G1>)
    ensures
        r is Some <==> g1_decodes(bytes@),
        r is Some ==> g1_decodes_unchecked(bytes@),
        r matches Some(p) ==> p@ == bytes@,
{
    let point: Option<G1Affine> = G1Affine::from_compressed(bytes).into();
    point.map(|point| G1 { point, compressed: *bytes })
}

/// Relies on `G1Affine::from_compressed_unchecked`, which decodes without
/// the subgroup check; a point it accepts compresses back to the same bytes.
#[verifier::external_body]
pub(crate) fn g1_decompress_unchecked(bytes: &[u8; 48]) -> (r: Option<G1>)
    ensures
        r is Some <==> g1_decodes_unchecked(bytes@),
        r matches Some(p) ==> p@ == bytes@,
{
    let point: Option<G1Affine> = G1Affine::from_compressed_unchecked(bytes).into();
    point.map(|point| G1 { point, compressed: *bytes })
}

/// Relies on `G2Affine::from_compressed`, which runs
/// `from_compressed_unchecked` and then checks subgroup membership; a point
/// it accepts compresses back to the same bytes.
#[verifier::external_body]
pub(crate) fn g2_decompress(bytes: &[u8; 96]) -> (r: Option<G2>)
    ensures
        r is Some <==> g2_decodes(bytes@),
        r is Some ==> g2_decodes_unchecked(bytes@),
        r matches Some(p) ==> p@ == bytes@,
{
    let point: Option<G2Affine> = G2Affine::from_compressed(bytes).into();
    point.map(|point| G2 { point, compressed: *bytes })
}

/// Relies on `G2Affine::from_compressed_unchecked`, as for G1.
#[verifier::external_body]
pub(crate) fn g2_decompress_unchecked(bytes: &[u8; 96]) -> (r: Option<G2>)
    ensures
        r is Some <==> g2_decodes_unchecked(bytes@),
        r matches Some(p) ==> p@ == bytes@,
{
    let point: Option<G2Affine> = G2Affine::from_compressed_unchecked(bytes).into();
    point.map(|point| G2 { point, compressed: *bytes })
}

/// Relies on `G1Affine::generator` and `to_compressed`: the standard
/// generator of G1, a point of the prime-order subgroup, so its encoding
/// passes `from_compressed`.
#[verifier::external_body]
pub(crate) fn g1_generator_point() -> (r: G1)
    ensures
        r@ == g1_generator_bytes(),
        g1_decodes(r@),
{
    let point = G1Affine::generator();
    G1 { point, compressed: point.to_compressed() }
}

/// Relies on `G2Affine::generator` and `to_compressed`: the standard
/// generator of G2, a point of the prime-order subgroup, so its encoding
/// passes `from_compressed`.
#[verifier::external_body]
pub(crate) fn g2_generator_point() -> (r: G2)
    ensures
        r@ == g2_generator_bytes(),
        g2_decodes(r@),
{
    let point = G2Affine::generator();
    G2 { point, compressed: point.to_compressed() }
}

/// Relies on `HashToCurve::<ExpandMsgXmd<Sha256>>::hash_to_curve` for
/// `G1Projective`, a pure function of the message and the tag. The result
/// ends in `clear_h`, so it lies in the prime-order subgroup and its canonical
/// encoding passes `from_compressed`.
#[verifier::external_body]
pub(crate) fn hash_to_curve_g1(msg: &[u8], dst: &[u8]) -> (r: G1)
    ensures
        r@ == hash_to_g1(msg@, dst@),
        g1_decodes(r@),
{
    let g: G1Projective = HashToCurve::<ExpandMsgXmd<sha2::Sha256>>::hash_to_curve(msg, dst);
    let point = G1Affine::from(g);
    G1 { point, compressed: point.to_compressed() }
}

/// Relies on `HashToCurve::<ExpandMsgXmd<Sha256>>::hash_to_curve` for
/// `G2Projective`, a pure function of the message and the tag. The result
/// ends in `clear_h`, so it lies in the prime-order subgroup and its canonical
/// encoding passes `from_compressed`.
#[verifier::external_body]
pub(crate) fn hash_to_curve_g2(msg: &[u8], dst: &[u8]) -> (r: G2)
    ensures
        r@ == hash_to_g2(msg@, dst@),
        g2_decodes(r@),
{
    let g: G2Projective = HashToCurve::<ExpandMsgXmd<sha2::Sha256>>::hash_to_curve(msg, dst);
    let point = G2Affine::from(g);
    G2 { point, compressed: point.to_compressed() }
}

/// Checks e(p, q) == e(r, s) with one combined computation: relies on
/// `bls12_381::multi_miller_loop` over (-p, q) and (r, s), then
/// `final_exponentiation` and `is_identity`, since
/// e(-p, q) * e(r, s) is the identity exactly when e(p, q) == e(r, s).
/// The G2 points must lie in the prime-order subgroup: for a curve point of
/// small order outside it the Miller loop gives zero, and
/// `final_exponentiation` panics when it inverts that value.
#[verifier::external_body]
pub(crate) fn fast_pairing_equality(p: &G1, q: &G2, r: &G1, s: &G2) -> (b: bool)
    requires
        g2_decodes(q@),
        g2_decodes(s@),
    ensures
        b == pairings_equal(p@, q@, r@, s@),
{
    let minus_p = -p.point;
    let q_prepared = G2Prepared::from(q.point);
    let s_prepared = G2Prepared::from(s.point);
    let looped = bls12_381::multi_miller_loop(&[(&minus_p, &q_prepared), (&r.point, &s_prepared)]);
    looped.final_exponentiation().is_identity().into()
}

} // verus!
