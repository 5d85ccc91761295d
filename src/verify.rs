//! Verification of beacon signatures for the three deployed network schemes.

use vstd::prelude::*;
use vstd::string::{StringExecFns, StringSliceAdditionalSpecFns};

use crate::engine::{
    fast_pairing_equality, g1_decodes, g1_decodes_unchecked, g1_generator_bytes, g2_decodes,
    g2_decodes_unchecked, g2_generator_bytes, hash_to_curve_g1, hash_to_curve_g2, hash_to_g1,
    hash_to_g2, pairings_equal, G1, G2,
};
use crate::message::{beacon_message, message};
use crate::points::{
    decode_error, g1_from_fixed, g1_from_fixed_unchecked, g1_from_variable, g1_generator,
    g2_from_fixed, g2_from_fixed_unchecked, g2_from_variable, g2_generator, InvalidPoint,
    G1_COMPRESSED_SIZE, G2_COMPRESSED_SIZE,
};

verus! {

/// Tag for hashing onto G2, as the standard names it.
pub const DOMAIN_HASH_TO_G2: &'static str = "BLS_SIG_BLS12381G2_XMD:SHA-256_SSWU_RO_NUL_";

/// Tag for hashing onto G1, as the standard names it.
pub const DOMAIN_HASH_TO_G1: &'static str = "BLS_SIG_BLS12381G1_XMD:SHA-256_SSWU_RO_NUL_";

/// Tag that the fastnet scheme hashes onto G1 with. The network signed its
/// beacons with the G2 tag here, by mistake; its data can only be verified
/// with that same tag, so it is kept as it is.
pub const DOMAIN_FASTNET: &'static str = DOMAIN_HASH_TO_G2;

/// The deployed network schemes.
#[derive(Clone, Copy, Debug, PartialEq, Eq, Structural)]
pub enum Scheme {
    /// Public key on G1, signatures on G2 (pedersen-bls-chained and
    /// pedersen-bls-unchained).
    ChainedG1,
    /// Public key on G2, signatures on G1, hashed with the G2 tag
    /// (bls-unchained-on-g1).
    FastnetG2,
    /// Public key on G2, signatures on G1, hashed with the G1 tag
    /// (bls-unchained-g1-rfc9380).
    RfcG2,
}

/// Whether the scheme's public key lies on G1 (else on G2, and its
/// signatures on the other group).
pub open spec fn key_on_g1(s: Scheme) -> bool {
    s is ChainedG1
}

/// Size of the scheme's compressed public key.
pub open spec fn key_size(s: Scheme) -> usize {
    if key_on_g1(s) {
        G1_COMPRESSED_SIZE
    } else {
        G2_COMPRESSED_SIZE
    }
}

/// Size of the scheme's compressed signature.
pub open spec fn signature_size(s: Scheme) -> usize {
    if key_on_g1(s) {
        G2_COMPRESSED_SIZE
    } else {
        G1_COMPRESSED_SIZE
    }
}

/// Whether `b` decodes, with the subgroup check, as a point of the key's group.
pub open spec fn key_decodes(s: Scheme, b: Seq<u8>) -> bool {
    if key_on_g1(s) {
        g1_decodes(b)
    } else {
        g2_decodes(b)
    }
}

/// Whether `b` decodes, without the subgroup check, as a point of the key's group.
pub open spec fn key_decodes_unchecked(s: Scheme, b: Seq<u8>) -> bool {
    if key_on_g1(s) {
        g1_decodes_unchecked(b)
    } else {
        g2_decodes_unchecked(b)
    }
}

/// Whether `b` decodes, with the subgroup check, as a point of the signature's group.
pub open spec fn signature_decodes(s: Scheme, b: Seq<u8>) -> bool {
    if key_on_g1(s) {
        g2_decodes(b)
    } else {
        g1_decodes(b)
    }
}

/// The tag with which the scheme hashes messages onto the signature's group.
pub open spec fn domain_tag(s: Scheme) -> Seq<u8> {
    match s {
        Scheme::ChainedG1 => DOMAIN_HASH_TO_G2.spec_bytes(),
        Scheme::FastnetG2 => DOMAIN_FASTNET.spec_bytes(),
        Scheme::RfcG2 => DOMAIN_HASH_TO_G1.spec_bytes(),
    }
}

/// Encoding of the point that `msg` is hashed to, in the signature's group.
pub open spec fn hashed_message(s: Scheme, msg: Seq<u8>) -> Seq<u8> {
    if key_on_g1(s) {
        hash_to_g2(msg, domain_tag(s))
    } else {
        hash_to_g1(msg, domain_tag(s))
    }
}

/// The BLS equation: e(g1, sig) == e(key, h) for a key on G1, and
/// e(sig, g2) == e(h, key) for a key on G2, where `h` is the hashed message.
pub open spec fn signature_valid(s: Scheme, key: Seq<u8>, sig: Seq<u8>, hashed: Seq<u8>) -> bool {
    if key_on_g1(s) {
        pairings_equal(g1_generator_bytes(), sig, key, hashed)
    } else {
        pairings_equal(sig, g2_generator_bytes(), hashed, key)
    }
}

/// Outcome of checking signature `sig` against `key` for the already hashed
/// message `hashed`: an error if `sig` is no valid encoding, else whether the
/// BLS equation holds.
pub open spec fn signature_check(s: Scheme, key: Seq<u8>, sig: Seq<u8>, hashed: Seq<u8>) -> Result<
    bool,
    InvalidPoint,
> {
    match decode_error(signature_size(s), sig, signature_decodes(s, sig)) {
        Some(e) => Err(e),
        None => Ok(signature_valid(s, key, sig, hashed)),
    }
}

/// Outcome of verifying the beacon (`round`, `prev`, `sig`) against `key`.
pub open spec fn beacon_check(s: Scheme, key: Seq<u8>, round: u64, prev: Seq<u8>, sig: Seq<u8>) -> Result<bool, InvalidPoint> {
    signature_check(s, key, sig, hashed_message(s, beacon_message(round, prev)))
}

/// A verification is an error exactly when the signature is not a valid
/// compressed point of the scheme's signature group; a signature that is a
/// valid point always gives a boolean, whether or not it verifies.
pub proof fn lemma_error_iff_malformed_signature(
    s: Scheme,
    key: Seq<u8>,
    round: u64,
    prev: Seq<u8>,
    sig: Seq<u8>,
)
    ensures
        beacon_check(s, key, round, prev, sig) is Err <==> !(sig.len() == signature_size(s)
            && signature_decodes(s, sig)),
        sig.len() != signature_size(s) ==> beacon_check(s, key, round, prev, sig) == Err::<
            bool,
            InvalidPoint,
        >(InvalidPoint::UnexpectedLength { expected: signature_size(s), actual: sig.len() as usize }),
{
}

/// A failed verification.
#[derive(Debug)]
pub enum VerificationError {
    /// The bytes given for `field` are no valid point; `msg` says why.
    InvalidPoint { field: String, msg: String },
}

impl VerificationError {
    /// Describes this error in words.
    pub fn to_string(&self) -> (r: String)
        ensures
            match self {
                VerificationError::InvalidPoint { field, msg } => r@ == "Invalid point for field "@
                    + field@ + ": "@ + msg@,
            },
    {
        match self {
            VerificationError::InvalidPoint { field, msg } => {
                let mut s = String::from_str("Invalid point for field ");
                s.append(field.as_str());
                s.append(": ");
                s.append(msg.as_str());
                s
            },
        }
    }
}

/// Whether the result of a verification call `r` reports `expected`: the same
/// boolean, or an error on the signature field that carries the message of
/// the expected decoding error.
pub open spec fn reports(r: Result<bool, VerificationError>, expected: Result<bool, InvalidPoint>) -> bool {
    match expected {
        Ok(b) => r == Ok::<bool, VerificationError>(b),
        Err(e) => match r {
            Err(VerificationError::InvalidPoint { field, msg }) => field@ == "signature"@ && msg@
                == e.message(),
            Ok(_) => false,
        },
    }
}

/// The error returned when the signature does not decode.
fn signature_error(e: InvalidPoint) -> (r: VerificationError)
    ensures
        reports(Err(r), Err(e)),
{
    VerificationError::InvalidPoint { field: String::from_str("signature"), msg: e.to_string() }
}

/// A public key of a beacon network, of one of the deployed schemes.
pub trait Pubkey: Sized {
    /// The group (G1 or G2) on which the public key lives.
    type This;

    /// The compressed form of a key (`[u8; 48]` or `[u8; 96]`).
    type ThisCompressed;

    /// The other group (G2 or G1), on which signatures live.
    type Other;

    /// The scheme of this key type.
    spec fn scheme() -> Scheme;

    /// The compressed encoding of this key.
    spec fn key_bytes(&self) -> Seq<u8>;

    /// The bytes of a compressed key.
    spec fn compressed_bytes(data: Self::ThisCompressed) -> Seq<u8>;

    /// The compressed encoding of a point of the signature's group.
    spec fn other_bytes(p: Self::Other) -> Seq<u8>;

    /// Hashes a message onto the signature's group, with the scheme's tag.
    fn msg_to_curve(msg: &[u8]) -> (r: Self::Other)
        ensures
            Self::other_bytes(r) == hashed_message(Self::scheme(), msg@),
            signature_decodes(Self::scheme(), Self::other_bytes(r)),
    ;

    /// Decodes a compressed key, checking that it lies in the prime-order
    /// subgroup.
    fn from_fixed(data: Self::ThisCompressed) -> (r: Result<Self, InvalidPoint>)
        ensures
            match r {
                Ok(k) => key_decodes(Self::scheme(), Self::compressed_bytes(data)) && k.key_bytes()
                    == Self::compressed_bytes(data),
                Err(e) => !key_decodes(Self::scheme(), Self::compressed_bytes(data)) && e
                    == InvalidPoint::DecodingError {  },
            },
    ;

    /// Decodes a compressed key without the subgroup check. Use it only for a
    /// key known to be valid.
    fn from_fixed_unchecked(data: Self::ThisCompressed) -> (r: Result<Self, InvalidPoint>)
        ensures
            match r {
                Ok(k) => key_decodes_unchecked(Self::scheme(), Self::compressed_bytes(data))
                    && k.key_bytes() == Self::compressed_bytes(data),
                Err(e) => !key_decodes_unchecked(Self::scheme(), Self::compressed_bytes(data)) && e
                    == InvalidPoint::DecodingError {  },
            },
    ;

    /// Decodes a key from a buffer that must hold exactly one compressed key.
    fn from_variable(data: &[u8]) -> (r: Result<Self, InvalidPoint>)
        ensures
            match r {
                Ok(k) => decode_error(
                    key_size(Self::scheme()),
                    data@,
                    key_decodes(Self::scheme(), data@),
                ) is None && k.key_bytes() == data@,
                Err(e) => decode_error(
                    key_size(Self::scheme()),
                    data@,
                    key_decodes(Self::scheme(), data@),
                ) == Some(e),
            },
    ;

    /// The second half of [`Pubkey::verify`], for a message that was already
    /// hashed onto the curve with [`Pubkey::msg_to_curve`]. Both the key and
    /// the hashed message must lie in the prime-order subgroup: a key built
    /// with [`Pubkey::from_fixed_unchecked`] is the caller's to vouch for.
    fn verify_step2(&self, signature: &[u8], msg_on_curve: &Self::Other) -> (r: Result<
        bool,
        VerificationError,
    >)
        requires
            key_decodes(Self::scheme(), self.key_bytes()),
            signature_decodes(Self::scheme(), Self::other_bytes(*msg_on_curve)),
        ensures
            reports(
                r,
                signature_check(
                    Self::scheme(),
                    self.key_bytes(),
                    signature@,
                    Self::other_bytes(*msg_on_curve),
                ),
            ),
    ;

    /// Verifies the beacon of round `round` with the given previous signature
    /// (empty in unchained mode) and signature. A signature that is no valid
    /// point is an error; a valid point that does not verify is `Ok(false)`.
    /// The key must lie in the prime-order subgroup, as every key from
    /// [`Pubkey::from_fixed`] or [`Pubkey::from_variable`] does; a key built
    /// with [`Pubkey::from_fixed_unchecked`] is the caller's to vouch for.
    fn verify(&self, round: u64, previous_signature: &[u8], signature: &[u8]) -> (r: Result<
        bool,
        VerificationError,
    >)
        requires
            key_decodes(Self::scheme(), self.key_bytes()),
        ensures
            reports(
                r,
                beacon_check(
                    Self::scheme(),
                    self.key_bytes(),
                    round,
                    previous_signature@,
                    signature@,
                ),
            ),
    {
        let msg = message(round, previous_signature);
        let msg_on_curve = Self::msg_to_curve(&msg);
        self.verify_step2(signature, &msg_on_curve)
    }
}

/// The public key of networks with scheme ID pedersen-bls-chained or
/// pedersen-bls-unchained: on G1, with signatures on G2.
pub struct G1Pubkey(G1);

impl G1Pubkey {
    /// A key holds a valid encoding: of a point of the prime-order subgroup,
    /// or at least of a curve point when it was decoded without the check.
    #[verifier::type_invariant]
    spec fn valid_encoding(&self) -> bool {
        g1_decodes(self.0@) || g1_decodes_unchecked(self.0@)
    }
}

impl Pubkey for G1Pubkey {
    type This = G1;

    type ThisCompressed = [u8; 48];

    type Other = G2;

    open spec fn scheme() -> Scheme {
        Scheme::ChainedG1
    }

    closed spec fn key_bytes(&self) -> Seq<u8> {
        self.0@
    }

    open spec fn compressed_bytes(data: [u8; 48]) -> Seq<u8> {
        data@
    }

    open spec fn other_bytes(p: G2) -> Seq<u8> {
        p@
    }

    fn msg_to_curve(msg: &[u8]) -> (r: G2) {
        let dst = DOMAIN_HASH_TO_G2.as_bytes();
        let r = hash_to_curve_g2(msg, dst);
        assert(Self::other_bytes(r) == r@);
        r
    }

    fn from_fixed(data: [u8; 48]) -> (r: Result<Self, InvalidPoint>) {
        match g1_from_fixed(data) {
            Ok(p) => Ok(G1Pubkey(p)),
            Err(e) => Err(e),
        }
    }

    fn from_fixed_unchecked(data: [u8; 48]) -> (r: Result<Self, InvalidPoint>) {
        match g1_from_fixed_unchecked(data) {
            Ok(p) => Ok(G1Pubkey(p)),
            Err(e) => Err(e),
        }
    }

    fn from_variable(data: &[u8]) -> (r: Result<Self, InvalidPoint>) {
        match g1_from_variable(data) {
            Ok(p) => Ok(G1Pubkey(p)),
            Err(e) => Err(e),
        }
    }

    fn verify_step2(&self, signature: &[u8], msg_on_curve: &G2) -> (r: Result<
        bool,
        VerificationError,
    >) {
        let g1 = g1_generator();
        let sigma = match g2_from_variable(signature) {
            Ok(sigma) => sigma,
            Err(err) => {
                return Err(signature_error(err));
            },
        };
        let b = fast_pairing_equality(&g1, &sigma, &self.0, msg_on_curve);
        assert(Self::other_bytes(*msg_on_curve) == msg_on_curve@);
        Ok(b)
    }
}

/// The public key of networks with scheme ID bls-unchained-on-g1 (fastnet and
/// testnet-g): on G2, with signatures on G1.
pub struct G2PubkeyFastnet(G2);

impl G2PubkeyFastnet {
    /// A key holds a valid encoding: of a point of the prime-order subgroup,
    /// or at least of a curve point when it was decoded without the check.
    #[verifier::type_invariant]
    spec fn valid_encoding(&self) -> bool {
        g2_decodes(self.0@) || g2_decodes_unchecked(self.0@)
    }
}

impl Pubkey for G2PubkeyFastnet {
    type This = G2;

    type ThisCompressed = [u8; 96];

    type Other = G1;

    open spec fn scheme() -> Scheme {
        Scheme::FastnetG2
    }

    closed spec fn key_bytes(&self) -> Seq<u8> {
        self.0@
    }

    open spec fn compressed_bytes(data: [u8; 96]) -> Seq<u8> {
        data@
    }

    open spec fn other_bytes(p: G1) -> Seq<u8> {
        p@
    }

    fn msg_to_curve(msg: &[u8]) -> (r: G1) {
        let dst = DOMAIN_FASTNET.as_bytes();
        let r = hash_to_curve_g1(msg, dst);
        assert(Self::other_bytes(r) == r@);
        r
    }

    fn from_fixed(data: [u8; 96]) -> (r: Result<Self, InvalidPoint>) {
        match g2_from_fixed(data) {
            Ok(p) => Ok(G2PubkeyFastnet(p)),
            Err(e) => Err(e),
        }
    }

    fn from_fixed_unchecked(data: [u8; 96]) -> (r: Result<Self, InvalidPoint>) {
        match g2_from_fixed_unchecked(data) {
            Ok(p) => Ok(G2PubkeyFastnet(p)),
            Err(e) => Err(e),
        }
    }

    fn from_variable(data: &[u8]) -> (r: Result<Self, InvalidPoint>) {
        match g2_from_variable(data) {
            Ok(p) => Ok(G2PubkeyFastnet(p)),
            Err(e) => Err(e),
        }
    }

    fn verify_step2(&self, signature: &[u8], msg_on_curve: &G1) -> (r: Result<
        bool,
        VerificationError,
    >) {
        let g2 = g2_generator();
        let sigma = match g1_from_variable(signature) {
            Ok(sigma) => sigma,
            Err(err) => {
                return Err(signature_error(err));
            },
        };
        let b = fast_pairing_equality(&sigma, &g2, msg_on_curve, &self.0);
        assert(Self::other_bytes(*msg_on_curve) == msg_on_curve@);
        Ok(b)
    }
}

/// Former name of [`G2PubkeyFastnet`], deprecated: use [`G2PubkeyFastnet`]
/// for networks with scheme ID bls-unchained-on-g1, or [`G2PubkeyRfc`] for
/// those with scheme ID bls-unchained-g1-rfc9380.
pub type G2Pubkey = G2PubkeyFastnet;

/// The public key of networks with scheme ID bls-unchained-g1-rfc9380
/// (quicknet): on G2, with signatures on G1.
pub struct G2PubkeyRfc(G2);

impl G2PubkeyRfc {
    /// A key holds a valid encoding: of a point of the prime-order subgroup,
    /// or at least of a curve point when it was decoded without the check.
    #[verifier::type_invariant]
    spec fn valid_encoding(&self) -> bool {
        g2_decodes(self.0@) || g2_decodes_unchecked(self.0@)
    }
}

impl Pubkey for G2PubkeyRfc {
    type This = G2;

    type ThisCompressed = [u8; 96];

    type Other = G1;

    open spec fn scheme() -> Scheme {
        Scheme::RfcG2
    }

    closed spec fn key_bytes(&self) -> Seq<u8> {
        self.0@
    }

    open spec fn compressed_bytes(data: [u8; 96]) -> Seq<u8> {
        data@
    }

    open spec fn other_bytes(p: G1) -> Seq<u8> {
        p@
    }

    fn msg_to_curve(msg: &[u8]) -> (r: G1) {
        let dst = DOMAIN_HASH_TO_G1.as_bytes();
        let r = hash_to_curve_g1(msg, dst);
        assert(Self::other_bytes(r) == r@);
        r
    }

    fn from_fixed(data: [u8; 96]) -> (r: Result<Self, InvalidPoint>) {
        match g2_from_fixed(data) {
            Ok(p) => Ok(G2PubkeyRfc(p)),
            Err(e) => Err(e),
        }
    }

    fn from_fixed_unchecked(data: [u8; 96]) -> (r: Result<Self, InvalidPoint>) {
        match g2_from_fixed_unchecked(data) {
            Ok(p) => Ok(G2PubkeyRfc(p)),
            Err(e) => Err(e),
        }
    }

    fn from_variable(data: &[u8]) -> (r: Result<Self, InvalidPoint>) {
        match g2_from_variable(data) {
            Ok(p) => Ok(G2PubkeyRfc(p)),
            Err(e) => Err(e),
        }
    }

    fn verify_step2(&self, signature: &[u8], msg_on_curve: &G1) -> (r: Result<
        bool,
        VerificationError,
    >) {
        let g2 = g2_generator();
        let sigma = match g1_from_variable(signature) {
            Ok(sigma) => sigma,
            Err(err) => {
                return Err(signature_error(err));
            },
        };
        let b = fast_pairing_equality(&sigma, &g2, msg_on_curve, &self.0);
        assert(Self::other_bytes(*msg_on_curve) == msg_on_curve@);
        Ok(b)
    }
}

} // verus!
