//! Verification of drand randomness beacons over BLS12-381.
//!
//! A beacon of some round carries a signature (and, on chained networks, the
//! signature of the round before). [`Pubkey::verify`] checks it against the
//! network's public key; [`derive_randomness`] turns a verified signature
//! into the round's randomness.

pub mod engine;
pub mod message;
pub mod points;
pub mod randomness;
pub mod verify;

pub use engine::{G1, G2};
pub use message::{message, round_to_bytes};
pub use points::{
    g1_from_fixed, g1_from_fixed_unchecked, g1_from_variable, g1_generator, g2_from_fixed,
    g2_from_fixed_unchecked, g2_from_variable, g2_generator, point_from_variable, InvalidPoint,
    Point,
};
pub use randomness::derive_randomness;
pub use verify::{
    G1Pubkey, G2Pubkey, G2PubkeyFastnet, G2PubkeyRfc, Pubkey, Scheme, VerificationError,
};
