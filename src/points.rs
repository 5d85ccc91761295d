//! Decoding compressed points from bytes, with the errors that it reports.

use vstd::prelude::*;
use vstd::string::StringExecFns;

use crate::engine::{
    g1_decodes, g1_decodes_unchecked, g1_decompress, g1_decompress_unchecked, g1_generator_bytes,
    g1_generator_point, g2_decodes, g2_decodes_unchecked, g2_decompress, g2_decompress_unchecked,
    g2_generator_bytes, g2_generator_point, G1, G2,
};

verus! {

/// Size in bytes of a compressed point of G1.
pub const G1_COMPRESSED_SIZE: usize = 48;

/// Size in bytes of a compressed point of G2.
pub const G2_COMPRESSED_SIZE: usize = 96;

/// Why bytes could not be turned into a point.
#[derive(Clone, Copy, Debug, PartialEq, Eq, Structural)]
pub enum InvalidPoint {
    /// The length fits neither group.
    InvalidLength { actual: usize },
    /// The length is not the one of the group that was asked for.
    UnexpectedLength { expected: usize, actual: usize },
    /// The length is right but the bytes encode no valid point.
    DecodingError {},
}

/// The character of the decimal digit `d`.
pub open spec fn digit_char(d: nat) -> char {
    seq!['0', '1', '2', '3', '4', '5', '6', '7', '8', '9'][(d % 10) as int]
}

/// The decimal notation of `n`, without leading zeros.
pub open spec fn decimal(n: nat) -> Seq<char>
    decreases n,
{
    if n < 10 {
        seq![digit_char(n)]
    } else {
        decimal(n / 10).push(digit_char(n % 10))
    }
}

/// Start of the message of a length error.
pub const LENGTH_ERROR_PREFIX: &'static str =
    "Invalid input length for point (must be in compressed format): ";

impl InvalidPoint {
    /// The human-readable description of this error.
    pub open spec fn message(self) -> Seq<char> {
        match self {
            InvalidPoint::InvalidLength { actual } => LENGTH_ERROR_PREFIX@ + "actual: "@ + decimal(
                actual as nat,
            ),
            InvalidPoint::UnexpectedLength { expected, actual } => LENGTH_ERROR_PREFIX@
                + "Expected "@ + decimal(expected as nat) + ", actual: "@ + decimal(actual as nat),
            InvalidPoint::DecodingError {  } => "Invalid point"@,
        }
    }

    /// Describes this error in words.
    pub fn to_string(&self) -> (r: String)
        ensures
            r@ == self.message(),
    {
        match self {
            InvalidPoint::InvalidLength { actual } => {
                let mut s = String::from_str(LENGTH_ERROR_PREFIX);
                s.append("actual: ");
                s.append(decimal_string(*actual).as_str());
                s
            },
            InvalidPoint::UnexpectedLength { expected, actual } => {
                let mut s = String::from_str(LENGTH_ERROR_PREFIX);
                s.append("Expected ");
                s.append(decimal_string(*expected).as_str());
                s.append(", actual: ");
                s.append(decimal_string(*actual).as_str());
                s
            },
            InvalidPoint::DecodingError {  } => String::from_str("Invalid point"),
        }
    }
}

/// The one-character string of the digit `d`.
fn digit_str(d: usize) -> (r: &'static str)
    requires
        d < 10,
    ensures
        r@ == seq![digit_char(d as nat)],
{
    proof {
        reveal_strlit("0");
        reveal_strlit("1");
        reveal_strlit("2");
        reveal_strlit("3");
        reveal_strlit("4");
        reveal_strlit("5");
        reveal_strlit("6");
        reveal_strlit("7");
        reveal_strlit("8");
        reveal_strlit("9");
    }
    let r = if d == 0 {
        "0"
    } else if d == 1 {
        "1"
    } else if d == 2 {
        "2"
    } else if d == 3 {
        "3"
    } else if d == 4 {
        "4"
    } else if d == 5 {
        "5"
    } else if d == 6 {
        "6"
    } else if d == 7 {
        "7"
    } else if d == 8 {
        "8"
    } else {
        "9"
    };
    assert(r@ =~= seq![digit_char(d as nat)]);
    r
}

/// Writes `n` in decimal.
fn decimal_string(n: usize) -> (r: String)
    ensures
        r@ == decimal(n as nat),
    decreases n,
{
    if n < 10 {
        String::from_str(digit_str(n))
    } else {
        let mut s = decimal_string(n / 10);
        s.append(digit_str(n % 10));
        s
    }
}

/// The error, if any, of decoding `b` as a point whose encoding takes `size`
/// bytes, where `valid` tells whether bytes of that length decode.
pub open spec fn decode_error(size: usize, b: Seq<u8>, valid: bool) -> Option<InvalidPoint> {
    if b.len() != size {
        Some(InvalidPoint::UnexpectedLength { expected: size, actual: b.len() as usize })
    } else if !valid {
        Some(InvalidPoint::DecodingError {  })
    } else {
        None
    }
}

/// Decodes a compressed G1 point, checking that it lies in the prime-order
/// subgroup.
pub fn g1_from_fixed(data: [u8; 48]) -> (r: Result<G1, InvalidPoint>)
    ensures
        match r {
            Ok(p) => g1_decodes(data@) && p@ == data@,
            Err(e) => !g1_decodes(data@) && e == InvalidPoint::DecodingError {  },
        },
{
    match g1_decompress(&data) {
        Some(p) => Ok(p),
        None => Err(InvalidPoint::DecodingError {  }),
    }
}

/// Like [`g1_from_fixed`] without the subgroup check, which is the costly part
/// of decoding. Use it only for bytes known to encode a valid element, such as
/// data from a chain that was verified before.
pub fn g1_from_fixed_unchecked(data: [u8; 48]) -> (r: Result<G1, InvalidPoint>)
    ensures
        match r {
            Ok(p) => g1_decodes_unchecked(data@) && p@ == data@,
            Err(e) => !g1_decodes_unchecked(data@) && e == InvalidPoint::DecodingError {  },
        },
{
    match g1_decompress_unchecked(&data) {
        Some(p) => Ok(p),
        None => Err(InvalidPoint::DecodingError {  }),
    }
}

/// Decodes a compressed G2 point, checking that it lies in the prime-order
/// subgroup.
pub fn g2_from_fixed(data: [u8; 96]) -> (r: Result<G2, InvalidPoint>)
    ensures
        match r {
            Ok(p) => g2_decodes(data@) && p@ == data@,
            Err(e) => !g2_decodes(data@) && e == InvalidPoint::DecodingError {  },
        },
{
    match g2_decompress(&data) {
        Some(p) => Ok(p),
        None => Err(InvalidPoint::DecodingError {  }),
    }
}

/// Like [`g2_from_fixed`] without the subgroup check. Use it only for bytes
/// known to encode a valid element.
pub fn g2_from_fixed_unchecked(data: [u8; 96]) -> (r: Result<G2, InvalidPoint>)
    ensures
        match r {
            Ok(p) => g2_decodes_unchecked(data@) && p@ == data@,
            Err(e) => !g2_decodes_unchecked(data@) && e == InvalidPoint::DecodingError {  },
        },
{
    match g2_decompress_unchecked(&data) {
        Some(p) => Ok(p),
        None => Err(InvalidPoint::DecodingError {  }),
    }
}

/// Decodes a compressed G1 point from a buffer that must hold exactly 48
/// bytes, with the subgroup check.
pub fn g1_from_variable(data: &[u8]) -> (r: Result<G1, InvalidPoint>)
    ensures
        match r {
            Ok(p) => decode_error(G1_COMPRESSED_SIZE, data@, g1_decodes(data@)) is None && p@
                == data@,
            Err(e) => decode_error(G1_COMPRESSED_SIZE, data@, g1_decodes(data@)) == Some(e),
        },
{
    if data.len() != G1_COMPRESSED_SIZE {
        return Err(InvalidPoint::UnexpectedLength { expected: G1_COMPRESSED_SIZE, actual: data.len() });
    }
    let mut buf = [0u8; 48];
    let mut i: usize = 0;
    while i < G1_COMPRESSED_SIZE
        invariant
            data@.len() == G1_COMPRESSED_SIZE,
            i <= G1_COMPRESSED_SIZE,
            forall|j: int| 0 <= j < i ==> buf@[j] == data@[j],
        decreases G1_COMPRESSED_SIZE - i,
    {
        buf[i] = data[i];
        i = i + 1;
    }
    assert(buf@ =~= data@);
    g1_from_fixed(buf)
}

/// Decodes a compressed G2 point from a buffer that must hold exactly 96
/// bytes, with the subgroup check.
pub fn g2_from_variable(data: &[u8]) -> (r: Result<G2, InvalidPoint>)
    ensures
        match r {
            Ok(p) => decode_error(G2_COMPRESSED_SIZE, data@, g2_decodes(data@)) is None && p@
                == data@,
            Err(e) => decode_error(G2_COMPRESSED_SIZE, data@, g2_decodes(data@)) == Some(e),
        },
{
    if data.len() != G2_COMPRESSED_SIZE {
        return Err(InvalidPoint::UnexpectedLength { expected: G2_COMPRESSED_SIZE, actual: data.len() });
    }
    let mut buf = [0u8; 96];
    let mut i: usize = 0;
    while i < G2_COMPRESSED_SIZE
        invariant
            data@.len() == G2_COMPRESSED_SIZE,
            i <= G2_COMPRESSED_SIZE,
            forall|j: int| 0 <= j < i ==> buf@[j] == data@[j],
        decreases G2_COMPRESSED_SIZE - i,
    {
        buf[i] = data[i];
        i = i + 1;
    }
    assert(buf@ =~= data@);
    g2_from_fixed(buf)
}

/// The standard generator of G1.
pub fn g1_generator() -> (r: G1)
    ensures
        r@ == g1_generator_bytes(),
        g1_decodes(r@),
{
    g1_generator_point()
}

/// The standard generator of G2.
pub fn g2_generator() -> (r: G2)
    ensures
        r@ == g2_generator_bytes(),
        g2_decodes(r@),
{
    g2_generator_point()
}

/// A point of either group.
#[derive(Clone, Copy, Debug, PartialEq, Eq)]
pub enum Point {
    OnG1(G1),
    OnG2(G2),
}

/// Decodes a compressed point of the group that the length of `data` selects:
/// 48 bytes for G1, 96 for G2, each with the subgroup check. Any other length
/// is an `InvalidLength` error.
pub fn point_from_variable(data: &[u8]) -> (r: Result<Point, InvalidPoint>)
    ensures
        data@.len() == G1_COMPRESSED_SIZE ==> match r {
            Ok(Point::OnG1(p)) => g1_decodes(data@) && p@ == data@,
            Ok(Point::OnG2(_)) => false,
            Err(e) => !g1_decodes(data@) && e == InvalidPoint::DecodingError {  },
        },
        data@.len() == G2_COMPRESSED_SIZE ==> match r {
            Ok(Point::OnG2(p)) => g2_decodes(data@) && p@ == data@,
            Ok(Point::OnG1(_)) => false,
            Err(e) => !g2_decodes(data@) && e == InvalidPoint::DecodingError {  },
        },
        data@.len() != G1_COMPRESSED_SIZE && data@.len() != G2_COMPRESSED_SIZE ==> r == Err::<
            Point,
            InvalidPoint,
        >(InvalidPoint::InvalidLength { actual: data@.len() as usize }),
{
    if data.len() == G1_COMPRESSED_SIZE {
        match g1_from_variable(data) {
            Ok(p) => Ok(Point::OnG1(p)),
            Err(e) => Err(e),
        }
    } else if data.len() == G2_COMPRESSED_SIZE {
        match g2_from_variable(data) {
            Ok(p) => Ok(Point::OnG2(p)),
            Err(e) => Err(e),
        }
    } else {
        Err(InvalidPoint::InvalidLength { actual: data.len() })
    }
}

/// Round trip: bytes that decode as a G1 point (with or without the subgroup
/// check) are given back unchanged when that point is encoded again.
pub proof fn lemma_g1_round_trip(
    data: [u8; 48],
    checked: bool,
    decoded: Result<G1, InvalidPoint>,
    encoded: [u8; 48],
)
    requires
        if checked {
            g1_decodes(data@) && call_ensures(g1_from_fixed, (data,), decoded)
        } else {
            g1_decodes_unchecked(data@) && call_ensures(g1_from_fixed_unchecked, (data,), decoded)
        },
        decoded matches Ok(p) ==> call_ensures(G1::to_compressed, (&p,), encoded),
    ensures
        decoded is Ok,
        encoded == data,
{
    assert(encoded@ =~= data@);
}

/// Round trip: bytes that decode as a G2 point (with or without the subgroup
/// check) are given back unchanged when that point is encoded again.
pub proof fn lemma_g2_round_trip(
    data: [u8; 96],
    checked: bool,
    decoded: Result<G2, InvalidPoint>,
    encoded: [u8; 96],
)
    requires
        if checked {
            g2_decodes(data@) && call_ensures(g2_from_fixed, (data,), decoded)
        } else {
            g2_decodes_unchecked(data@) && call_ensures(g2_from_fixed_unchecked, (data,), decoded)
        },
        decoded matches Ok(p) ==> call_ensures(G2::to_compressed, (&p,), encoded),
    ensures
        decoded is Ok,
        encoded == data,
{
    assert(encoded@ =~= data@);
}

} // verus!
