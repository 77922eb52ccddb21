//! The hex codec: exact specifications for what the `hex` crate computes,
//! trusted wrappers around its two calls, and the round-trip law.

use vstd::prelude::*;

use crate::errors::HexError;

verus! {

/// True of the ASCII code of a hex digit (`0-9`, `a-f`, `A-F`).
pub open spec fn is_hex_digit(b: u8) -> bool {
    (48 <= b <= 57) || (97 <= b <= 102) || (65 <= b <= 70)
}

/// The numeric value of a hex digit given by its ASCII code.
pub open spec fn hex_val(b: u8) -> u8
    recommends
        is_hex_digit(b),
{
    if 48 <= b <= 57 {
        (b - 48) as u8
    } else if 97 <= b <= 102 {
        (b - 87) as u8
    } else {
        (b - 55) as u8
    }
}

/// The lowercase ASCII code of the hex digit for a value below 16.
pub open spec fn hex_digit_lower(n: u8) -> u8
    recommends
        n < 16,
{
    if n < 10 {
        (48 + n) as u8
    } else {
        (87 + n) as u8
    }
}

/// True of a byte sequence that decodes as hex: even length, hex digits only.
pub open spec fn hex_valid(h: Seq<u8>) -> bool {
    &&& h.len() % 2 == 0
    &&& forall|i: int| 0 <= i < h.len() ==> is_hex_digit(#[trigger] h[i])
}

/// The bytes a valid hex sequence decodes to: one byte for each digit pair.
pub open spec fn spec_hex_decode(h: Seq<u8>) -> Seq<u8>
    recommends
        hex_valid(h),
{
    Seq::new((h.len() / 2) as nat, |i: int| (16 * hex_val(h[2 * i]) + hex_val(h[2 * i + 1])) as u8)
}

/// The lowercase hex encoding of a byte sequence: two digits for each byte.
pub open spec fn spec_hex_encode(b: Seq<u8>) -> Seq<u8> {
    Seq::new(
        (2 * b.len()) as nat,
        |i: int|
            if i % 2 == 0 {
                hex_digit_lower(b[i / 2] / 16)
            } else {
                hex_digit_lower(b[i / 2] % 16)
            },
    )
}

/// The position of the first byte that is not a hex digit.
pub open spec fn first_invalid(h: Seq<u8>) -> int
    decreases h.len(),
{
    if h.len() == 0 {
        0
    } else if !is_hex_digit(h[0]) {
        0
    } else {
        1 + first_invalid(h.skip(1))
    }
}

/// The error decoding an invalid hex sequence reports: odd length first,
/// otherwise the first byte that is not a hex digit.
pub open spec fn spec_hex_error(h: Seq<u8>) -> HexError
    recommends
        !hex_valid(h),
{
    if h.len() % 2 != 0 {
        HexError::OddLength
    } else {
        HexError::InvalidHexCharacter {
            c: h[first_invalid(h)] as char,
            index: first_invalid(h) as usize,
        }
    }
}

/// Relies on `hex::decode`: it returns the decoded bytes exactly when the
/// input has even length and holds hex digits only; otherwise it reports an
/// odd length, or the first byte that is not a hex digit.
#[verifier::external_body]
pub(crate) fn hex_decode(h: &[u8]) -> (r: Result<Vec<u8>, HexError>)
    ensures
        r is Ok <==> hex_valid(h@),
        r is Ok ==> r->Ok_0@ == spec_hex_decode(h@),
        r is Err ==> r->Err_0 == spec_hex_error(h@),
{
    match hex::decode(h) {
        Ok(v) => Ok(v),
        Err(hex::FromHexError::InvalidHexCharacter { c, index }) => Err(
            HexError::InvalidHexCharacter { c, index },
        ),
        Err(hex::FromHexError::OddLength) => Err(HexError::OddLength),
        Err(hex::FromHexError::InvalidStringLength) => Err(HexError::InvalidStringLength),
    }
}

/// Relies on `hex::encode`: two lowercase hex digits for each input byte.
#[verifier::external_body]
pub(crate) fn hex_encode(b: &[u8]) -> (r: String)
    ensures
        r@ == spec_hex_encode(b@).map_values(|x: u8| x as char),
{
    hex::encode(b)
}

/// A hex digit's value is recovered from its lowercase encoding.
proof fn lemma_digit_round_trip(n: u8)
    requires
        n < 16,
    ensures
        is_hex_digit(hex_digit_lower(n)),
        hex_val(hex_digit_lower(n)) == n,
{
}

/// Hex round trip: the lowercase hex form of any byte sequence is valid hex,
/// decodes back to the same bytes, and never starts with the `0x` prefix
/// marker (its second byte is a hex digit, which `x` is not).
pub proof fn lemma_hex_round_trip(b: Seq<u8>)
    ensures
        hex_valid(spec_hex_encode(b)),
        spec_hex_decode(spec_hex_encode(b)) == b,
        b.len() > 0 ==> spec_hex_encode(b)[1] != 120,
{
    let h = spec_hex_encode(b);
    assert forall|i: int| 0 <= i < h.len() implies is_hex_digit(#[trigger] h[i]) by {
        if i % 2 == 0 {
            lemma_digit_round_trip(b[i / 2] / 16);
        } else {
            lemma_digit_round_trip(b[i / 2] % 16);
        }
    }
    assert forall|i: int| 0 <= i < b.len() implies spec_hex_decode(h)[i] == b[i] by {
        assert(h[2 * i] == hex_digit_lower(b[i] / 16));
        assert(h[2 * i + 1] == hex_digit_lower(b[i] % 16));
        lemma_digit_round_trip(b[i] / 16);
        lemma_digit_round_trip(b[i] % 16);
        assert(16 * (b[i] / 16) + b[i] % 16 == b[i]) by (nonlinear_arith);
    }
    assert(spec_hex_decode(h) =~= b);
    if b.len() > 0 {
        lemma_digit_round_trip(b[0] % 16);
    }
}

} // verus!
