//! The signature data model and its 65-byte and hex wire encodings.

use vstd::prelude::*;
use vstd::slice::{slice_subrange, slice_to_vec};
use vstd::string::{StringExecFns, StringSliceAdditionalSpecFns};

use crate::errors::SignatureError;
use crate::hexcodec::{
    hex_decode, hex_encode, hex_valid, is_hex_digit, lemma_hex_round_trip, spec_hex_decode,
    spec_hex_encode, spec_hex_error,
};

verus! {

/// An ECDSA signature over secp256k1.
///
/// `r` and `s` are 256-bit unsigned integers held as 32-byte big-endian
/// buffers; `v` is the recovery indicator in any of its historical encodings.
/// The wire form is always exactly 65 bytes: `r`, then `s`, then the low byte
/// of `v`.
#[derive(Debug, Clone)]
pub struct Signature {
    /// R value, 32 bytes, big-endian.
    pub r: Vec<u8>,
    /// S value, 32 bytes, big-endian.
    pub s: Vec<u8>,
    /// V value.
    pub v: u64,
}

/// Recovery message data: either a binary message that is pre-hashed under
/// the personal-sign convention before recovery, or a precomputed digest.
#[derive(Debug, Clone)]
pub enum RecoveryMessage {
    /// Message bytes.
    Data(Vec<u8>),
    /// Message hash, 32 bytes.
    Hash(Vec<u8>),
}

/// True of a byte sequence that parses as exactly the given signature:
/// 65 bytes split as `r` (32), `s` (32) and the final byte widened into `v`.
pub open spec fn parses_to(b: Seq<u8>, sig: Signature) -> bool {
    &&& b.len() == 65
    &&& sig.r@ == b.subrange(0, 32)
    &&& sig.s@ == b.subrange(32, 64)
    &&& sig.v == b[64] as u64
}

/// A hex text form's bytes with an optional leading `0x` removed.
pub open spec fn strip_hex_prefix(h: Seq<u8>) -> Seq<u8> {
    if h.len() >= 2 && h[0] == 48 && h[1] == 120 {
        h.skip(2)
    } else {
        h
    }
}

impl Signature {
    /// The structural invariant: `r` and `s` are 32-byte buffers.
    pub open spec fn valid(&self) -> bool {
        &&& self.r@.len() == 32
        &&& self.s@.len() == 32
    }

    /// The 65-byte wire form: `r`, `s`, then the low byte of `v`. Serializing
    /// a `v` outside 0-255 truncates it to its low byte.
    pub open spec fn bytes(&self) -> Seq<u8> {
        self.r@ + self.s@ + seq![self.v as u8]
    }

    /// Parses the 65-byte wire form: the first 32 bytes are `r`, the next 32
    /// are `s`, and the final byte is `v`. Any other length is rejected with
    /// `InvalidLength` carrying the length seen.
    pub fn from_bytes(bytes: &[u8]) -> (res: Result<Signature, SignatureError>)
        ensures
            bytes@.len() == 65 ==> (res matches Ok(sig) && parses_to(bytes@, sig) && sig.valid()),
            bytes@.len() != 65 ==> res == Err::<Signature, SignatureError>(
                SignatureError::InvalidLength(bytes@.len() as usize),
            ),
    {
        if bytes.len() != 65 {
            return Err(SignatureError::InvalidLength(bytes.len()));
        }
        let r = slice_to_vec(slice_subrange(bytes, 0, 32));
        let s = slice_to_vec(slice_subrange(bytes, 32, 64));
        let v = *vstd::slice::slice_index_get(bytes, 64) as u64;
        Ok(Signature { r, s, v })
    }

    /// Serializes `self` into a new 65-byte `Vec` with the recovery
    /// indicator's low byte included.
    pub fn to_vec(&self) -> (res: Vec<u8>)
        requires
            self.valid(),
        ensures
            res@ == self.bytes(),
            res@.len() == 65,
    {
        let mut out = slice_to_vec(self.r.as_slice());
        let mut tail = slice_to_vec(self.s.as_slice());
        out.append(&mut tail);
        out.push(#[verifier::truncate] (self.v as u8));
        out
    }

    /// Parses a signature from its hex text form, with or without a leading
    /// `0x`. Bad hex is rejected with `DecodingError`; hex of any length
    /// other than 65 bytes is rejected with `InvalidLength`.
    pub fn from_str(s: &str) -> (res: Result<Signature, SignatureError>)
        ensures
            ({
                let h = strip_hex_prefix(s.spec_bytes());
                &&& (hex_valid(h) && h.len() == 130 ==> (res matches Ok(sig) && parses_to(
                    spec_hex_decode(h),
                    sig,
                ) && sig.valid()))
                &&& (hex_valid(h) && h.len() != 130 ==> res == Err::<Signature, SignatureError>(
                    SignatureError::InvalidLength((h.len() / 2) as usize),
                ))
                &&& (!hex_valid(h) ==> res == Err::<Signature, SignatureError>(
                    SignatureError::DecodingError(spec_hex_error(h)),
                ))
            }),
    {
        let b = s.as_bytes();
        let stripped: &[u8] = if b.len() >= 2 && *vstd::slice::slice_index_get(b, 0) == 48
            && *vstd::slice::slice_index_get(b, 1) == 120 {
            slice_subrange(b, 2, b.len())
        } else {
            b
        };
        match hex_decode(stripped) {
            Ok(decoded) => Self::from_bytes(decoded.as_slice()),
            Err(e) => Err(SignatureError::DecodingError(e)),
        }
    }

    /// The hex text form of the 65-byte wire encoding: a `0x` prefix
    /// followed by its lowercase hex digits.
    pub fn to_hex(&self) -> (res: String)
        requires
            self.valid(),
        ensures
            res@ == seq!['0', 'x'] + spec_hex_encode(self.bytes()).map_values(|x: u8| x as char),
    {
        let bytes = self.to_vec();
        let digits = hex_encode(bytes.as_slice());
        let mut out = String::from_str("0x");
        proof {
            reveal_strlit("0x");
            assert(out@ =~= seq!['0', 'x']);
        }
        out.append(digits.as_str());
        out
    }
}

/// Byte round trip: a signature whose `v` is in Electrum notation (27 or 28)
/// parses back, field for field, from its own 65-byte wire form.
pub proof fn lemma_bytes_round_trip(sig: Signature)
    requires
        sig.valid(),
        sig.v == 27 || sig.v == 28,
    ensures
        parses_to(sig.bytes(), sig),
{
    assert(sig.bytes().subrange(0, 32) =~= sig.r@);
    assert(sig.bytes().subrange(32, 64) =~= sig.s@);
    assert(sig.bytes()[64] == sig.v as u8);
}

/// Prefix irrelevance: a hex text form parses the same with and without the
/// `0x` prefix. On hex digits the prefix strip is the identity (`x` is not a
/// hex digit), and prepending `0x` strips back to the same digits.
pub proof fn lemma_prefix_irrelevant(h: Seq<u8>)
    requires
        hex_valid(h),
    ensures
        strip_hex_prefix(h) == h,
        strip_hex_prefix(seq![48u8, 120u8] + h) == h,
{
    if h.len() >= 2 {
        assert(is_hex_digit(h[1]));
    }
    assert((seq![48u8, 120u8] + h).skip(2) =~= h);
}

/// Hex round trip: the hex form of a signature's 65 wire bytes — whether or
/// not a `0x` prefix is put in front of it — is valid hex and decodes back to
/// exactly those bytes, so both text forms parse to the same signature.
pub proof fn lemma_hex_form_round_trip(sig: Signature)
    requires
        sig.valid(),
    ensures
        ({
            let h = spec_hex_encode(sig.bytes());
            &&& strip_hex_prefix(h) == h
            &&& strip_hex_prefix(seq![48u8, 120u8] + h) == h
            &&& hex_valid(h)
            &&& h.len() == 130
            &&& spec_hex_decode(h) == sig.bytes()
        }),
{
    lemma_hex_round_trip(sig.bytes());
    lemma_prefix_irrelevant(spec_hex_encode(sig.bytes()));
}

/// True when the bytes of the two slices are equal.
pub fn bytes_eq(a: &[u8], b: &[u8]) -> (res: bool)
    ensures
        res == (a@ == b@),
{
    if a.len() != b.len() {
        assert(a@ != b@);
        return false;
    }
    let n = a.len();
    let mut i: usize = 0;
    while i < n
        invariant
            n == a@.len() == b@.len(),
            0 <= i <= n,
            forall|j: int| 0 <= j < i ==> a@[j] == b@[j],
        decreases n - i,
    {
        if *vstd::slice::slice_index_get(a, i) != *vstd::slice::slice_index_get(b, i) {
            assert(a@ != b@);
            return false;
        }
        i += 1;
    }
    assert(a@ =~= b@);
    true
}

impl PartialEq for Signature {
    /// Structural equality: the three fields are equal.
    fn eq(&self, other: &Signature) -> (res: bool) {
        bytes_eq(self.r.as_slice(), other.r.as_slice()) && bytes_eq(
            self.s.as_slice(),
            other.s.as_slice(),
        ) && self.v == other.v
    }
}

impl vstd::std_specs::cmp::PartialEqSpecImpl for Signature {
    open spec fn obeys_eq_spec() -> bool {
        true
    }

    open spec fn eq_spec(&self, other: &Signature) -> bool {
        &&& self.r@ == other.r@
        &&& self.s@ == other.s@
        &&& self.v == other.v
    }
}

impl PartialEq for RecoveryMessage {
    /// Structural equality: same variant, equal payload bytes.
    fn eq(&self, other: &RecoveryMessage) -> (res: bool) {
        match (self, other) {
            (RecoveryMessage::Data(a), RecoveryMessage::Data(b)) => bytes_eq(
                a.as_slice(),
                b.as_slice(),
            ),
            (RecoveryMessage::Hash(a), RecoveryMessage::Hash(b)) => bytes_eq(
                a.as_slice(),
                b.as_slice(),
            ),
            _ => false,
        }
    }
}

impl vstd::std_specs::cmp::PartialEqSpecImpl for RecoveryMessage {
    open spec fn obeys_eq_spec() -> bool {
        true
    }

    open spec fn eq_spec(&self, other: &RecoveryMessage) -> bool {
        match (self, other) {
            (RecoveryMessage::Data(a), RecoveryMessage::Data(b)) => a@ == b@,
            (RecoveryMessage::Hash(a), RecoveryMessage::Hash(b)) => a@ == b@,
            _ => false,
        }
    }
}

impl RecoveryMessage {
    /// The structural invariant: a precomputed digest is 32 bytes.
    pub open spec fn valid(&self) -> bool {
        match self {
            RecoveryMessage::Data(_) => true,
            RecoveryMessage::Hash(h) => h@.len() == 32,
        }
    }

    /// A message from raw bytes, pre-hashed at recovery time. Total.
    pub fn from_data(data: Vec<u8>) -> (res: Self)
        ensures
            res == RecoveryMessage::Data(data),
            res.valid(),
    {
        RecoveryMessage::Data(data)
    }

    /// A message from text, taken as its UTF-8 bytes. Total.
    pub fn from_text(text: &str) -> (res: Self)
        ensures
            res matches RecoveryMessage::Data(d) && d@ == text.spec_bytes(),
            res.valid(),
    {
        RecoveryMessage::Data(slice_to_vec(text.as_bytes()))
    }

    /// A message from a precomputed 32-byte digest, used as-is. Total.
    pub fn from_hash(hash: &[u8; 32]) -> (res: Self)
        ensures
            res matches RecoveryMessage::Hash(h) && h@ == hash@,
            res.valid(),
    {
        RecoveryMessage::Hash(slice_to_vec(hash.as_slice()))
    }
}

} // verus!
