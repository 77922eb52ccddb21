//! The failure vocabulary shared by parsing, recovery and verification.

use vstd::prelude::*;

verus! {

/// Why a hex string could not be decoded.
#[derive(Debug, Clone, PartialEq, Eq)]
pub enum HexError {
    /// A character outside `0-9a-fA-F` at byte position `index`.
    InvalidHexCharacter { c: char, index: usize },
    /// The input held an odd number of hex digits.
    OddLength,
    /// The input did not match the expected length.
    InvalidStringLength,
}

/// An error involving a signature.
#[derive(Debug, Clone, PartialEq, Eq)]
pub enum SignatureError {
    /// A byte-form input whose length is not 65; carries the length seen.
    InvalidLength(usize),
    /// A hex input that could not be decoded.
    DecodingError(HexError),
    /// The recovered address did not match the expected one; carries the
    /// expected address, then the recovered one.
    VerificationError(Vec<u8>, Vec<u8>),
    /// The curve library rejected the scalars, the recovery id or the digest.
    K256Error,
    /// The public key could not be recovered: the recovery id normalized to
    /// the invalid sentinel, or the recovered key was not in the expected
    /// uncompressed form.
    RecoveryError,
}

} // verus!
