//! Recovery and verification of Ethereum-style ECDSA (secp256k1) signatures.
//!
//! A [`Signature`](signature::Signature) is the triple `(r, s, v)` with its
//! canonical 65-byte wire encoding and hex textual form. The library
//! normalizes the historical encodings of the recovery indicator `v`,
//! recovers the 20-byte address that produced a signature over a message or
//! digest, and verifies a signature against a claimed address.

pub mod errors;
pub mod ext;
pub mod hexcodec;
pub mod normalize;
pub mod recover;
pub mod signature;
