//! The recovery and verification engine: turns a signature and a message
//! into the 20-byte address that produced the signature, and checks a
//! signature against a claimed address.

use vstd::prelude::*;
use vstd::slice::{slice_subrange, slice_to_vec};

use crate::errors::SignatureError;
use crate::ext::{hash_message, keccak256, keccak_of, prehash_of, recover_verifying_key,
    recovered_key, recovery_ok};
use crate::normalize::{normalize_recovery_id, spec_normalize};
use crate::signature::{bytes_eq, RecoveryMessage, Signature};

verus! {

/// The 32-byte digest a message resolves to: the personal-sign pre-hash of
/// raw bytes, or a precomputed hash taken as-is.
pub open spec fn message_digest(msg: RecoveryMessage) -> Seq<u8> {
    match msg {
        RecoveryMessage::Data(data) => prehash_of(data@),
        RecoveryMessage::Hash(hash) => hash@,
    }
}

/// The address of a SEC1 uncompressed public key: the last 20 bytes of the
/// Keccak-256 digest of the key with its leading format byte discarded.
pub open spec fn address_of_key(key: Seq<u8>) -> Seq<u8> {
    keccak_of(key.skip(1)).skip(12)
}

/// Derives the address from an encoded public key. The key must be the
/// 65-byte SEC1 uncompressed form, whose leading format byte is 4; the check
/// is always performed, and a key in any other form is rejected with
/// `RecoveryError` rather than trusted.
pub fn address_from_encoded_key(key: &[u8]) -> (res: Result<Vec<u8>, SignatureError>)
    ensures
        key@.len() == 65 && key@[0] == 4 ==> res is Ok && res->Ok_0@ == address_of_key(key@)
            && res->Ok_0@.len() == 20,
        !(key@.len() == 65 && key@[0] == 4) ==> res == Err::<Vec<u8>, SignatureError>(
            SignatureError::RecoveryError,
        ),
{
    if key.len() != 65 || *vstd::slice::slice_index_get(key, 0) != 4 {
        return Err(SignatureError::RecoveryError);
    }
    let tail = slice_subrange(key, 1, 65);
    assert(tail@ =~= key@.skip(1));
    let hash = keccak256(tail);
    let addr = slice_to_vec(slice_subrange(hash.as_slice(), 12, 32));
    assert(addr@ =~= keccak_of(key@.skip(1)).skip(12));
    Ok(addr)
}

impl Signature {
    /// The public key that curve recovery reconstructs for this signature
    /// over the message, from `r`, `s`, the normalized recovery id, and the
    /// message's digest.
    pub open spec fn spec_recovered_key(self, msg: RecoveryMessage) -> Seq<u8> {
        recovered_key(self.r@, self.s@, spec_normalize(self.v), message_digest(msg))
    }

    /// The address recovery derives for this signature over the message:
    /// the address of the recovered public key.
    pub open spec fn recovered_address(self, msg: RecoveryMessage) -> Seq<u8> {
        address_of_key(self.spec_recovered_key(msg))
    }

    /// True when address recovery succeeds for this signature over the
    /// message: `v` normalizes to a recovery bit, the curve recovers a public
    /// key, and that key is in the expected uncompressed form.
    pub open spec fn recovery_succeeds(self, msg: RecoveryMessage) -> bool {
        &&& spec_normalize(self.v) <= 1
        &&& recovery_ok(self.r@, self.s@, spec_normalize(self.v), message_digest(msg))
        &&& self.spec_recovered_key(msg)[0] == 4
    }

    /// The canonical recovery id of this signature's `v`: 0 or 1 when `v` is
    /// in a recognized encoding, and `RecoveryError` otherwise.
    pub fn recovery_id(&self) -> (res: Result<u8, SignatureError>)
        ensures
            spec_normalize(self.v) <= 1 ==> res == Ok::<u8, SignatureError>(
                spec_normalize(self.v),
            ),
            spec_normalize(self.v) > 1 ==> res == Err::<u8, SignatureError>(
                SignatureError::RecoveryError,
            ),
    {
        let nid = normalize_recovery_id(self.v);
        if nid <= 1 {
            Ok(nid)
        } else {
            Err(SignatureError::RecoveryError)
        }
    }

    /// Recovers the address which was used to sign the given message.
    ///
    /// The message is resolved to a digest (pre-hashing raw bytes under the
    /// personal-sign convention), `v` is normalized, and the curve library
    /// reconstructs the public key, whose Keccak-256 hash yields the address.
    /// Succeeds exactly when `v` normalizes, the curve recovers a key, and
    /// the key is in uncompressed form. A `v` that normalizes to the invalid
    /// sentinel — and a recovered key not in uncompressed form — fail with
    /// `RecoveryError`; a curve-library rejection fails with `K256Error`.
    pub fn recover(&self, message: &RecoveryMessage) -> (res: Result<Vec<u8>, SignatureError>)
        requires
            self.valid(),
            message.valid(),
        ensures
            res is Ok <==> self.recovery_succeeds(*message),
            res is Ok ==> res->Ok_0@ == self.recovered_address(*message) && res->Ok_0@.len() == 20
                && self.spec_recovered_key(*message).len() == 65,
            spec_normalize(self.v) > 1 ==> res == Err::<Vec<u8>, SignatureError>(
                SignatureError::RecoveryError,
            ),
            spec_normalize(self.v) <= 1 && !recovery_ok(
                self.r@,
                self.s@,
                spec_normalize(self.v),
                message_digest(*message),
            ) ==> res == Err::<Vec<u8>, SignatureError>(SignatureError::K256Error),
            spec_normalize(self.v) <= 1 && recovery_ok(
                self.r@,
                self.s@,
                spec_normalize(self.v),
                message_digest(*message),
            ) && self.spec_recovered_key(*message)[0] != 4 ==> res == Err::<
                Vec<u8>,
                SignatureError,
            >(SignatureError::RecoveryError),
    {
        let digest: Vec<u8> = match message {
            RecoveryMessage::Data(data) => hash_message(data.as_slice()),
            RecoveryMessage::Hash(hash) => slice_to_vec(hash.as_slice()),
        };
        let nid = normalize_recovery_id(self.v);
        if nid > 1 {
            return Err(SignatureError::RecoveryError);
        }
        let key = match recover_verifying_key(
            self.r.as_slice(),
            self.s.as_slice(),
            nid,
            digest.as_slice(),
        ) {
            Ok(key) => key,
            Err(e) => return Err(e),
        };
        address_from_encoded_key(key.as_slice())
    }

    /// Verifies that the signature on `message` was produced by `address`
    /// (20 bytes). Succeeds exactly when recovery succeeds and yields that
    /// address; on a mismatch the error carries the expected address, then
    /// the recovered one; every error of recovery passes through unchanged.
    pub fn verify(&self, message: &RecoveryMessage, address: &[u8]) -> (res: Result<
        (),
        SignatureError,
    >)
        requires
            self.valid(),
            message.valid(),
            address@.len() == 20,
        ensures
            res is Ok <==> self.recovery_succeeds(*message) && address@ == self.recovered_address(
                *message,
            ),
            self.recovery_succeeds(*message) && address@ != self.recovered_address(*message) ==> (
            res matches Err(SignatureError::VerificationError(expected, got)) && expected@
                == address@ && got@ == self.recovered_address(*message)),
            res matches Err(SignatureError::VerificationError(expected, got)) ==> expected@
                == address@ && got@ == self.recovered_address(*message) && got@ != address@,
            spec_normalize(self.v) > 1 ==> res == Err::<(), SignatureError>(
                SignatureError::RecoveryError,
            ),
            spec_normalize(self.v) <= 1 && !recovery_ok(
                self.r@,
                self.s@,
                spec_normalize(self.v),
                message_digest(*message),
            ) ==> res == Err::<(), SignatureError>(SignatureError::K256Error),
            spec_normalize(self.v) <= 1 && recovery_ok(
                self.r@,
                self.s@,
                spec_normalize(self.v),
                message_digest(*message),
            ) && self.spec_recovered_key(*message)[0] != 4 ==> res == Err::<(), SignatureError>(
                SignatureError::RecoveryError,
            ),
    {
        let recovered = match self.recover(message) {
            Ok(addr) => addr,
            Err(e) => return Err(e),
        };
        if bytes_eq(recovered.as_slice(), address) {
            Ok(())
        } else {
            Err(SignatureError::VerificationError(slice_to_vec(address), recovered))
        }
    }
}

} // verus!
