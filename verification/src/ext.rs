//! Trusted wrappers around the external cryptographic collaborators: the
//! Keccak-256 hash, the personal-sign pre-hash, and elliptic-curve public-key
//! recovery. Each result is a deterministic function of the arguments alone,
//! so it is given a name that the callers' contracts speak of.

use vstd::prelude::*;

use crate::errors::SignatureError;

verus! {

/// The Keccak-256 digest of a byte sequence: 32 bytes.
pub uninterp spec fn keccak_of(data: Seq<u8>) -> Seq<u8>;

/// The personal-sign pre-hash of a byte sequence: the Keccak-256 digest of
/// the message framed with a fixed prefix literal and its decimal byte
/// length; 32 bytes.
pub uninterp spec fn prehash_of(data: Seq<u8>) -> Seq<u8>;

/// The public key that elliptic-curve recovery reconstructs from the scalars
/// `r` and `s` (32 bytes each, big-endian), a recovery id of 0 or 1, and a
/// 32-byte digest, in SEC1 uncompressed form: 65 bytes, when recovery
/// succeeds on those arguments.
pub uninterp spec fn recovered_key(r: Seq<u8>, s: Seq<u8>, recovery_id: u8, digest: Seq<u8>) -> Seq<
    u8,
>;

/// True when elliptic-curve recovery succeeds on the given scalars, recovery
/// id and digest. The whole computation is deterministic, so success — like
/// the recovered key itself — is a function of the arguments alone.
pub uninterp spec fn recovery_ok(
    r: Seq<u8>,
    s: Seq<u8>,
    recovery_id: u8,
    digest: Seq<u8>,
) -> bool;

/// Relies on `ethers_core::utils::keccak256`: the standard Keccak-256 hash,
/// a 32-byte digest depending on the input bytes alone.
#[verifier::external_body]
pub(crate) fn keccak256(data: &[u8]) -> (res: Vec<u8>)
    ensures
        res@ == keccak_of(data@),
        res@.len() == 32,
{
    ethers_core::utils::keccak256(data).to_vec()
}

/// Relies on `ethers_core::utils::hash_message`: the EIP-191 personal-sign
/// pre-hash, a 32-byte digest depending on the message bytes alone.
#[verifier::external_body]
pub(crate) fn hash_message(data: &[u8]) -> (res: Vec<u8>)
    ensures
        res@ == prehash_of(data@),
        res@.len() == 32,
{
    ethers_core::utils::hash_message(data).0.to_vec()
}

/// Relies on the `k256` ECDSA implementation: `Signature::from_scalars`
/// rebuilds the signature from the two 32-byte big-endian scalars and fails
/// on an out-of-range or zero scalar; `RecoveryId::from_byte` accepts 0 and
/// 1; `VerifyingKey::recover_from_prehash` recovers the public key over the
/// digest and fails when no valid curve point matches; `to_encoded_point`
/// with compression off yields the 65-byte SEC1 uncompressed encoding. The
/// whole computation depends on the arguments alone — success as much as the
/// key, so both carry a name; every failure is reported as `K256Error`.
#[verifier::external_body]
pub(crate) fn recover_verifying_key(rb: &[u8], sb: &[u8], recovery_id: u8, digest: &[u8]) -> (res:
    Result<Vec<u8>, SignatureError>)
    requires
        rb@.len() == 32,
        sb@.len() == 32,
        recovery_id <= 1,
        digest@.len() == 32,
    ensures
        res is Ok <==> recovery_ok(rb@, sb@, recovery_id, digest@),
        res is Ok ==> res->Ok_0@ == recovered_key(rb@, sb@, recovery_id, digest@)
            && res->Ok_0@.len() == 65,
        res is Err ==> res->Err_0 == SignatureError::K256Error,
{
    let mut ra = [0u8; 32];
    let mut sa = [0u8; 32];
    ra.copy_from_slice(rb);
    sa.copy_from_slice(sb);
    let sig = k256::ecdsa::Signature::from_scalars(ra, sa).map_err(|_| SignatureError::K256Error)?;
    let rid = k256::ecdsa::RecoveryId::from_byte(recovery_id).ok_or(SignatureError::K256Error)?;
    let key = k256::ecdsa::VerifyingKey::recover_from_prehash(digest, &sig, rid)
        .map_err(|_| SignatureError::K256Error)?;
    Ok(key.to_encoded_point(false).as_bytes().to_vec())
}

} // verus!
