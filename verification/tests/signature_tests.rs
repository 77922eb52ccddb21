use nomad_signature::errors::{HexError, SignatureError};
use nomad_signature::normalize::normalize_recovery_id;
use nomad_signature::signature::{RecoveryMessage, Signature};

const WEB3_SIG_HEX: &str = "b91467e570a6466aa9e9876cbcd013baba02900b8979d43fe208a4a4f339f5fd6007e74cd82e037b800186422fc2da167c747ef045e5d18a5f5d4300f8e1a0291c";
const WEB3_ADDRESS_HEX: &str = "2c7536E3605D9C16a7a3D7b1898e529396a65c23";

fn web3_signature() -> Signature {
    Signature::from_str(WEB3_SIG_HEX).expect("could not parse signature")
}

fn web3_address() -> Vec<u8> {
    hex::decode(WEB3_ADDRESS_HEX).unwrap()
}

#[test]
fn recover_web3_signature() {
    // test vector taken from:
    // https://web3js.readthedocs.io/en/v1.2.2/web3-eth-accounts.html#sign
    let signature = Signature::from_str(WEB3_SIG_HEX).expect("could not parse signature");
    assert_eq!(
        signature
            .recover(&RecoveryMessage::from_text("Some data"))
            .unwrap(),
        web3_address()
    );
}

#[test]
fn signature_from_str() {
    let s1 = Signature::from_str(
        "0xaa231fbe0ed2b5418e6ba7c19bee2522852955ec50996c02a2fe3e71d30ddaf1645baf4823fea7cb4fcc7150842493847cfb6a6d63ab93e8ee928ee3f61f503500"
    ).expect("could not parse 0x-prefixed signature");

    let s2 = Signature::from_str(
        "aa231fbe0ed2b5418e6ba7c19bee2522852955ec50996c02a2fe3e71d30ddaf1645baf4823fea7cb4fcc7150842493847cfb6a6d63ab93e8ee928ee3f61f503500"
    ).expect("could not parse non-prefixed signature");

    assert_eq!(s1, s2);
}

#[test]
fn normalize_recognized_encodings() {
    assert_eq!(normalize_recovery_id(0), 0);
    assert_eq!(normalize_recovery_id(1), 1);
    assert_eq!(normalize_recovery_id(27), 0);
    assert_eq!(normalize_recovery_id(28), 1);
    assert_eq!(normalize_recovery_id(35), 0);
    assert_eq!(normalize_recovery_id(36), 1);
    assert_eq!(normalize_recovery_id(37), 0);
    assert_eq!(normalize_recovery_id(1_000_000_035), 0);
    assert_eq!(normalize_recovery_id(1_000_000_036), 1);
}

#[test]
fn normalize_unrecognized_encodings() {
    assert_eq!(normalize_recovery_id(2), 4);
    assert_eq!(normalize_recovery_id(3), 4);
    assert_eq!(normalize_recovery_id(26), 4);
    assert_eq!(normalize_recovery_id(29), 4);
    assert_eq!(normalize_recovery_id(34), 4);
}

#[test]
fn byte_parsing_rejects_wrong_lengths() {
    assert_eq!(
        Signature::from_bytes(&[0u8; 64]).unwrap_err(),
        SignatureError::InvalidLength(64)
    );
    assert_eq!(
        Signature::from_bytes(&[0u8; 66]).unwrap_err(),
        SignatureError::InvalidLength(66)
    );
    assert_eq!(
        Signature::from_bytes(&[]).unwrap_err(),
        SignatureError::InvalidLength(0)
    );
    assert!(Signature::from_bytes(&[0u8; 65]).is_ok());
}

#[test]
fn byte_round_trip() {
    let mut bytes = [0u8; 65];
    for (i, b) in bytes.iter_mut().enumerate() {
        *b = (i as u8).wrapping_mul(7).wrapping_add(3);
    }
    bytes[64] = 27;
    let sig = Signature::from_bytes(&bytes).unwrap();
    let serialized = sig.to_vec();
    assert_eq!(serialized.as_slice(), &bytes[..]);
    let reparsed = Signature::from_bytes(&serialized).unwrap();
    assert_eq!(sig, reparsed);
}

#[test]
fn serialization_truncates_high_v_to_low_byte() {
    // Serializing a non-normalized `v` (e.g. a replay-protected encoding)
    // keeps only its low byte; the chain id is deliberately not preserved.
    let sig = Signature {
        r: vec![0xabu8; 32],
        s: vec![0xcdu8; 32],
        v: 0x11c,
    };
    let bytes = sig.to_vec();
    assert_eq!(bytes.len(), 65);
    assert_eq!(bytes[64], 0x1c);
}

#[test]
fn hex_round_trip() {
    let sig = web3_signature();
    let hex_form = sig.to_hex();
    assert_eq!(hex_form, format!("0x{}", WEB3_SIG_HEX));
    let prefixed = Signature::from_str(&hex_form).unwrap();
    let unprefixed = Signature::from_str(WEB3_SIG_HEX).unwrap();
    assert_eq!(unprefixed, prefixed);
    assert_eq!(sig, prefixed);
}

#[test]
fn hex_parsing_rejects_bad_input() {
    assert_eq!(
        Signature::from_str("zz").unwrap_err(),
        SignatureError::DecodingError(HexError::InvalidHexCharacter { c: 'z', index: 0 })
    );
    assert_eq!(
        Signature::from_str("abc").unwrap_err(),
        SignatureError::DecodingError(HexError::OddLength)
    );
    // valid hex of the wrong byte length
    assert_eq!(
        Signature::from_str("0xabcd").unwrap_err(),
        SignatureError::InvalidLength(2)
    );
}

#[test]
fn recover_from_precomputed_hash() {
    let sig = web3_signature();
    let digest = ethers_core::utils::hash_message("Some data");
    let message = RecoveryMessage::from_hash(&digest.0);
    assert_eq!(sig.recover(&message).unwrap(), web3_address());
}

#[test]
fn verify_with_correct_address() {
    let sig = web3_signature();
    let address = web3_address();
    assert!(sig
        .verify(&RecoveryMessage::from_text("Some data"), &address)
        .is_ok());
}

#[test]
fn verify_with_wrong_address() {
    let sig = web3_signature();
    let wrong = vec![0x11u8; 20];
    let err = sig
        .verify(&RecoveryMessage::from_text("Some data"), &wrong)
        .unwrap_err();
    match err {
        SignatureError::VerificationError(expected, got) => {
            assert_eq!(expected, wrong);
            assert_eq!(got, web3_address());
        }
        other => panic!("expected a verification error, got {:?}", other),
    }
}

#[test]
fn recover_with_invalid_recovery_id() {
    let mut bytes = hex::decode(WEB3_SIG_HEX).unwrap();
    bytes[64] = 2;
    let sig = Signature::from_bytes(&bytes).unwrap();
    let err = sig
        .recover(&RecoveryMessage::from_text("Some data"))
        .unwrap_err();
    assert_eq!(err, SignatureError::RecoveryError);
}

#[test]
fn recover_with_zero_scalars() {
    let mut bytes = [0u8; 65];
    bytes[64] = 27;
    let sig = Signature::from_bytes(&bytes).unwrap();
    let err = sig
        .recover(&RecoveryMessage::from_text("Some data"))
        .unwrap_err();
    assert_eq!(err, SignatureError::K256Error);
}

#[test]
fn recovery_id_of_recognized_and_unrecognized_v() {
    let mut bytes = [1u8; 65];
    bytes[64] = 28;
    let sig = Signature::from_bytes(&bytes).unwrap();
    assert_eq!(sig.recovery_id().unwrap(), 1);

    bytes[64] = 29;
    let sig = Signature::from_bytes(&bytes).unwrap();
    assert_eq!(sig.recovery_id().unwrap_err(), SignatureError::RecoveryError);
}

#[test]
fn data_and_hash_messages_agree() {
    let sig = web3_signature();
    let by_data = sig
        .recover(&RecoveryMessage::from_data(b"Some data".to_vec()))
        .unwrap();
    let digest = ethers_core::utils::hash_message("Some data");
    let by_hash = sig.recover(&RecoveryMessage::from_hash(&digest.0)).unwrap();
    assert_eq!(by_data, by_hash);
}
