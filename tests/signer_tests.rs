use secp256k1::ecdsa::{RecoverableSignature, RecoveryId};
use secp256k1::{Message, PublicKey, Secp256k1, SecretKey};
use tron_utils::error::TronError;
use tron_utils::message::{decode_hex_message, get_contract_abi, message_or_raw};
use tron_utils::signer::{sign_digest, sign_transaction, signature_bytes};

fn recovers(sig: &[u8], digest: &[u8; 32], key: &[u8]) -> bool {
    let secp = Secp256k1::new();
    let id = RecoveryId::from_i32(sig[64] as i32).unwrap();
    let rsig = RecoverableSignature::from_compact(&sig[..64], id).unwrap();
    let msg = Message::from_digest_slice(digest).unwrap();
    let expected = PublicKey::from_secret_key(&secp, &SecretKey::from_slice(key).unwrap());
    secp.recover_ecdsa(&msg, &rsig).unwrap() == expected
}

#[test]
fn signatures_recover_public_key() {
    let key = [0x11u8; 32];
    let digest = [0x22u8; 32];
    let a = sign_digest(&digest, &key).unwrap();
    let b = sign_digest(&digest, &key).unwrap();
    for sig in [&a, &b] {
        assert_eq!(sig.len(), 65);
        assert!(sig[64] <= 3);
        assert!(recovers(sig, &digest, &key));
    }
}

#[test]
fn sign_transaction_hex() {
    let key = format!("0x{}", "11".repeat(32));
    let tx = "22".repeat(32);
    let h = sign_transaction(&tx, &key).unwrap();
    assert_eq!(h.len(), 130);
    let sig = hex::decode(&h).unwrap();
    assert!(recovers(&sig, &[0x22u8; 32], &[0x11u8; 32]));
}

#[test]
fn sign_errors() {
    assert_eq!(sign_digest(&[1u8; 32], &[0u8; 32]), Err(TronError::InvalidKey));
    assert_eq!(sign_digest(&[1u8; 31], &[1u8; 32]), Err(TronError::InvalidDigest));
    assert_eq!(sign_digest(&[1u8; 33], &[0u8; 32]), Err(TronError::InvalidKey));
    assert_eq!(sign_transaction("zz", &"11".repeat(32)), Err(TronError::Format));
    assert_eq!(sign_transaction(&"22".repeat(32), "0xq"), Err(TronError::Format));
    assert_eq!(sign_transaction(&"22".repeat(31), &"11".repeat(32)), Err(TronError::InvalidDigest));
}

#[test]
fn recovery_id_range() {
    let compact = [7u8; 64];
    let sig = signature_bytes(&compact, 3).unwrap();
    assert_eq!(sig.len(), 65);
    assert_eq!(sig[64], 3);
    assert_eq!(signature_bytes(&compact, 4), Err(TronError::InvalidRecoveryId));
    assert_eq!(signature_bytes(&compact, -1), Err(TronError::InvalidRecoveryId));
}

#[test]
fn hex_messages() {
    assert_eq!(decode_hex_message("48656c6c6f"), "Hello");
    assert_eq!(decode_hex_message("not hex"), "not hex");
    assert_eq!(decode_hex_message("ff"), "ff");
    assert_eq!(message_or_raw(None, "abc"), "abc");
    assert_eq!(message_or_raw(Some("x".to_string()), "abc"), "x");
}

#[test]
fn contract_abi_is_json_list() {
    let abi = get_contract_abi();
    assert!(abi.starts_with("[{"));
    assert!(abi.contains("\"_threshold\""));
}

#[test]
fn signing_is_deterministic() {
    let key = [0x33u8; 32];
    let digest = [0x44u8; 32];
    assert_eq!(sign_digest(&digest, &key), sign_digest(&digest, &key));
    let h1 = sign_transaction(&"44".repeat(32), &"33".repeat(32)).unwrap();
    assert_eq!(h1, hex::encode(sign_digest(&digest, &key).unwrap()));
    assert!(h1.chars().all(|c| c.is_ascii_hexdigit() && !c.is_ascii_uppercase()));
}
