use vstd::prelude::*;
use crate::bytes::push_range;
use crate::error::TronError;
use crate::hexcodec::{hex_bytes, hex_decode, hex_encode, hex_text, is_hex_text, trim_hex_prefix, without_hex_prefix};
use crate::keys::{is_valid_secret_key, uncompressed_public_key};

verus! {

/// The 64 bytes `r ‖ s` of the RFC 6979 recoverable signature of a digest
/// under a private key.
pub uninterp spec fn compact_signature_of(digest: Seq<u8>, key: Seq<u8>) -> Seq<u8>;

/// The recovery id of the RFC 6979 recoverable signature of a digest under a
/// private key.
pub uninterp spec fn recovery_id_of(digest: Seq<u8>, key: Seq<u8>) -> int;

/// Relies on `secp256k1::Message::from_digest_slice` (exactly 32 bytes),
/// `SecretKey::from_slice` (exactly the valid private keys),
/// `Secp256k1::sign_ecdsa_recoverable`, and
/// `RecoverableSignature::serialize_compact` with `RecoveryId::to_i32`, which
/// yield the 64 bytes `r ‖ s` and the recovery id. The nonce is the
/// RFC 6979 one with no extra data, so the result depends on the digest and
/// the key alone; the recovery id is libsecp256k1's two-bit id.
#[verifier::external_body]
fn sign_recoverable(digest: &[u8], key: &[u8]) -> (r: Option<(Vec<u8>, i32)>)
    ensures
        r is Some <==> (digest@.len() == 32 && is_valid_secret_key(key@)),
        r is Some ==> r->Some_0.0@ == compact_signature_of(digest@, key@),
        r is Some ==> r->Some_0.1 as int == recovery_id_of(digest@, key@),
        r is Some ==> r->Some_0.0@.len() == 64,
        r is Some ==> 0 <= r->Some_0.1 <= 3,
{
    let secp = secp256k1::Secp256k1::new();
    match (secp256k1::Message::from_digest_slice(digest), secp256k1::SecretKey::from_slice(key)) {
        (Ok(msg), Ok(sk)) => {
            let (id, bytes) = secp.sign_ecdsa_recoverable(&msg, &sk).serialize_compact();
            Some((bytes.to_vec(), id.to_i32()))
        },
        _ => None,
    }
}

/// A recovery id that fits the one-byte `v` of a signature.
pub open spec fn recovery_id_ok(id: int) -> bool {
    0 <= id <= 3
}

/// The error that signing `digest` with `key` fails with, if any: the key is
/// checked first, then the digest's length.
pub open spec fn sign_error(digest: Seq<u8>, key: Seq<u8>) -> Option<TronError> {
    if !is_valid_secret_key(key) {
        Some(TronError::InvalidKey)
    } else if digest.len() != 32 {
        Some(TronError::InvalidDigest)
    } else {
        None
    }
}

/// Serializes a compact signature and its recovery id as `r ‖ s ‖ v`,
/// refusing a recovery id outside `0..=3` instead of truncating it.
pub fn signature_bytes(compact: &[u8], recovery_id: i32) -> (r: Result<Vec<u8>, TronError>)
    requires
        compact@.len() == 64,
    ensures
        match r {
            Ok(sig) => recovery_id_ok(recovery_id as int) && sig@ == compact@.push(recovery_id as u8),
            Err(e) => !recovery_id_ok(recovery_id as int) && e == TronError::InvalidRecoveryId,
        },
{
    if recovery_id < 0 || recovery_id > 3 {
        return Err(TronError::InvalidRecoveryId);
    }
    let mut sig: Vec<u8> = Vec::new();
    push_range(&mut sig, compact, 0, 64);
    sig.push(recovery_id as u8);
    assert(compact@.subrange(0, 64) =~= compact@);
    Ok(sig)
}

/// The 65-byte signature `r ‖ s ‖ v` of a digest under a private key.
pub open spec fn signature_of(digest: Seq<u8>, key: Seq<u8>) -> Seq<u8> {
    compact_signature_of(digest, key).push(recovery_id_of(digest, key) as u8)
}

/// Produces the 65-byte recoverable signature `r ‖ s ‖ v` of a 32-byte
/// digest, signed as it is, without further hashing.
pub fn sign_digest(digest: &[u8], key: &[u8]) -> (r: Result<Vec<u8>, TronError>)
    ensures
        match sign_error(digest@, key@) {
            Some(e) => r == Err::<Vec<u8>, TronError>(e),
            None => r matches Ok(sig) && sig@ == signature_of(digest@, key@) && sig@.len() == 65
                && recovery_id_ok(sig@[64] as int),
        },
{
    // The key is validated the way derivation validates it, before the
    // digest's length.
    if uncompressed_public_key(key).is_none() {
        return Err(TronError::InvalidKey);
    }
    if digest.len() != 32 {
        return Err(TronError::InvalidDigest);
    }
    match sign_recoverable(digest, key) {
        Some((compact, id)) => signature_bytes(compact.as_slice(), id),
        None => Err(TronError::InvalidKey),
    }
}

/// The hex text of the signature of a transaction id (hex) with a private key
/// (hex, with or without a leading `0x`).
pub fn sign_transaction(tx_id: &str, private_key: &str) -> (r: Result<String, TronError>)
    ensures
        !is_hex_text(without_hex_prefix(private_key@)) || !is_hex_text(tx_id@) ==> r
            == Err::<String, TronError>(TronError::Format),
        is_hex_text(without_hex_prefix(private_key@)) && is_hex_text(tx_id@) ==> match sign_error(
            hex_bytes(tx_id@),
            hex_bytes(without_hex_prefix(private_key@)),
        ) {
            Some(e) => r == Err::<String, TronError>(e),
            None => r matches Ok(h) && h@ == hex_text(
                signature_of(hex_bytes(tx_id@), hex_bytes(without_hex_prefix(private_key@))),
            ) && h@.len() == 130,
        },
{
    let key_hex = trim_hex_prefix(private_key);
    let key_bytes = match hex_decode(key_hex) {
        Some(b) => b,
        None => return Err(TronError::Format),
    };
    let digest = match hex_decode(tx_id) {
        Some(b) => b,
        None => return Err(TronError::Format),
    };
    match sign_digest(digest.as_slice(), key_bytes.as_slice()) {
        Ok(sig) => {
            let h = hex_encode(sig.as_slice());
            Ok(h)
        },
        Err(e) => Err(e),
    }
}

} // verus!
