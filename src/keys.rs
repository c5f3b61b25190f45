use vstd::prelude::*;
use crate::bytes::push_range;
use crate::codec::{bs58_check_encode, check_encoded};
use crate::error::TronError;
use crate::hashing::{keccak256, keccak256_of};
use crate::hexcodec::{hex_bytes, hex_decode, is_hex_text, trim_hex_prefix, without_hex_prefix};

verus! {

/// The version byte that starts every mainnet account address.
pub const ADDRESS_PREFIX: u8 = 0x41;

/// The unsigned integer that a byte sequence stands for, most significant
/// byte first.
pub open spec fn be_value(s: Seq<u8>) -> nat
    decreases s.len(),
{
    if s.len() == 0 {
        0
    } else {
        be_value(s.drop_last()) * 256 + s.last() as nat
    }
}

/// The order of the secp256k1 group.
pub open spec fn curve_order() -> nat {
    0xFFFFFFFFFFFFFFFFFFFFFFFFFFFFFFFEBAAEDCE6AF48A03BBFD25E8CD0364141nat
}

/// A private key: 32 bytes that form a nonzero scalar below the group order.
pub open spec fn is_valid_secret_key(key: Seq<u8>) -> bool {
    key.len() == 32 && 0 < be_value(key) < curve_order()
}

/// The uncompressed public key (`0x04`, then X, then Y) of a private key.
pub uninterp spec fn public_key_of(key: Seq<u8>) -> Seq<u8>;

/// Relies on `secp256k1::SecretKey::from_slice`, which accepts exactly the
/// valid private keys, and on `SecretKey::public_key` with
/// `PublicKey::serialize_uncompressed`, which yield the 65-byte uncompressed
/// point.
#[verifier::external_body]
pub(crate) fn uncompressed_public_key(key: &[u8]) -> (r: Option<Vec<u8>>)
    ensures
        r is Some <==> is_valid_secret_key(key@),
        r is Some ==> r->Some_0@ == public_key_of(key@),
        r is Some ==> r->Some_0@.len() == 65,
{
    let secp = secp256k1::Secp256k1::new();
    match secp256k1::SecretKey::from_slice(key) {
        Ok(sk) => Some(sk.public_key(&secp).serialize_uncompressed().to_vec()),
        Err(_) => None,
    }
}

/// The binary address for a Keccak-256 digest of a public key: the version
/// byte followed by the last 20 bytes of the digest.
pub open spec fn address_of_hash(hash: Seq<u8>) -> Seq<u8> {
    seq![ADDRESS_PREFIX] + hash.subrange(12, 32)
}

/// The binary address of a valid private key.
pub open spec fn address_of_key(key: Seq<u8>) -> Seq<u8> {
    address_of_hash(keccak256_of(public_key_of(key).subrange(1, 65)))
}

/// Builds the 21-byte binary address from the Keccak-256 digest of a public
/// key.
pub fn account_address(hash: &[u8]) -> (r: Vec<u8>)
    requires
        hash@.len() == 32,
    ensures
        r@ == address_of_hash(hash@),
        r@.len() == 21,
{
    let mut out: Vec<u8> = Vec::new();
    out.push(ADDRESS_PREFIX);
    push_range(&mut out, hash, 12, 32);
    assert(out@ =~= address_of_hash(hash@));
    out
}

/// Derives the 21-byte binary address of a private key.
pub fn derive_address(key: &[u8]) -> (r: Result<Vec<u8>, TronError>)
    ensures
        match r {
            Ok(a) => is_valid_secret_key(key@) && a@ == address_of_key(key@) && a@.len() == 21,
            Err(e) => !is_valid_secret_key(key@) && e == TronError::InvalidKey,
        },
{
    let public = match uncompressed_public_key(key) {
        Some(p) => p,
        None => return Err(TronError::InvalidKey),
    };
    let mut point: Vec<u8> = Vec::new();
    push_range(&mut point, public.as_slice(), 1, 65);
    let hash = keccak256(point.as_slice());
    Ok(account_address(hash.as_slice()))
}

/// Deriving an address is deterministic: two derivations from the same key
/// give byte-identical addresses.
pub proof fn derive_is_deterministic(key: Seq<u8>, first: Seq<u8>, second: Seq<u8>)
    requires
        is_valid_secret_key(key),
        first == address_of_key(key),
        second == address_of_key(key),
    ensures
        first == second,
        first[0] == ADDRESS_PREFIX,
{
}

/// The Base58Check address text of a private key given in hex, with or
/// without a leading `0x`.
pub fn private_key_to_tron_address(private_key: &str) -> (r: Result<String, TronError>)
    ensures
        match r {
            Ok(t) => is_hex_text(without_hex_prefix(private_key@))
                && is_valid_secret_key(hex_bytes(without_hex_prefix(private_key@)))
                && t@ == check_encoded(address_of_key(hex_bytes(without_hex_prefix(private_key@)))),
            Err(e) => (!is_hex_text(without_hex_prefix(private_key@)) && e == TronError::Format)
                || (is_hex_text(without_hex_prefix(private_key@))
                    && !is_valid_secret_key(hex_bytes(without_hex_prefix(private_key@)))
                    && e == TronError::InvalidKey),
        },
{
    let key_hex = trim_hex_prefix(private_key);
    let key_bytes = match hex_decode(key_hex) {
        Some(b) => b,
        None => return Err(TronError::Format),
    };
    let address = derive_address(key_bytes.as_slice())?;
    Ok(bs58_check_encode(address.as_slice()))
}

} // verus!
