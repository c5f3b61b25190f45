use vstd::prelude::*;
use crate::bytes::{push_range, ranges_equal};
use crate::error::TronError;
use crate::hashing::{sha256, sha256_of};
use crate::hexcodec::{hex_bytes, hex_decode, hex_encode, hex_text, is_hex_text, trim_hex_prefix, without_hex_prefix};

verus! {

/// The Bitcoin Base58 alphabet.
pub open spec fn base58_alphabet() -> Seq<char> {
    seq![
        '1', '2', '3', '4', '5', '6', '7', '8', '9', 'A', 'B', 'C', 'D', 'E', 'F', 'G', 'H',
        'J', 'K', 'L', 'M', 'N', 'P', 'Q', 'R', 'S', 'T', 'U', 'V', 'W', 'X', 'Y', 'Z', 'a',
        'b', 'c', 'd', 'e', 'f', 'g', 'h', 'i', 'j', 'k', 'm', 'n', 'o', 'p', 'q', 'r', 's',
        't', 'u', 'v', 'w', 'x', 'y', 'z',
    ]
}

/// Text made only of Base58 digits.
pub open spec fn is_base58_text(s: Seq<char>) -> bool {
    forall|i: int| 0 <= i < s.len() ==> base58_alphabet().contains(#[trigger] s[i])
}

/// The Base58 text of a byte sequence.
pub uninterp spec fn base58_of(b: Seq<u8>) -> Seq<char>;

/// The bytes that a Base58 text stands for.
pub uninterp spec fn base58_bytes(s: Seq<char>) -> Seq<u8>;

/// Relies on `bs58::encode(..).into_string()`: the result uses only the
/// Base58 alphabet, decodes back to the input, and is empty only for empty
/// input (each leading zero byte becomes a `1`).
#[verifier::external_body]
fn base58_encode(b: &[u8]) -> (r: String)
    ensures
        r@ == base58_of(b@),
        is_base58_text(r@),
        base58_bytes(r@) == b@,
        b@.len() > 0 ==> r@.len() > 0,
{
    bs58::encode(b).into_string()
}

/// Relies on `bs58::decode(..).into_vec()`: it fails exactly on a character
/// outside the alphabet, and Base58 text is canonical, so the bytes encode
/// back to the input text.
#[verifier::external_body]
fn base58_decode(s: &str) -> (r: Option<Vec<u8>>)
    ensures
        r is Some <==> is_base58_text(s@),
        r is Some ==> r->Some_0@ == base58_bytes(s@),
        r is Some ==> base58_of(r->Some_0@) == s@,
{
    bs58::decode(s).into_vec().ok()
}

/// The four checksum bytes of a payload: the start of its double SHA-256.
pub open spec fn checksum_of(payload: Seq<u8>) -> Seq<u8> {
    sha256_of(sha256_of(payload)).subrange(0, 4)
}

/// The Base58Check text of a payload.
pub open spec fn check_encoded(payload: Seq<u8>) -> Seq<char> {
    base58_of(payload + checksum_of(payload))
}

/// Splits decoded bytes into payload and checksum, given the double SHA-256
/// of the payload part.
pub open spec fn checksum_outcome(decoded: Seq<u8>, digest: Seq<u8>) -> Result<Seq<u8>, TronError> {
    if digest.subrange(0, 4) == decoded.subrange(decoded.len() - 4, decoded.len() as int) {
        Ok(decoded.subrange(0, decoded.len() - 4))
    } else {
        Err(TronError::Checksum)
    }
}

/// What decoding a Base58Check text yields.
pub open spec fn check_decoded(s: Seq<char>) -> Result<Seq<u8>, TronError> {
    if !is_base58_text(s) {
        Err(TronError::Format)
    } else if base58_bytes(s).len() < 4 {
        Err(TronError::Format)
    } else {
        let d = base58_bytes(s);
        checksum_outcome(d, sha256_of(sha256_of(d.subrange(0, d.len() - 4))))
    }
}

/// A byte-vector result agrees with a result over sequences.
pub open spec fn same_bytes_outcome(r: Result<Vec<u8>, TronError>, s: Result<Seq<u8>, TronError>) -> bool {
    match r {
        Ok(v) => s == Ok::<Seq<u8>, TronError>(v@),
        Err(e) => s == Err::<Seq<u8>, TronError>(e),
    }
}

/// The payload followed by the first four bytes of `digest`.
pub fn append_checksum(payload: &[u8], digest: &[u8]) -> (r: Vec<u8>)
    requires
        digest@.len() >= 4,
    ensures
        r@ == payload@ + digest@.subrange(0, 4),
{
    let mut out: Vec<u8> = Vec::new();
    push_range(&mut out, payload, 0, payload.len());
    push_range(&mut out, digest, 0, 4);
    assert(payload@.subrange(0, payload@.len() as int) =~= payload@);
    out
}

/// Checks the last four bytes of `decoded` against the first four of
/// `digest` and returns the bytes before them when they match.
pub fn split_checked(decoded: &[u8], digest: &[u8]) -> (r: Result<Vec<u8>, TronError>)
    requires
        decoded@.len() >= 4,
        digest@.len() >= 4,
    ensures
        same_bytes_outcome(r, checksum_outcome(decoded@, digest@)),
{
    let n = decoded.len() - 4;
    if ranges_equal(digest, 0, decoded, n, 4) {
        let mut out: Vec<u8> = Vec::new();
        push_range(&mut out, decoded, 0, n);
        assert(out@ =~= decoded@.subrange(0, n as int));
        Ok(out)
    } else {
        Err(TronError::Checksum)
    }
}

/// Encodes a payload followed by its double-SHA-256 checksum in Base58.
pub fn bs58_check_encode(data: &[u8]) -> (r: String)
    ensures
        r@ == check_encoded(data@),
        check_decoded(r@) == Ok::<Seq<u8>, TronError>(data@),
{
    let h1 = sha256(data);
    let h2 = sha256(h1.as_slice());
    let with_checksum = append_checksum(data, h2.as_slice());
    let r = base58_encode(with_checksum.as_slice());
    proof {
        let d = with_checksum@;
        assert(d.subrange(0, d.len() - 4) =~= data@);
        assert(d.subrange(d.len() - 4, d.len() as int) =~= h2@.subrange(0, 4));
    }
    r
}

/// Decodes Base58Check text and verifies its checksum, returning the payload.
///
/// Any text it accepts is exactly the encoding of the payload it returns.
pub fn bs58_check_decode(address: &str) -> (r: Result<Vec<u8>, TronError>)
    ensures
        same_bytes_outcome(r, check_decoded(address@)),
        r is Ok ==> address@ == check_encoded(r->Ok_0@),
{
    let decoded = match base58_decode(address) {
        Some(d) => d,
        None => return Err(TronError::Format),
    };
    if decoded.len() < 4 {
        return Err(TronError::Format);
    }
    let n = decoded.len() - 4;
    let mut payload: Vec<u8> = Vec::new();
    push_range(&mut payload, decoded.as_slice(), 0, n);
    let h1 = sha256(payload.as_slice());
    let h2 = sha256(h1.as_slice());
    let r = split_checked(decoded.as_slice(), h2.as_slice());
    proof {
        assert(payload@ =~= decoded@.subrange(0, n as int));
        if r is Ok {
            assert(decoded@ =~= payload@ + checksum_of(payload@));
        }
    }
    r
}

/// The hex text of the payload of a Base58Check address.
pub fn tron_address_to_hex(address: &str) -> (r: Result<String, TronError>)
    ensures
        match r {
            Ok(h) => check_decoded(address@) is Ok && h@ == hex_text(check_decoded(address@)->Ok_0),
            Err(e) => check_decoded(address@) == Err::<Seq<u8>, TronError>(e),
        },
{
    let bytes = bs58_check_decode(address)?;
    Ok(hex_encode(bytes.as_slice()))
}

/// The Base58Check text of the bytes that hex text (with any leading `0x`)
/// stands for.
pub fn hex_to_tron_address(hex_addr: &str) -> (r: Result<String, TronError>)
    ensures
        match r {
            Ok(t) => is_hex_text(without_hex_prefix(hex_addr@))
                && t@ == check_encoded(hex_bytes(without_hex_prefix(hex_addr@))),
            Err(e) => !is_hex_text(without_hex_prefix(hex_addr@)) && e == TronError::Format,
        },
{
    let clean = trim_hex_prefix(hex_addr);
    match hex_decode(clean) {
        Some(bytes) => Ok(bs58_check_encode(bytes.as_slice())),
        None => Err(TronError::Format),
    }
}

} // verus!
