use vstd::prelude::*;
use vstd::arithmetic::power::pow;
use vstd::arithmetic::div_mod::lemma_div_denominator;
use vstd::arithmetic::power::lemma_pow_positive;
use crate::bytes::push_range;
use crate::codec::{bs58_check_decode, check_decoded};
use crate::error::TronError;
use crate::hexcodec::{hex_encode, hex_text};

verus! {

/// Byte offset from the start of the parameters to the owners array's length
/// word: the three head words of `(address, address[], uint256)` take 96
/// bytes.
pub const OWNERS_OFFSET: u64 = 96;

/// Byte `k` of `n`, counting from the least significant byte.
pub open spec fn byte_at(n: nat, k: nat) -> u8 {
    ((n / (pow(256, k) as nat)) % 256) as u8
}

/// The 32-byte big-endian word of an integer.
pub open spec fn uint_word(n: nat) -> Seq<u8> {
    Seq::new(32, |i: int| byte_at(n, (31 - i) as nat))
}

/// The 32-byte word of a binary address: its 20-byte account identifier
/// (the version byte dropped), left-padded with zeros.
pub open spec fn address_word(addr: Seq<u8>) -> Seq<u8> {
    Seq::new(12, |i: int| 0u8) + addr.subrange(1, 21)
}

/// The words of the owners array's elements, in order.
pub open spec fn owner_words(owners: Seq<Seq<u8>>) -> Seq<u8>
    decreases owners.len(),
{
    if owners.len() == 0 {
        Seq::empty()
    } else {
        owner_words(owners.drop_last()) + address_word(owners.last())
    }
}

/// The parameter blob of the constructor `(address, address[], uint256)`:
/// three head words, then the array's length and its elements.
pub open spec fn params_blob(token: Seq<u8>, owners: Seq<Seq<u8>>, threshold: nat) -> Seq<u8> {
    address_word(token) + uint_word(OWNERS_OFFSET as nat) + uint_word(threshold) + uint_word(
        owners.len(),
    ) + owner_words(owners)
}

/// Every address in a list is 21 bytes long.
pub open spec fn all_binary_addresses(owners: Seq<Seq<u8>>) -> bool {
    forall|i: int| 0 <= i < owners.len() ==> (#[trigger] owners[i]).len() == 21
}

/// Appends the 32-byte big-endian word of `n`.
pub(crate) fn push_uint_word(out: &mut Vec<u8>, n: u64)
    ensures
        final(out)@ == old(out)@ + uint_word(n as nat),
{
    let mut word: Vec<u8> = Vec::new();
    while word.len() < 32
        invariant
            word@.len() <= 32,
        decreases 32 - word@.len(),
    {
        word.push(0u8);
    }
    let mut rem: u64 = n;
    let mut k: usize = 0;
    assert(pow(256, k as nat) == 1) by {
        reveal(pow);
    }
    assert(n as nat / 1 == n as nat);
    while k < 32
        invariant
            k <= 32,
            word@.len() == 32,
            rem as nat == n as nat / (pow(256, k as nat) as nat),
            forall|j: int| 0 <= j < k ==> #[trigger] word@[31 - j] == byte_at(n as nat, j as nat),
        decreases 32 - k,
    {
        proof {
            lemma_pow_positive(256, k as nat);
            lemma_pow_positive(256, (k + 1) as nat);
            assert(pow(256, (k + 1) as nat) == 256 * pow(256, k as nat)) by {
                reveal(pow);
            }
            lemma_div_denominator(n as int, pow(256, k as nat), 256);
        }
        word.set(31 - k, (rem % 256) as u8);
        rem = rem / 256;
        k = k + 1;
    }
    assert forall|i: int| 0 <= i < 32 implies word@[i] == uint_word(n as nat)[i] by {
        assert(word@[31 - (31 - i)] == byte_at(n as nat, (31 - i) as nat));
    }
    assert(word@ =~= uint_word(n as nat));
    push_range(out, word.as_slice(), 0, 32);
    assert(word@.subrange(0, 32) =~= word@);
}

/// Appends the padded 32-byte word of a 21-byte binary address.
pub(crate) fn push_address_word(out: &mut Vec<u8>, addr: &[u8])
    requires
        addr@.len() == 21,
    ensures
        final(out)@ == old(out)@ + address_word(addr@),
{
    let ghost start = out@;
    let mut i: usize = 0;
    while i < 12
        invariant
            i <= 12,
            out@ == start + Seq::new(i as nat, |j: int| 0u8),
        decreases 12 - i,
    {
        out.push(0u8);
        i = i + 1;
        assert(out@ =~= start + Seq::new(i as nat, |j: int| 0u8));
    }
    push_range(out, addr, 1, 21);
    assert(out@ =~= start + address_word(addr@));
}

/// Encodes binary addresses and a threshold as the constructor parameters of
/// `(address token, address[] owners, uint256 threshold)`.
pub fn encode_params_blob(token: &[u8], owners: &Vec<Vec<u8>>, threshold: u64) -> (r: Vec<u8>)
    requires
        token@.len() == 21,
        all_binary_addresses(owners@.map_values(|v: Vec<u8>| v@)),
    ensures
        r@ == params_blob(token@, owners@.map_values(|v: Vec<u8>| v@), threshold as nat),
{
    let ghost views = owners@.map_values(|v: Vec<u8>| v@);
    let mut out: Vec<u8> = Vec::new();
    push_address_word(&mut out, token);
    push_uint_word(&mut out, OWNERS_OFFSET);
    push_uint_word(&mut out, threshold);
    push_uint_word(&mut out, owners.len() as u64);
    let ghost head = out@;
    let mut i: usize = 0;
    while i < owners.len()
        invariant
            i <= owners@.len(),
            views == owners@.map_values(|v: Vec<u8>| v@),
            all_binary_addresses(views),
            out@ == head + owner_words(views.subrange(0, i as int)),
        decreases owners@.len() - i,
    {
        assert(views[i as int].len() == 21);
        push_address_word(&mut out, owners[i].as_slice());
        proof {
            let next = views.subrange(0, i + 1);
            assert(next.drop_last() =~= views.subrange(0, i as int));
        }
        i = i + 1;
    }
    assert(views.subrange(0, owners@.len() as int) =~= views);
    assert(out@ =~= params_blob(token@, views, threshold as nat));
    out
}

proof fn lemma_owner_words_len(owners: Seq<Seq<u8>>)
    requires
        all_binary_addresses(owners),
    ensures
        owner_words(owners).len() == 32 * owners.len(),
    decreases owners.len(),
{
    if owners.len() > 0 {
        lemma_owner_words_len(owners.drop_last());
    }
}

/// The layout of every parameter blob: the word at byte 32 holds the offset
/// 96 of the owners array, the word at byte 96 holds the number of owners,
/// and the blob is three head words, the length word and one word per owner.
pub proof fn params_layout(token: Seq<u8>, owners: Seq<Seq<u8>>, threshold: nat)
    requires
        token.len() == 21,
        all_binary_addresses(owners),
    ensures
        params_blob(token, owners, threshold).len() == 32 * (4 + owners.len()),
        params_blob(token, owners, threshold).subrange(0, 32) == address_word(token),
        params_blob(token, owners, threshold).subrange(32, 64) == uint_word(OWNERS_OFFSET as nat),
        params_blob(token, owners, threshold).subrange(64, 96) == uint_word(threshold),
        params_blob(token, owners, threshold).subrange(96, 128) == uint_word(owners.len()),
        params_blob(token, owners, threshold).subrange(128, 32 * (4 + owners.len()) as int) == owner_words(owners),
{
    lemma_owner_words_len(owners);
    let b = params_blob(token, owners, threshold);
    assert(b.subrange(0, 32) =~= address_word(token));
    assert(b.subrange(32, 64) =~= uint_word(OWNERS_OFFSET as nat));
    assert(b.subrange(64, 96) =~= uint_word(threshold));
    assert(b.subrange(96, 128) =~= uint_word(owners.len()));
    assert(b.subrange(128, 32 * (4 + owners.len()) as int) =~= owner_words(owners));
}

/// The 21-byte binary address that an address text decodes to.
pub open spec fn binary_address_of(text: Seq<char>) -> Result<Seq<u8>, TronError> {
    match check_decoded(text) {
        Ok(p) => if p.len() == 21 {
            Ok(p)
        } else {
            Err(TronError::Format)
        },
        Err(e) => Err(e),
    }
}

/// The binary addresses of a list of address texts, or the error of the
/// first one that does not decode.
pub open spec fn owners_decoded(owners: Seq<Seq<char>>) -> Result<Seq<Seq<u8>>, TronError>
    decreases owners.len(),
{
    if owners.len() == 0 {
        Ok(Seq::empty())
    } else {
        match owners_decoded(owners.drop_last()) {
            Err(e) => Err(e),
            Ok(prev) => match binary_address_of(owners.last()) {
                Ok(a) => Ok(prev.push(a)),
                Err(e) => Err(e),
            },
        }
    }
}

/// The texts of a list of string slices.
pub open spec fn texts(owners: Seq<&str>) -> Seq<Seq<char>> {
    owners.map_values(|s: &str| s@)
}

/// A threshold that at least one and at most every owner can meet.
pub open spec fn threshold_ok(threshold: nat, owners: nat) -> bool {
    1 <= threshold <= owners
}

/// The constructor parameter blob for a token address, the owners' addresses
/// and a threshold, or the error that stops its encoding.
pub open spec fn constructor_params(token: Seq<char>, owners: Seq<Seq<char>>, threshold: nat) -> Result<Seq<u8>, TronError> {
    if !threshold_ok(threshold, owners.len()) {
        Err(TronError::Threshold)
    } else {
        match binary_address_of(token) {
            Err(e) => Err(e),
            Ok(t) => match owners_decoded(owners) {
                Err(e) => Err(e),
                Ok(os) => Ok(params_blob(t, os, threshold)),
            },
        }
    }
}

proof fn lemma_owners_decoded_ok(owners: Seq<Seq<char>>)
    requires
        owners_decoded(owners) is Ok,
    ensures
        owners_decoded(owners)->Ok_0.len() == owners.len(),
        all_binary_addresses(owners_decoded(owners)->Ok_0),
    decreases owners.len(),
{
    if owners.len() > 0 {
        lemma_owners_decoded_ok(owners.drop_last());
    }
}

proof fn lemma_owners_error_persists(owners: Seq<Seq<char>>, i: int)
    requires
        0 <= i <= owners.len(),
        owners_decoded(owners.subrange(0, i)) is Err,
    ensures
        owners_decoded(owners) == owners_decoded(owners.subrange(0, i)),
    decreases owners.len(),
{
    if i == owners.len() {
        assert(owners.subrange(0, i) =~= owners);
    } else {
        let shorter = owners.drop_last();
        assert(shorter.subrange(0, i) =~= owners.subrange(0, i));
        lemma_owners_error_persists(shorter, i);
    }
}

/// Decodes an address text to its 21-byte binary address.
pub fn decode_binary_address(text: &str) -> (r: Result<Vec<u8>, TronError>)
    ensures
        match r {
            Ok(a) => binary_address_of(text@) == Ok::<Seq<u8>, TronError>(a@),
            Err(e) => binary_address_of(text@) == Err::<Seq<u8>, TronError>(e),
        },
{
    let payload = match bs58_check_decode(text) {
        Ok(p) => p,
        Err(e) => return Err(e),
    };
    if payload.len() != 21 {
        return Err(TronError::Format);
    }
    Ok(payload)
}

/// Hex-encodes the constructor parameters `(address token, address[] owners,
/// uint256 threshold)` after checking the threshold and decoding every
/// address text.
pub fn encode_constructor_params(usdt: &str, owners: &[&str], threshold: u64) -> (r: Result<String, TronError>)
    ensures
        match r {
            Ok(h) => constructor_params(usdt@, texts(owners@), threshold as nat) is Ok
                && h@ == hex_text(constructor_params(usdt@, texts(owners@), threshold as nat)->Ok_0),
            Err(e) => constructor_params(usdt@, texts(owners@), threshold as nat) == Err::<Seq<u8>, TronError>(e),
        },
        !threshold_ok(threshold as nat, owners@.len()) ==> r == Err::<String, TronError>(TronError::Threshold),
{
    if threshold == 0 || threshold > owners.len() as u64 {
        return Err(TronError::Threshold);
    }
    let ghost names = texts(owners@);
    let token = match decode_binary_address(usdt) {
        Ok(t) => t,
        Err(e) => return Err(e),
    };
    let mut decoded: Vec<Vec<u8>> = Vec::new();
    let mut i: usize = 0;
    while i < owners.len()
        invariant
            i <= owners@.len(),
            names == texts(owners@),
            names.len() == owners@.len(),
            threshold_ok(threshold as nat, owners@.len()),
            binary_address_of(usdt@) == Ok::<Seq<u8>, TronError>(token@),
            owners_decoded(names.subrange(0, i as int)) is Ok,
            decoded@.map_values(|v: Vec<u8>| v@) == owners_decoded(names.subrange(0, i as int))->Ok_0,
        decreases owners@.len() - i,
    {
        let ghost before = names.subrange(0, i as int);
        let ghost after = names.subrange(0, i + 1);
        assert(after.drop_last() =~= before);
        assert(after.last() == owners@[i as int]@);
        match decode_binary_address(owners[i]) {
            Ok(a) => {
                decoded.push(a);
                assert(decoded@.map_values(|v: Vec<u8>| v@) =~= owners_decoded(after)->Ok_0);
            },
            Err(e) => {
                proof {
                    lemma_owners_error_persists(names, i + 1);
                }
                return Err(e);
            },
        }
        i = i + 1;
    }
    proof {
        assert(names.subrange(0, owners@.len() as int) =~= names);
        lemma_owners_decoded_ok(names);
    }
    let blob = encode_params_blob(token.as_slice(), &decoded, threshold);
    Ok(hex_encode(blob.as_slice()))
}

} // verus!
