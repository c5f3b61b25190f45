use tron_utils::codec::{
    append_checksum, bs58_check_decode, bs58_check_encode, hex_to_tron_address, split_checked,
    tron_address_to_hex,
};
use tron_utils::error::TronError;

const USDT: &str = "TR7NHqjeKQxGTCi8q8ZY4pL8otSzgjLj6t";
const USDT_HEX: &str = "41a614f803b6fd780986a42c78ec9c7f77e6ded13c";

#[test]
fn decode_known_address() {
    assert_eq!(tron_address_to_hex(USDT).unwrap(), USDT_HEX);
}

#[test]
fn encode_known_address() {
    assert_eq!(hex_to_tron_address(USDT_HEX).unwrap(), USDT);
    assert_eq!(hex_to_tron_address(&format!("0x{}", USDT_HEX)).unwrap(), USDT);
}

#[test]
fn encode_small_payloads() {
    assert_eq!(bs58_check_encode(&[0u8]), "1Wh4bh");
    assert_eq!(bs58_check_encode(&[0u8, 1u8]), "18AV53K");
    let mut zero_account = vec![0x41u8];
    zero_account.extend_from_slice(&[0u8; 20]);
    assert_eq!(bs58_check_encode(&zero_account), "T9yD14Nj9j7xAB4dbGeiX9h8unkKHxuWwb");
}

#[test]
fn round_trip_payloads() {
    let payloads: Vec<Vec<u8>> = vec![
        vec![0],
        vec![0, 0, 0],
        vec![0x41; 21],
        (0u8..=255).collect(),
        vec![7, 0, 9, 200],
    ];
    for p in payloads {
        let text = bs58_check_encode(&p);
        assert_eq!(bs58_check_decode(&text), Ok(p));
    }
}

#[test]
fn flipped_character_is_rejected() {
    let alphabet = "123456789ABCDEFGHJKLMNPQRSTUVWXYZabcdefghijkmnopqrstuvwxyz";
    let chars: Vec<char> = USDT.chars().collect();
    for i in 0..chars.len() {
        for c in alphabet.chars().filter(|c| *c != chars[i]).take(5) {
            let mut flipped = chars.clone();
            flipped[i] = c;
            let text: String = flipped.into_iter().collect();
            let r = bs58_check_decode(&text);
            assert!(matches!(r, Err(TronError::Checksum) | Err(TronError::Format)), "{}", text);
        }
    }
}

#[test]
fn non_alphabet_character_is_format_error() {
    assert_eq!(bs58_check_decode("TR7NHqjeKQxGTCi8q8ZY4pL8otSzgjLj60"), Err(TronError::Format));
    assert_eq!(bs58_check_decode("TR7NHqjeKQxGTCi8q8ZY4pL8otSzgjLjIl"), Err(TronError::Format));
}

#[test]
fn too_short_is_format_error() {
    assert_eq!(bs58_check_decode(""), Err(TronError::Format));
    assert_eq!(bs58_check_decode("2"), Err(TronError::Format));
}

#[test]
fn bad_checksum_is_checksum_error() {
    assert_eq!(bs58_check_decode("TR7NHqjeKQxGTCi8q8ZY4pL8otSzgjLj6u"), Err(TronError::Checksum));
}

#[test]
fn bad_hex_is_format_error() {
    assert_eq!(hex_to_tron_address("41zz"), Err(TronError::Format));
    assert_eq!(hex_to_tron_address("414"), Err(TronError::Format));
}

#[test]
fn checksum_helpers() {
    assert_eq!(append_checksum(&[1, 2], &[9, 8, 7, 6, 5]), vec![1, 2, 9, 8, 7, 6]);
    assert_eq!(split_checked(&[1, 2, 9, 8, 7, 6], &[9, 8, 7, 6, 5]), Ok(vec![1, 2]));
    assert_eq!(split_checked(&[1, 2, 9, 8, 7, 5], &[9, 8, 7, 6, 5]), Err(TronError::Checksum));
}

#[test]
fn repeated_hex_prefix_removed() {
    assert_eq!(hex_to_tron_address(&format!("0x0x{}", USDT_HEX)).unwrap(), USDT);
    assert_eq!(hex_to_tron_address("0x"), Ok(bs58_check_encode(&[])));
    assert_eq!(hex_to_tron_address("0X41"), Err(TronError::Format));
}
