use tron_utils::error::TronError;
use tron_utils::keys::{account_address, derive_address, private_key_to_tron_address};

fn key_one() -> Vec<u8> {
    let mut k = vec![0u8; 32];
    k[31] = 1;
    k
}

#[test]
fn key_one_known_address() {
    let expected = hex::decode("417e5f4552091a69125d5dfcb7b8c2659029395bdf").unwrap();
    assert_eq!(derive_address(&key_one()).unwrap(), expected);
    let text = format!("0x{}", hex::encode(key_one()));
    assert_eq!(private_key_to_tron_address(&text).unwrap(), "TMVQGm1qAQYVdetCeGRRkTWYYrLXuHK2HC");
}

#[test]
fn derive_is_deterministic() {
    let key = [0x5au8; 32];
    let a = derive_address(&key).unwrap();
    let b = derive_address(&key).unwrap();
    assert_eq!(a, b);
    assert_eq!(a.len(), 21);
    assert_eq!(a[0], 0x41);
}

#[test]
fn invalid_keys_rejected() {
    assert_eq!(derive_address(&[0u8; 32]), Err(TronError::InvalidKey));
    assert_eq!(derive_address(&[0xffu8; 32]), Err(TronError::InvalidKey));
    assert_eq!(derive_address(&[1u8; 31]), Err(TronError::InvalidKey));
    let order = hex::decode("FFFFFFFFFFFFFFFFFFFFFFFFFFFFFFFEBAAEDCE6AF48A03BBFD25E8CD0364141").unwrap();
    assert_eq!(derive_address(&order), Err(TronError::InvalidKey));
    assert_eq!(private_key_to_tron_address("0xzz"), Err(TronError::Format));
    assert_eq!(private_key_to_tron_address(&"00".repeat(32)), Err(TronError::InvalidKey));
}

#[test]
fn largest_valid_key_accepted() {
    let below = hex::decode("FFFFFFFFFFFFFFFFFFFFFFFFFFFFFFFEBAAEDCE6AF48A03BBFD25E8CD0364140").unwrap();
    assert!(derive_address(&below).is_ok());
}

#[test]
fn address_takes_last_twenty_bytes() {
    let hash: Vec<u8> = (0u8..32).collect();
    let mut expected = vec![0x41u8];
    expected.extend(12u8..32);
    assert_eq!(account_address(&hash), expected);
}

#[test]
fn error_messages() {
    assert_eq!(TronError::Checksum.message(), "invalid checksum");
    assert_eq!(
        TronError::Threshold.message(),
        "invalid threshold: must be > 0 and <= number of owners"
    );
}
