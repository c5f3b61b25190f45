use tron_utils::abi::{decode_binary_address, encode_constructor_params, encode_params_blob};
use tron_utils::codec::bs58_check_encode;
use tron_utils::error::TronError;

fn address(fill: u8) -> String {
    let mut p = vec![0x41u8];
    p.extend_from_slice(&[fill; 20]);
    bs58_check_encode(&p)
}

fn word(n: u64) -> String {
    format!("{:064x}", n)
}

#[test]
fn offset_and_length_words_for_two_owners() {
    let a = address(0xaa);
    let b = address(0xbb);
    let t = address(0x11);
    let out = encode_constructor_params(&t, &[a.as_str(), b.as_str()], 2).unwrap();
    assert_eq!(&out[64..128], word(96));
    assert_eq!(&out[192..256], word(2));
    assert_eq!(&out[128..192], word(2));
    assert_eq!(&out[0..64], format!("{}{}", "0".repeat(24), "11".repeat(20)));
    assert_eq!(&out[256..320], format!("{}{}", "0".repeat(24), "aa".repeat(20)));
    assert_eq!(&out[320..384], format!("{}{}", "0".repeat(24), "bb".repeat(20)));
}

#[test]
fn three_owners_length() {
    let owners = [address(1), address(2), address(3)];
    let refs: Vec<&str> = owners.iter().map(|s| s.as_str()).collect();
    let out = encode_constructor_params(&address(9), &refs, 2).unwrap();
    assert_eq!(out.len(), 448);
}

#[test]
fn threshold_errors() {
    let owners = [address(1), address(2)];
    let refs: Vec<&str> = owners.iter().map(|s| s.as_str()).collect();
    for n in 0..3 {
        assert_eq!(encode_constructor_params(&address(9), &refs[..n], 0), Err(TronError::Threshold));
        assert_eq!(
            encode_constructor_params(&address(9), &refs[..n], n as u64 + 1),
            Err(TronError::Threshold)
        );
    }
    assert_eq!(encode_constructor_params(&address(9), &[], 0), Err(TronError::Threshold));
}

#[test]
fn threshold_checked_before_addresses() {
    assert_eq!(encode_constructor_params("bad0", &["bad0"], 2), Err(TronError::Threshold));
}

#[test]
fn address_errors_propagate() {
    let good = address(1);
    assert_eq!(encode_constructor_params("bad0", &[good.as_str()], 1), Err(TronError::Format));
    assert_eq!(
        encode_constructor_params(&good, &[good.as_str(), "TR7NHqjeKQxGTCi8q8ZY4pL8otSzgjLj6u"], 1),
        Err(TronError::Checksum)
    );
}

#[test]
fn wrong_length_address_rejected() {
    let short = bs58_check_encode(&[0x41u8, 1, 2]);
    assert_eq!(decode_binary_address(&short), Err(TronError::Format));
    assert_eq!(encode_constructor_params(&short, &[short.as_str()], 1), Err(TronError::Format));
}

#[test]
fn large_threshold_word() {
    let owners: Vec<String> = (0..3).map(address).collect();
    let refs: Vec<&str> = owners.iter().map(|s| s.as_str()).collect();
    let out = encode_constructor_params(&address(9), &refs, 3).unwrap();
    assert_eq!(&out[128..192], word(3));
    let blob = encode_params_blob(&[0x41u8; 21], &vec![], u64::MAX);
    assert_eq!(blob.len(), 128);
    assert_eq!(hex::encode(&blob[64..96]), format!("{}{}", "0".repeat(48), "f".repeat(16)));
    assert_eq!(hex::encode(&blob[96..128]), word(0));
}

#[test]
fn blob_from_binary_addresses() {
    let token = [0x41u8; 21];
    let owner = {
        let mut o = vec![0x41u8];
        o.extend(1u8..=20);
        o
    };
    let blob = encode_params_blob(&token, &vec![owner.clone()], 1);
    assert_eq!(blob.len(), 160);
    assert_eq!(&blob[0..12], &[0u8; 12]);
    assert_eq!(&blob[12..32], &[0x41u8; 20]);
    assert_eq!(blob[63], 96);
    assert_eq!(blob[95], 1);
    assert_eq!(blob[127], 1);
    assert_eq!(&blob[140..160], &owner[1..]);
}
