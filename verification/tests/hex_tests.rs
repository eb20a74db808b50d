use syscoin_client::errors::ClientError;
use syscoin_client::hexcodec::{decode_blob_payload, encode_blob_payload};
use syscoin_client::strutil::{str_contains, str_ends_with, str_eq};

#[test]
fn test_encode_blob_payload_values() {
    assert_eq!(encode_blob_payload(&[1, 2, 3]), "010203");
    assert_eq!(encode_blob_payload(&[0xde, 0xad, 0xbe, 0xef]), "deadbeef");
    assert_eq!(encode_blob_payload(&[0, 255]), "00ff");
}

#[test]
fn test_encode_blob_payload_empty() {
    assert_eq!(encode_blob_payload(&[]), "");
}

#[test]
fn test_decode_blob_payload_values() {
    assert_eq!(decode_blob_payload(b"0102030f10").unwrap(), vec![1, 2, 3, 15, 16]);
    assert_eq!(decode_blob_payload(b"DEADBEEF").unwrap(), vec![0xde, 0xad, 0xbe, 0xef]);
    assert_eq!(decode_blob_payload(b"").unwrap(), Vec::<u8>::new());
}

#[test]
fn test_decode_blob_payload_odd_length() {
    let err = decode_blob_payload(b"abc").unwrap_err();
    assert!(matches!(err, ClientError::DecodeError));
}

#[test]
fn test_decode_blob_payload_invalid_digit() {
    let err = decode_blob_payload(b"zz").unwrap_err();
    assert!(matches!(err, ClientError::DecodeError));
}

#[test]
fn test_hex_round_trip() {
    let data: Vec<u8> = (0u16..=255).map(|b| b as u8).collect();
    let encoded = encode_blob_payload(&data);
    let decoded = decode_blob_payload(encoded.as_bytes()).unwrap();
    assert_eq!(decoded, data);
}

#[test]
fn test_str_contains() {
    assert!(str_contains("Wallet file verification failed: wallet already exists.", "already exists"));
    assert!(!str_contains("connection refused", "already exists"));
    assert!(str_contains("anything", ""));
}

#[test]
fn test_str_ends_with() {
    assert!(str_ends_with("http://mocked_poda_url/mocked_version_hash", "mocked_version_hash"));
    assert!(!str_ends_with("http://mocked_poda_url/other", "mocked_version_hash"));
}

#[test]
fn test_str_eq() {
    assert!(str_eq("abc", "abc"));
    assert!(!str_eq("abc", "abd"));
}
