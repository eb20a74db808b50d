use syscoin_client::client::{MockRpcClient, SyscoinClient};
use syscoin_client::errors::ClientError;
use syscoin_client::json::JsonValue;

fn mock_client() -> SyscoinClient<MockRpcClient> {
    SyscoinClient::new(MockRpcClient, "http://mocked_poda_url/")
}

#[test]
fn test_create_blob() {
    let mock_client = MockRpcClient;
    let syscoin_client = SyscoinClient::new(mock_client, "http://mocked_poda_url/");

    let data = vec![1, 2, 3];
    let blob_hash = syscoin_client.create_blob(&data).unwrap();
    assert_eq!(blob_hash, "mocked_hash", "Blob hash should match mocked value");
}

#[test]
fn test_get_balance() {
    let mock_client = MockRpcClient;
    let syscoin_client = SyscoinClient::new(mock_client, "http://mocked_poda_url/");

    let balance = syscoin_client.get_balance().unwrap();
    assert_eq!(balance, 10_000_000_000, "Balance should match mocked value");
    assert_eq!(balance as f64 / 100_000_000.0, 100.0, "Balance should match mocked value");
}

#[test]
fn test_create_blob_empty_input() {
    let client = mock_client();
    let blob_hash = client.create_blob(&[]).unwrap();
    assert_eq!(blob_hash, "mocked_hash");
}

#[test]
fn test_get_blob_from_cloud_recognized_hash() {
    let client = mock_client();
    let bytes = client.get_blob_from_cloud("mocked_version_hash").unwrap();
    assert_eq!(bytes, vec![1, 2, 3]);
}

#[test]
fn test_get_blob_from_cloud_unknown_hash() {
    let client = mock_client();
    let err = client.get_blob_from_cloud("some_other_hash").unwrap_err();
    assert!(matches!(err, ClientError::TransportError(_)));
    assert_eq!(err.message(), "Mocked HTTP error");
}

#[test]
fn test_create_or_load_wallet_unsupported_by_mock() {
    let client = mock_client();
    let err = client.create_or_load_wallet("main").unwrap_err();
    assert!(matches!(err, ClientError::WalletError(_)));
    assert_eq!(err.message(), "Unsupported RPC method: createwallet");
}

#[test]
fn test_get_new_address_unsupported_by_mock() {
    let client = mock_client();
    let err = client.get_new_address("hot").unwrap_err();
    assert!(matches!(err, ClientError::RpcError(_)));
    assert_eq!(err.message(), "Unsupported RPC method: getnewaddress");
}

#[test]
fn test_block_number_unsupported_by_mock() {
    let client = mock_client();
    let err = client.block_number().unwrap_err();
    assert!(matches!(err, ClientError::RpcError(_)));
    assert_eq!(err.message(), "Unsupported RPC method: getblockcount");
}

#[test]
fn test_transaction_receipt_unsupported_by_mock() {
    let client = mock_client();
    let err = client.transaction_receipt("mocked_hash").unwrap_err();
    assert!(matches!(err, ClientError::RpcError(_)));
    assert_eq!(err.message(), "Unsupported RPC method: getnevmblobdata");
}

fn envelope(result: JsonValue) -> JsonValue {
    JsonValue::Object(vec![(String::from("result"), result)])
}

#[test]
fn test_first_label_address_empty_set_is_not_found() {
    let resp = envelope(JsonValue::Object(vec![]));
    let err = syscoin_client::client::first_label_address(&resp).unwrap_err();
    assert!(matches!(err, ClientError::NotFound));
}

#[test]
fn test_first_label_address_returns_first_key() {
    let resp = envelope(JsonValue::Object(vec![
        (String::from("sys1qfirst"), JsonValue::Null),
        (String::from("sys1qsecond"), JsonValue::Null),
    ]));
    let addr = syscoin_client::client::first_label_address(&resp).unwrap();
    assert_eq!(addr, "sys1qfirst");
}

#[test]
fn test_first_label_address_malformed() {
    let resp = envelope(JsonValue::Number(3));
    let err = syscoin_client::client::first_label_address(&resp).unwrap_err();
    assert!(matches!(err, ClientError::MalformedResponse));
}

#[test]
fn test_extract_version_hash_present() {
    let resp = envelope(JsonValue::Object(vec![(
        String::from("versionhash"),
        JsonValue::String(String::from("abc123")),
    )]));
    let hash = syscoin_client::client::extract_version_hash(&resp).unwrap();
    assert_eq!(hash, "abc123");
}

#[test]
fn test_extract_version_hash_missing_field() {
    let resp = envelope(JsonValue::Object(vec![]));
    let err = syscoin_client::client::extract_version_hash(&resp).unwrap_err();
    assert!(matches!(err, ClientError::MalformedResponse));
}

#[test]
fn test_extract_version_hash_wrong_type() {
    let resp = envelope(JsonValue::Object(vec![(
        String::from("versionhash"),
        JsonValue::Number(7),
    )]));
    let err = syscoin_client::client::extract_version_hash(&resp).unwrap_err();
    assert!(matches!(err, ClientError::MalformedResponse));
}

#[test]
fn test_extract_string_result() {
    let resp = envelope(JsonValue::String(String::from("sys1qaddr")));
    let s = syscoin_client::client::extract_string_result(&resp).unwrap();
    assert_eq!(s, "sys1qaddr");
}

#[test]
fn test_extract_block_number() {
    let resp = envelope(JsonValue::Number(123456));
    let n = syscoin_client::client::extract_block_number(&resp).unwrap();
    assert_eq!(n, 123456);
}

#[test]
fn test_extract_block_number_negative_is_malformed() {
    let resp = envelope(JsonValue::Number(-1));
    let err = syscoin_client::client::extract_block_number(&resp).unwrap_err();
    assert!(matches!(err, ClientError::MalformedResponse));
}

#[test]
fn test_extract_block_number_wrong_type() {
    let resp = envelope(JsonValue::String(String::from("123")));
    let err = syscoin_client::client::extract_block_number(&resp).unwrap_err();
    assert!(matches!(err, ClientError::MalformedResponse));
}

#[test]
fn test_take_result_null_means_no_record() {
    let resp = envelope(JsonValue::Null);
    let receipt = syscoin_client::client::take_result(resp).unwrap();
    assert!(receipt.is_none());
}

#[test]
fn test_take_result_document() {
    let resp = envelope(JsonValue::Object(vec![(
        String::from("blocknumber"),
        JsonValue::Number(9),
    )]));
    let receipt = syscoin_client::client::take_result(resp).unwrap();
    assert!(matches!(receipt, Some(JsonValue::Object(_))));
}

#[test]
fn test_take_result_missing_is_malformed() {
    let resp = JsonValue::Object(vec![(String::from("error"), JsonValue::Null)]);
    let err = syscoin_client::client::take_result(resp).unwrap_err();
    assert!(matches!(err, ClientError::MalformedResponse));
}

#[test]
fn test_error_messages() {
    assert_eq!(ClientError::NotFound.message(), "not found");
    assert_eq!(ClientError::MalformedResponse.message(), "malformed response");
    assert_eq!(ClientError::DecodeError.message(), "invalid hex payload");
    assert_eq!(ClientError::RpcError(String::from("boom")).message(), "boom");
}
