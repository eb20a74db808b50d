//! Tests through hand-written stub transports: the capability interface is
//! meant to be implemented by users, so these stubs exercise the facade paths
//! the canned mock does not reach, the wallet create-or-load fallback first.

use std::cell::RefCell;

use syscoin_client::client::{RpcClient, SyscoinClient};
use syscoin_client::errors::ClientError;
use syscoin_client::json::JsonValue;

fn envelope(result: JsonValue) -> JsonValue {
    JsonValue::Object(vec![(String::from("result"), result)])
}

/// A node stub whose wallet already exists: creation fails with the marker
/// text, loading succeeds. Records every method called.
struct ExistingWalletNode {
    calls: RefCell<Vec<String>>,
}

impl ExistingWalletNode {
    fn new() -> Self {
        ExistingWalletNode { calls: RefCell::new(Vec::new()) }
    }
}

impl RpcClient for &ExistingWalletNode {
    fn call(&self, method: &str, params: &Vec<JsonValue>) -> Result<JsonValue, ClientError> {
        let first_param = match params.first() {
            Some(JsonValue::String(s)) => s.clone(),
            _ => String::new(),
        };
        self.calls.borrow_mut().push(format!("{} {}", method, first_param));
        match method {
            "createwallet" => Err(ClientError::RpcError(String::from(
                "Wallet \"main\" already exists.",
            ))),
            "loadwallet" => Ok(envelope(JsonValue::Null)),
            "getnewaddress" => Ok(envelope(JsonValue::String(String::from("sys1qnew")))),
            "getaddressesbylabel" => Ok(envelope(JsonValue::Object(vec![
                (String::from("sys1qlabeled"), JsonValue::Null),
            ]))),
            "getblockcount" => Ok(envelope(JsonValue::Number(123))),
            "getnevmblobdata" => Ok(envelope(JsonValue::Null)),
            other => Err(ClientError::RpcError(format!("unexpected method {}", other))),
        }
    }

    fn get_balance(
        &self,
        _account: Option<&str>,
        _include_watchonly: Option<bool>,
    ) -> Result<u64, ClientError> {
        Ok(42)
    }

    fn http_get(&self, _url: &str) -> Result<Vec<u8>, ClientError> {
        Ok(b"ff00".to_vec())
    }
}

#[test]
fn test_wallet_fallback_loads_existing_wallet() {
    let node = ExistingWalletNode::new();
    let client = SyscoinClient::new(&node, "http://poda/");
    assert!(client.create_or_load_wallet("main").is_ok());
}

#[test]
fn test_wallet_fallback_attempts_load_after_exists_error() {
    let node = ExistingWalletNode::new();
    let client = SyscoinClient::new(&node, "http://poda/");
    client.create_or_load_wallet("main").unwrap();
    assert_eq!(*node.calls.borrow(), vec!["createwallet main", "loadwallet main"]);
}

#[test]
fn test_get_new_address_through_stub() {
    let node = ExistingWalletNode::new();
    let client = SyscoinClient::new(&node, "http://poda/");
    assert_eq!(client.get_new_address("hot").unwrap(), "sys1qnew");
}

#[test]
fn test_fetch_address_by_label_through_stub() {
    let node = ExistingWalletNode::new();
    let client = SyscoinClient::new(&node, "http://poda/");
    assert_eq!(client.fetch_address_by_label("hot").unwrap(), "sys1qlabeled");
}

#[test]
fn test_block_number_through_stub() {
    let node = ExistingWalletNode::new();
    let client = SyscoinClient::new(&node, "http://poda/");
    assert_eq!(client.block_number().unwrap(), 123);
}

#[test]
fn test_transaction_receipt_null_is_none() {
    let node = ExistingWalletNode::new();
    let client = SyscoinClient::new(&node, "http://poda/");
    assert!(client.transaction_receipt("somehash").unwrap().is_none());
}

#[test]
fn test_get_blob_from_cloud_decodes_stub_body() {
    let node = ExistingWalletNode::new();
    let client = SyscoinClient::new(&node, "http://poda/");
    assert_eq!(client.get_blob_from_cloud("somehash").unwrap(), vec![0xff, 0x00]);
}

#[test]
fn test_get_balance_through_stub() {
    let node = ExistingWalletNode::new();
    let client = SyscoinClient::new(&node, "http://poda/");
    assert_eq!(client.get_balance().unwrap(), 42);
}

/// A node stub where creation fails for an unrelated reason: the fallback
/// must not run and the message must surface in the `WalletError`.
struct BrokenNode;

impl RpcClient for BrokenNode {
    fn call(&self, method: &str, _params: &Vec<JsonValue>) -> Result<JsonValue, ClientError> {
        match method {
            "createwallet" => Err(ClientError::TransportError(String::from(
                "connection refused",
            ))),
            "loadwallet" => Err(ClientError::RpcError(String::from(
                "load should not have been attempted",
            ))),
            _ => Err(ClientError::RpcError(String::from("unexpected"))),
        }
    }

    fn get_balance(
        &self,
        _account: Option<&str>,
        _include_watchonly: Option<bool>,
    ) -> Result<u64, ClientError> {
        Err(ClientError::TransportError(String::from("connection refused")))
    }

    fn http_get(&self, _url: &str) -> Result<Vec<u8>, ClientError> {
        Err(ClientError::TransportError(String::from("connection refused")))
    }
}

#[test]
fn test_wallet_other_failure_is_fatal() {
    let client = SyscoinClient::new(BrokenNode, "http://poda/");
    let err = client.create_or_load_wallet("main").unwrap_err();
    assert!(matches!(err, ClientError::WalletError(_)));
    assert_eq!(err.message(), "connection refused");
}

/// A node stub whose wallet exists but cannot be loaded: the load failure's
/// message must surface.
struct UnloadableWalletNode;

impl RpcClient for UnloadableWalletNode {
    fn call(&self, method: &str, _params: &Vec<JsonValue>) -> Result<JsonValue, ClientError> {
        match method {
            "createwallet" => Err(ClientError::RpcError(String::from(
                "Wallet \"main\" already exists.",
            ))),
            "loadwallet" => Err(ClientError::RpcError(String::from("wallet file corrupted"))),
            _ => Err(ClientError::RpcError(String::from("unexpected"))),
        }
    }

    fn get_balance(
        &self,
        _account: Option<&str>,
        _include_watchonly: Option<bool>,
    ) -> Result<u64, ClientError> {
        Ok(0)
    }

    fn http_get(&self, _url: &str) -> Result<Vec<u8>, ClientError> {
        Ok(Vec::new())
    }
}

#[test]
fn test_wallet_load_failure_surfaces_load_message() {
    let client = SyscoinClient::new(UnloadableWalletNode, "http://poda/");
    let err = client.create_or_load_wallet("main").unwrap_err();
    assert!(matches!(err, ClientError::WalletError(_)));
    assert_eq!(err.message(), "wallet file corrupted");
}

/// A node stub answering a malformed blob-creation envelope: the facade must
/// report `MalformedResponse`, not invent a hash.
struct MalformedNode;

impl RpcClient for MalformedNode {
    fn call(&self, _method: &str, _params: &Vec<JsonValue>) -> Result<JsonValue, ClientError> {
        Ok(envelope(JsonValue::String(String::from("not an object"))))
    }

    fn get_balance(
        &self,
        _account: Option<&str>,
        _include_watchonly: Option<bool>,
    ) -> Result<u64, ClientError> {
        Ok(0)
    }

    fn http_get(&self, _url: &str) -> Result<Vec<u8>, ClientError> {
        // Not hex: decoding must fail rather than hand the body through.
        Ok(vec![1, 2, 3])
    }
}

#[test]
fn test_create_blob_malformed_envelope() {
    let client = SyscoinClient::new(MalformedNode, "http://poda/");
    let err = client.create_blob(&[9, 9]).unwrap_err();
    assert!(matches!(err, ClientError::MalformedResponse));
}

#[test]
fn test_get_blob_from_cloud_non_hex_body_is_decode_error() {
    let client = SyscoinClient::new(MalformedNode, "http://poda/");
    let err = client.get_blob_from_cloud("h").unwrap_err();
    assert!(matches!(err, ClientError::DecodeError));
}
