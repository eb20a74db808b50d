//! The error surface of the library: every public operation either fully
//! succeeds or fails with one of these variants.

use vstd::prelude::*;
use vstd::string::StringExecFns;

verus! {

/// One variant per failure class; the `String` payloads carry the remote or
/// underlying message intact.
#[derive(Debug)]
pub enum ClientError {
    /// Network or connection failure at the RPC or HTTP layer.
    TransportError(String),
    /// The remote call returned an error envelope; the remote message is kept.
    RpcError(String),
    /// The response parsed but lacked an expected field or had the wrong type.
    MalformedResponse,
    /// The payload from the cloud endpoint was not valid hex.
    DecodeError,
    /// A lookup yielded no result.
    NotFound,
    /// The wallet create-or-load sequence failed on both branches.
    WalletError(String),
}

/// The human-readable message carried by an error.
pub open spec fn err_msg(e: ClientError) -> Seq<char> {
    match e {
        ClientError::TransportError(m) => m@,
        ClientError::RpcError(m) => m@,
        ClientError::WalletError(m) => m@,
        ClientError::MalformedResponse => "malformed response"@,
        ClientError::DecodeError => "invalid hex payload"@,
        ClientError::NotFound => "not found"@,
    }
}

impl ClientError {
    /// The message for display; agrees with `err_msg`.
    pub fn message(&self) -> (r: String)
        ensures
            r@ == err_msg(*self),
    {
        match self {
            ClientError::TransportError(m) => m.clone(),
            ClientError::RpcError(m) => m.clone(),
            ClientError::WalletError(m) => m.clone(),
            ClientError::MalformedResponse => String::from_str("malformed response"),
            ClientError::DecodeError => String::from_str("invalid hex payload"),
            ClientError::NotFound => String::from_str("not found"),
        }
    }
}

} // verus!
