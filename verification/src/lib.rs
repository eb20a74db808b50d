//! A thin client library that bridges a blockchain node's JSON-RPC interface
//! with a companion cloud blob-storage service: balance queries, on-chain blob
//! creation, blob retrieval by version hash, wallet setup and basic chain
//! introspection, all behind a transport capability that can be mocked.

pub mod client;
pub mod errors;
pub mod hexcodec;
pub mod json;
pub mod strutil;

pub use errors::ClientError;
