//! The transport capability and the orchestration façade.
//!
//! The transport trait abstracts "talk to the node": an arbitrary named RPC
//! call, a specialized balance accessor, and a plain HTTP GET. Each method's
//! contract is delimited by three spec functions — which successful results
//! are possible, which errors are possible, and on which inputs the method
//! cannot fail. A real network transport constrains little; the mock pins
//! every outcome down, which is what makes the canned-response laws provable.

use vstd::prelude::*;
use vstd::string::StringExecFns;
use crate::errors::{ClientError, err_msg};
use crate::json::{JsonValue, obj_get_spec, obj_get, obj_take};
use crate::hexcodec::{
    hex_chars_of,
    is_hex_seq,
    is_hex_digit_byte,
    nibble_val,
    bytes_of_hex,
    encode_blob_payload,
    decode_blob_payload,
};
use crate::strutil::{contains_seq, ends_with_seq, str_eq, str_contains, str_ends_with};

verus! {

/// The parameter list is a single string with the given characters.
pub open spec fn single_string_params(params: Seq<JsonValue>, s: Seq<char>) -> bool {
    &&& params.len() == 1
    &&& params[0] matches JsonValue::String(t)
    &&& t@ == s
}

/// The parameter list is empty.
pub open spec fn no_params(params: Seq<JsonValue>) -> bool {
    params.len() == 0
}

/// The view of an optional string argument.
pub open spec fn opt_str_view(a: Option<&str>) -> Option<Seq<char>> {
    match a {
        Some(s) => Some(s@),
        None => None,
    }
}

/// The transport capability: "perform a named RPC call" and "perform an HTTP
/// GET" behind a polymorphic contract, so the façade is transport-agnostic
/// and a mock can stand in for the network. The contracts promise success
/// only where `*_total` holds; a caller that shares one client value across
/// threads must make sure the underlying transport tolerates concurrent
/// calls, which this layer does not itself guarantee.
pub trait RpcClient: Sized {
    /// The successful envelopes that `call` may return. By default anything:
    /// a real network transport promises nothing of the remote side.
    open spec fn call_ok(&self, method: Seq<char>, params: Seq<JsonValue>, resp: JsonValue) -> bool {
        true
    }

    /// The errors that `call` may return.
    open spec fn call_err(&self, method: Seq<char>, params: Seq<JsonValue>, e: ClientError) -> bool {
        true
    }

    /// Inputs on which `call` cannot fail. By default none.
    open spec fn call_total(&self, method: Seq<char>, params: Seq<JsonValue>) -> bool {
        false
    }

    /// The balances, in satoshis, that `get_balance` may report.
    open spec fn balance_ok(&self, account: Option<Seq<char>>, watch: Option<bool>, sats: u64) -> bool {
        true
    }

    /// The errors that `get_balance` may return.
    open spec fn balance_err(&self, account: Option<Seq<char>>, watch: Option<bool>, e: ClientError) -> bool {
        true
    }

    /// Inputs on which `get_balance` cannot fail. By default none.
    open spec fn balance_total(&self, account: Option<Seq<char>>, watch: Option<bool>) -> bool {
        false
    }

    /// The bodies that `http_get` may return for a URL.
    open spec fn http_ok(&self, url: Seq<char>, body: Seq<u8>) -> bool {
        true
    }

    /// The errors that `http_get` may return.
    open spec fn http_err(&self, url: Seq<char>, e: ClientError) -> bool {
        true
    }

    /// URLs on which `http_get` cannot fail. By default none.
    open spec fn http_total(&self, url: Seq<char>) -> bool {
        false
    }

    /// Invoke a named remote procedure with ordered parameters; no retries.
    /// The caller interprets the shape of the returned envelope.
    fn call(&self, method: &str, params: &Vec<JsonValue>) -> (r: Result<JsonValue, ClientError>)
        ensures
            match r {
                Ok(resp) => self.call_ok(method@, params@, resp),
                Err(e) => !self.call_total(method@, params@) && self.call_err(
                    method@,
                    params@,
                    e,
                ),
            },
    ;

    /// Wallet balance in satoshis, optionally filtered by account and
    /// watch-only inclusion.
    fn get_balance(&self, account: Option<&str>, include_watchonly: Option<bool>) -> (r: Result<
        u64,
        ClientError,
    >)
        ensures
            match r {
                Ok(sats) => self.balance_ok(opt_str_view(account), include_watchonly, sats),
                Err(e) => !self.balance_total(opt_str_view(account), include_watchonly)
                    && self.balance_err(opt_str_view(account), include_watchonly, e),
            },
    ;

    /// Fetch the full body of a URL; no streaming, the whole response is
    /// buffered.
    fn http_get(&self, url: &str) -> (r: Result<Vec<u8>, ClientError>)
        ensures
            match r {
                Ok(body) => self.http_ok(url@, body@),
                Err(e) => !self.http_total(url@) && self.http_err(url@, e),
            },
    ;
}

// ---------------------------------------------------------------------------
// Response-shape extraction, verified against the envelope model.
// ---------------------------------------------------------------------------

/// The `result` field of an envelope.
pub open spec fn result_of(resp: JsonValue) -> Option<JsonValue> {
    match resp {
        JsonValue::Object(entries) => obj_get_spec(entries@, "result"@),
        _ => None,
    }
}

/// `result.versionhash` as a string, if the envelope has that shape.
pub open spec fn version_hash_of(resp: JsonValue) -> Option<Seq<char>> {
    match result_of(resp) {
        Some(JsonValue::Object(inner)) => match obj_get_spec(inner@, "versionhash"@) {
            Some(JsonValue::String(s)) => Some(s@),
            _ => None,
        },
        _ => None,
    }
}

/// The `result` field as a string.
pub open spec fn string_result_of(resp: JsonValue) -> Option<Seq<char>> {
    match result_of(resp) {
        Some(JsonValue::String(s)) => Some(s@),
        _ => None,
    }
}

/// The `result` field as an integral number.
pub open spec fn number_result_of(resp: JsonValue) -> Option<i64> {
    match result_of(resp) {
        Some(JsonValue::Number(n)) => Some(n),
        _ => None,
    }
}

/// The entries of the `result` field as an object: the address set of a
/// label lookup, keyed by address.
pub open spec fn address_entries_of(resp: JsonValue) -> Option<Seq<(String, JsonValue)>> {
    match result_of(resp) {
        Some(JsonValue::Object(es)) => Some(es@),
        _ => None,
    }
}

/// Extract `result.versionhash` from an envelope; `MalformedResponse` exactly
/// when the field is absent or not a string.
pub fn extract_version_hash(resp: &JsonValue) -> (r: Result<String, ClientError>)
    ensures
        match r {
            Ok(h) => version_hash_of(*resp) == Some(h@),
            Err(e) => e is MalformedResponse && version_hash_of(*resp) is None,
        },
{
    match resp {
        JsonValue::Object(entries) => match obj_get(entries, "result") {
            Some(JsonValue::Object(inner)) => match obj_get(inner, "versionhash") {
                Some(JsonValue::String(s)) => Ok(s.clone()),
                _ => Err(ClientError::MalformedResponse),
            },
            _ => Err(ClientError::MalformedResponse),
        },
        _ => Err(ClientError::MalformedResponse),
    }
}

/// Extract the `result` field as a string; `MalformedResponse` exactly when
/// it is absent or not a string.
pub fn extract_string_result(resp: &JsonValue) -> (r: Result<String, ClientError>)
    ensures
        match r {
            Ok(s) => string_result_of(*resp) == Some(s@),
            Err(e) => e is MalformedResponse && string_result_of(*resp) is None,
        },
{
    match resp {
        JsonValue::Object(entries) => match obj_get(entries, "result") {
            Some(JsonValue::String(s)) => Ok(s.clone()),
            _ => Err(ClientError::MalformedResponse),
        },
        _ => Err(ClientError::MalformedResponse),
    }
}

/// Extract the `result` field as a chain height; `MalformedResponse` exactly
/// when it is absent, not a number, or negative.
pub fn extract_block_number(resp: &JsonValue) -> (r: Result<u64, ClientError>)
    ensures
        match r {
            Ok(n) => number_result_of(*resp) matches Some(v) && v >= 0 && n == v as u64,
            Err(e) => e is MalformedResponse && (number_result_of(*resp) is None
                || (number_result_of(*resp) matches Some(v) && v < 0)),
        },
{
    match resp {
        JsonValue::Object(entries) => match obj_get(entries, "result") {
            Some(JsonValue::Number(n)) => {
                let v = *n;
                if v >= 0 {
                    Ok(v as u64)
                } else {
                    Err(ClientError::MalformedResponse)
                }
            },
            _ => Err(ClientError::MalformedResponse),
        },
        _ => Err(ClientError::MalformedResponse),
    }
}

/// The first address of a label lookup envelope. The node returns the address
/// set as an object keyed by address, and the service gives no iteration
/// order: with several addresses under one label, which is first is
/// implementation-defined. An empty set is `NotFound`, never a default
/// address.
pub fn first_label_address(resp: &JsonValue) -> (r: Result<String, ClientError>)
    ensures
        match r {
            Ok(a) => address_entries_of(*resp) matches Some(es) && es.len() > 0 && es[0].0@
                == a@,
            Err(e) => {
                ||| (e is NotFound && (address_entries_of(*resp) matches Some(es) && es.len()
                    == 0))
                ||| (e is MalformedResponse && address_entries_of(*resp) is None)
            },
        },
{
    match resp {
        JsonValue::Object(entries) => match obj_get(entries, "result") {
            Some(JsonValue::Object(es)) => {
                if es.len() == 0 {
                    Err(ClientError::NotFound)
                } else {
                    Ok(es[0].0.clone())
                }
            },
            _ => Err(ClientError::MalformedResponse),
        },
        _ => Err(ClientError::MalformedResponse),
    }
}

/// Take the `result` field out of an envelope, mapping JSON `null` to "no
/// record"; `MalformedResponse` exactly when the field is absent.
pub fn take_result(resp: JsonValue) -> (r: Result<Option<JsonValue>, ClientError>)
    ensures
        match r {
            Ok(opt) => match opt {
                None => result_of(resp) matches Some(v) && v is Null,
                Some(v) => result_of(resp) == Some(v) && !(v is Null),
            },
            Err(e) => e is MalformedResponse && result_of(resp) is None,
        },
{
    match resp {
        JsonValue::Object(entries) => {
            let mut es = entries;
            match obj_take(&mut es, "result") {
                Some(v) => match v {
                    JsonValue::Null => Ok(None),
                    other => Ok(Some(other)),
                },
                None => Err(ClientError::MalformedResponse),
            }
        },
        _ => Err(ClientError::MalformedResponse),
    }
}

// ---------------------------------------------------------------------------
// The orchestration façade.
// ---------------------------------------------------------------------------

/// What `create_blob` guarantees: on success, some envelope the transport may
/// return for `syscoincreatenevmblob` applied to the hex-encoded payload
/// carries exactly the returned hash under `result.versionhash`; on failure,
/// either such an envelope lacked the field, or the transport itself failed
/// on an input where it was allowed to.
pub open spec fn create_blob_post<T: RpcClient>(
    t: T,
    data: Seq<u8>,
    r: Result<String, ClientError>,
) -> bool {
    let m = "syscoincreatenevmblob"@;
    let h = hex_chars_of(data);
    match r {
        Ok(hash) => exists|params: Seq<JsonValue>, resp: JsonValue|
            single_string_params(params, h) && #[trigger] t.call_ok(m, params, resp)
                && version_hash_of(resp) == Some(hash@),
        Err(e) => {
            ||| (e is MalformedResponse && exists|params: Seq<JsonValue>, resp: JsonValue|
                single_string_params(params, h) && #[trigger] t.call_ok(m, params, resp)
                    && version_hash_of(resp) is None)
            ||| (exists|params: Seq<JsonValue>|
                single_string_params(params, h) && !t.call_total(m, params)
                    && #[trigger] t.call_err(m, params, e))
        },
    }
}

/// What `get_balance` guarantees: the reported satoshis are a balance the
/// transport may report with no account filter and no watch-only inclusion.
pub open spec fn balance_post<T: RpcClient>(t: T, r: Result<u64, ClientError>) -> bool {
    match r {
        Ok(sats) => t.balance_ok(None, None, sats),
        Err(e) => !t.balance_total(None, None) && t.balance_err(None, None, e),
    }
}

/// What `get_blob_from_cloud` guarantees: on success, some body the transport
/// may serve for `{base}{version_hash}` is well-formed hex and decodes to the
/// returned bytes; `DecodeError` exactly for a served body that is not hex;
/// otherwise the transport failed where it was allowed to.
pub open spec fn blob_fetch_post<T: RpcClient>(
    t: T,
    base: Seq<char>,
    version_hash: Seq<char>,
    r: Result<Vec<u8>, ClientError>,
) -> bool {
    let url = base + version_hash;
    match r {
        Ok(bytes) => exists|body: Seq<u8>|
            #[trigger] t.http_ok(url, body) && is_hex_seq(body) && bytes@ == bytes_of_hex(body),
        Err(e) => {
            ||| (e is DecodeError && exists|body: Seq<u8>|
                #[trigger] t.http_ok(url, body) && !is_hex_seq(body))
            ||| (!t.http_total(url) && t.http_err(url, e))
        },
    }
}

/// What `get_new_address` guarantees.
pub open spec fn new_address_post<T: RpcClient>(
    t: T,
    label: Seq<char>,
    r: Result<String, ClientError>,
) -> bool {
    let m = "getnewaddress"@;
    match r {
        Ok(a) => exists|params: Seq<JsonValue>, resp: JsonValue|
            single_string_params(params, label) && #[trigger] t.call_ok(m, params, resp)
                && string_result_of(resp) == Some(a@),
        Err(e) => {
            ||| (e is MalformedResponse && exists|params: Seq<JsonValue>, resp: JsonValue|
                single_string_params(params, label) && #[trigger] t.call_ok(m, params, resp)
                    && string_result_of(resp) is None)
            ||| (exists|params: Seq<JsonValue>|
                single_string_params(params, label) && !t.call_total(m, params)
                    && #[trigger] t.call_err(m, params, e))
        },
    }
}

/// What `fetch_address_by_label` guarantees: the returned address is the
/// first of the (unordered) address set the node associated with the label;
/// `NotFound` exactly for an empty set.
pub open spec fn address_by_label_post<T: RpcClient>(
    t: T,
    label: Seq<char>,
    r: Result<String, ClientError>,
) -> bool {
    let m = "getaddressesbylabel"@;
    match r {
        Ok(a) => exists|params: Seq<JsonValue>, resp: JsonValue|
            single_string_params(params, label) && #[trigger] t.call_ok(m, params, resp) && (
            address_entries_of(resp) matches Some(es) && es.len() > 0 && es[0].0@ == a@),
        Err(e) => {
            ||| (e is NotFound && exists|params: Seq<JsonValue>, resp: JsonValue|
                single_string_params(params, label) && #[trigger] t.call_ok(m, params, resp) && (
                address_entries_of(resp) matches Some(es) && es.len() == 0))
            ||| (e is MalformedResponse && exists|params: Seq<JsonValue>, resp: JsonValue|
                single_string_params(params, label) && #[trigger] t.call_ok(m, params, resp)
                    && address_entries_of(resp) is None)
            ||| (exists|params: Seq<JsonValue>|
                single_string_params(params, label) && !t.call_total(m, params)
                    && #[trigger] t.call_err(m, params, e))
        },
    }
}

/// What `block_number` guarantees: the returned height is the nonnegative
/// number some `getblockcount` envelope carried.
pub open spec fn block_number_post<T: RpcClient>(t: T, r: Result<u64, ClientError>) -> bool {
    let m = "getblockcount"@;
    match r {
        Ok(n) => exists|params: Seq<JsonValue>, resp: JsonValue|
            no_params(params) && #[trigger] t.call_ok(m, params, resp) && (number_result_of(resp)
                matches Some(v) && v >= 0 && n == v as u64),
        Err(e) => {
            ||| (e is MalformedResponse && exists|params: Seq<JsonValue>, resp: JsonValue|
                no_params(params) && #[trigger] t.call_ok(m, params, resp) && (number_result_of(
                    resp,
                ) is None || (number_result_of(resp) matches Some(v) && v < 0)))
            ||| (exists|params: Seq<JsonValue>|
                no_params(params) && !t.call_total(m, params) && #[trigger] t.call_err(
                    m,
                    params,
                    e,
                ))
        },
    }
}

/// What `transaction_receipt` guarantees: `None` exactly when the node
/// answered `null` for the hash, the metadata document otherwise.
pub open spec fn receipt_post<T: RpcClient>(
    t: T,
    version_hash: Seq<char>,
    r: Result<Option<JsonValue>, ClientError>,
) -> bool {
    let m = "getnevmblobdata"@;
    match r {
        Ok(opt) => exists|params: Seq<JsonValue>, resp: JsonValue|
            single_string_params(params, version_hash) && #[trigger] t.call_ok(m, params, resp)
                && (match opt {
                None => result_of(resp) matches Some(v) && v is Null,
                Some(v) => result_of(resp) == Some(v) && !(v is Null),
            }),
        Err(e) => {
            ||| (e is MalformedResponse && exists|params: Seq<JsonValue>, resp: JsonValue|
                single_string_params(params, version_hash) && #[trigger] t.call_ok(m, params, resp)
                    && result_of(resp) is None)
            ||| (exists|params: Seq<JsonValue>|
                single_string_params(params, version_hash) && !t.call_total(m, params)
                    && #[trigger] t.call_err(m, params, e))
        },
    }
}

/// What `create_or_load_wallet` guarantees: success came from a successful
/// create, or from a create failure whose message contains "already exists"
/// followed by a successful load; a `WalletError` carries the message of the
/// failure that ended the sequence.
pub open spec fn wallet_post<T: RpcClient>(
    t: T,
    name: Seq<char>,
    r: Result<(), ClientError>,
) -> bool {
    let mc = "createwallet"@;
    let ml = "loadwallet"@;
    let marker = "already exists"@;
    match r {
        Ok(_) => {
            ||| (exists|params: Seq<JsonValue>, resp: JsonValue|
                single_string_params(params, name) && #[trigger] t.call_ok(mc, params, resp))
            ||| (exists|params: Seq<JsonValue>, e: ClientError, params2: Seq<JsonValue>, resp: JsonValue|
                single_string_params(params, name) && !t.call_total(mc, params)
                    && #[trigger] t.call_err(mc, params, e) && contains_seq(err_msg(e), marker)
                    && single_string_params(params2, name) && #[trigger] t.call_ok(
                    ml,
                    params2,
                    resp,
                ))
        },
        Err(we) => we matches ClientError::WalletError(msg) && {
            ||| (exists|params: Seq<JsonValue>, e: ClientError|
                single_string_params(params, name) && !t.call_total(mc, params)
                    && #[trigger] t.call_err(mc, params, e) && !contains_seq(err_msg(e), marker)
                    && msg@ == err_msg(e))
            ||| (exists|params: Seq<JsonValue>, e: ClientError, params2: Seq<JsonValue>, e2: ClientError|
                single_string_params(params, name) && !t.call_total(mc, params)
                    && #[trigger] t.call_err(mc, params, e) && contains_seq(err_msg(e), marker)
                    && single_string_params(params2, name) && !t.call_total(ml, params2)
                    && #[trigger] t.call_err(ml, params2, e2) && msg@ == err_msg(e2))
        },
    }
}

/// The orchestration façade: domain operations in terms of the transport
/// capability, with response-shape validation. Holds only immutable
/// configuration plus the transport handle; safe to treat as immutable after
/// construction.
pub struct SyscoinClient<T: RpcClient> {
    rpc_client: T,
    poda_url: String,
}

impl<T: RpcClient> SyscoinClient<T> {
    /// The injected transport.
    pub closed spec fn transport(&self) -> T {
        self.rpc_client
    }

    /// The configured cloud base URL.
    pub closed spec fn poda_base(&self) -> Seq<char> {
        self.poda_url@
    }

    pub fn new(rpc_client: T, poda_url: &str) -> (r: Self)
        ensures
            r.transport() == rpc_client,
            r.poda_base() == poda_url@,
    {
        SyscoinClient { rpc_client, poda_url: String::from_str(poda_url) }
    }

    /// Hex-encode `data`, invoke `syscoincreatenevmblob`, and extract
    /// `result.versionhash`. Empty input is allowed: the encoding of no bytes
    /// is the empty string and the remote call is still made.
    pub fn create_blob(&self, data: &[u8]) -> (r: Result<String, ClientError>)
        ensures
            create_blob_post(self.transport(), data@, r),
    {
        let payload = encode_blob_payload(data);
        let mut params: Vec<JsonValue> = Vec::new();
        params.push(JsonValue::String(payload));
        match self.rpc_client.call("syscoincreatenevmblob", &params) {
            Ok(resp) => match extract_version_hash(&resp) {
                Ok(h) => Ok(h),
                Err(e) => Err(e),
            },
            Err(e) => Err(e),
        }
    }

    /// Balance with no account filter and no watch-only inclusion, in
    /// satoshis.
    pub fn get_balance(&self) -> (r: Result<u64, ClientError>)
        ensures
            balance_post(self.transport(), r),
    {
        self.rpc_client.get_balance(None, None)
    }

    /// Fetch `{base_url}{version_hash}` and hex-decode the body.
    pub fn get_blob_from_cloud(&self, version_hash: &str) -> (r: Result<Vec<u8>, ClientError>)
        ensures
            blob_fetch_post(self.transport(), self.poda_base(), version_hash@, r),
    {
        let url = self.poda_url.clone().concat(version_hash);
        match self.rpc_client.http_get(url.as_str()) {
            Ok(body) => decode_blob_payload(body.as_slice()),
            Err(e) => Err(e),
        }
    }

    /// Request a new address from the node, tagged with `label`.
    pub fn get_new_address(&self, label: &str) -> (r: Result<String, ClientError>)
        ensures
            new_address_post(self.transport(), label@, r),
    {
        let mut params: Vec<JsonValue> = Vec::new();
        params.push(JsonValue::String(String::from_str(label)));
        match self.rpc_client.call("getnewaddress", &params) {
            Ok(resp) => match extract_string_result(&resp) {
                Ok(a) => Ok(a),
                Err(e) => Err(e),
            },
            Err(e) => Err(e),
        }
    }

    /// Look up the addresses already associated with `label` and return the
    /// first found; the underlying set is unordered, so with several
    /// addresses under one label, which one comes back is
    /// implementation-defined. `NotFound` exactly for an empty set.
    pub fn fetch_address_by_label(&self, label: &str) -> (r: Result<String, ClientError>)
        ensures
            address_by_label_post(self.transport(), label@, r),
    {
        let mut params: Vec<JsonValue> = Vec::new();
        params.push(JsonValue::String(String::from_str(label)));
        match self.rpc_client.call("getaddressesbylabel", &params) {
            Ok(resp) => match first_label_address(&resp) {
                Ok(a) => Ok(a),
                Err(e) => Err(e),
            },
            Err(e) => Err(e),
        }
    }

    /// Current chain height.
    pub fn block_number(&self) -> (r: Result<u64, ClientError>)
        ensures
            block_number_post(self.transport(), r),
    {
        let params: Vec<JsonValue> = Vec::new();
        match self.rpc_client.call("getblockcount", &params) {
            Ok(resp) => match extract_block_number(&resp) {
                Ok(n) => Ok(n),
                Err(e) => Err(e),
            },
            Err(e) => Err(e),
        }
    }

    /// Blob metadata by version hash; `None` when no matching record exists
    /// (the node answers `null`).
    pub fn transaction_receipt(&self, version_hash: &str) -> (r: Result<
        Option<JsonValue>,
        ClientError,
    >)
        ensures
            receipt_post(self.transport(), version_hash@, r),
    {
        let mut params: Vec<JsonValue> = Vec::new();
        params.push(JsonValue::String(String::from_str(version_hash)));
        match self.rpc_client.call("getnevmblobdata", &params) {
            Ok(resp) => match take_result(resp) {
                Ok(opt) => Ok(opt),
                Err(e) => Err(e),
            },
            Err(e) => Err(e),
        }
    }

    /// Attempt wallet creation; if it fails because the wallet already exists
    /// — detected by substring match on the error message, a fragile but
    /// intentional heuristic — attempt to load it instead. Any other create
    /// failure, or a failure during the fallback load, surfaces as
    /// `WalletError` with the underlying message attached.
    pub fn create_or_load_wallet(&self, wallet_name: &str) -> (r: Result<(), ClientError>)
        ensures
            wallet_post(self.transport(), wallet_name@, r),
    {
        let mut params: Vec<JsonValue> = Vec::new();
        params.push(JsonValue::String(String::from_str(wallet_name)));
        match self.rpc_client.call("createwallet", &params) {
            Ok(_) => Ok(()),
            Err(e) => {
                let msg = e.message();
                if str_contains(msg.as_str(), "already exists") {
                    let mut params2: Vec<JsonValue> = Vec::new();
                    params2.push(JsonValue::String(String::from_str(wallet_name)));
                    match self.rpc_client.call("loadwallet", &params2) {
                        Ok(_) => Ok(()),
                        Err(e2) => Err(ClientError::WalletError(e2.message())),
                    }
                } else {
                    Err(ClientError::WalletError(msg))
                }
            },
        }
    }
}

// ---------------------------------------------------------------------------
// The mock transport.
// ---------------------------------------------------------------------------

/// The canned version hash the mock returns for blob creation.
pub open spec fn mock_version_hash() -> Seq<char> {
    "mocked_hash"@
}

/// The canned balance: 100 coins, in satoshis.
pub open spec fn mock_balance_sats() -> u64 {
    10_000_000_000u64
}

/// The canned blob body: the hex encoding of the bytes `[1, 2, 3]`, as ASCII.
pub open spec fn mock_blob_body() -> Seq<u8> {
    seq![48u8, 49u8, 48u8, 50u8, 48u8, 51u8]
}

/// The URL suffix the mock recognizes.
pub open spec fn mock_url_suffix() -> Seq<char> {
    "mocked_version_hash"@
}

/// The canned blob-creation envelope:
/// `{"result": {"versionhash": "mocked_hash"}}`.
pub open spec fn is_mock_blob_envelope(resp: JsonValue) -> bool {
    &&& resp matches JsonValue::Object(entries)
    &&& entries@.len() == 1
    &&& entries@[0].0@ == "result"@
    &&& entries@[0].1 matches JsonValue::Object(inner)
    &&& inner@.len() == 1
    &&& inner@[0].0@ == "versionhash"@
    &&& inner@[0].1 matches JsonValue::String(s)
    &&& s@ == mock_version_hash()
}

/// The canned envelope carries exactly the canned hash.
proof fn lemma_mock_envelope_hash(resp: JsonValue)
    requires
        is_mock_blob_envelope(resp),
    ensures
        version_hash_of(resp) == Some(mock_version_hash()),
{
}

/// The mock transport: fixed canned responses keyed by method name or URL
/// suffix, with no network access, for deterministic testing.
pub struct MockRpcClient;

impl RpcClient for MockRpcClient {
    open spec fn call_ok(&self, method: Seq<char>, params: Seq<JsonValue>, resp: JsonValue) -> bool {
        method == "syscoincreatenevmblob"@ && is_mock_blob_envelope(resp)
    }

    open spec fn call_err(&self, method: Seq<char>, params: Seq<JsonValue>, e: ClientError) -> bool {
        &&& method != "syscoincreatenevmblob"@
        &&& e matches ClientError::RpcError(m)
        &&& m@ == "Unsupported RPC method: "@ + method
    }

    open spec fn call_total(&self, method: Seq<char>, params: Seq<JsonValue>) -> bool {
        method == "syscoincreatenevmblob"@
    }

    open spec fn balance_ok(&self, account: Option<Seq<char>>, watch: Option<bool>, sats: u64) -> bool {
        sats == mock_balance_sats()
    }

    open spec fn balance_err(&self, account: Option<Seq<char>>, watch: Option<bool>, e: ClientError) -> bool {
        false
    }

    open spec fn balance_total(&self, account: Option<Seq<char>>, watch: Option<bool>) -> bool {
        true
    }

    open spec fn http_ok(&self, url: Seq<char>, body: Seq<u8>) -> bool {
        ends_with_seq(url, mock_url_suffix()) && body == mock_blob_body()
    }

    open spec fn http_err(&self, url: Seq<char>, e: ClientError) -> bool {
        &&& !ends_with_seq(url, mock_url_suffix())
        &&& e matches ClientError::TransportError(m)
        &&& m@ == "Mocked HTTP error"@
    }

    open spec fn http_total(&self, url: Seq<char>) -> bool {
        ends_with_seq(url, mock_url_suffix())
    }

    fn call(&self, method: &str, params: &Vec<JsonValue>) -> (r: Result<JsonValue, ClientError>) {
        if str_eq(method, "syscoincreatenevmblob") {
            let mut inner: Vec<(String, JsonValue)> = Vec::new();
            inner.push(
                (String::from_str("versionhash"), JsonValue::String(String::from_str(
                    "mocked_hash",
                ))),
            );
            let mut outer: Vec<(String, JsonValue)> = Vec::new();
            outer.push((String::from_str("result"), JsonValue::Object(inner)));
            Ok(JsonValue::Object(outer))
        } else {
            Err(
                ClientError::RpcError(
                    String::from_str("Unsupported RPC method: ").concat(method),
                ),
            )
        }
    }

    fn get_balance(&self, account: Option<&str>, include_watchonly: Option<bool>) -> (r: Result<
        u64,
        ClientError,
    >) {
        Ok(10_000_000_000u64)
    }

    fn http_get(&self, url: &str) -> (r: Result<Vec<u8>, ClientError>) {
        if str_ends_with(url, "mocked_version_hash") {
            let mut body: Vec<u8> = Vec::new();
            body.push(48);
            body.push(49);
            body.push(48);
            body.push(50);
            body.push(48);
            body.push(51);
            assert(body@ =~= mock_blob_body());
            Ok(body)
        } else {
            Err(ClientError::TransportError(String::from_str("Mocked HTTP error")))
        }
    }
}

// ---------------------------------------------------------------------------
// Laws of the mock-backed façade and of the wallet fallback.
// ---------------------------------------------------------------------------

/// Law: under the mock transport, `create_blob` succeeds and returns the
/// canned version hash, whatever the input bytes were — the transport is
/// stubbed, not content-sensitive. In particular this holds of the empty
/// input, whose hex encoding is the empty string.
pub proof fn lemma_mock_create_blob(t: MockRpcClient, data: Seq<u8>, r: Result<String, ClientError>)
    requires
        create_blob_post(t, data, r),
    ensures
        r matches Ok(hash) && hash@ == mock_version_hash(),
{
    let m = "syscoincreatenevmblob"@;
    let h = hex_chars_of(data);
    match r {
        Ok(hash) => {
            let (params, resp) = choose|params: Seq<JsonValue>, resp: JsonValue|
                single_string_params(params, h) && #[trigger] t.call_ok(m, params, resp)
                    && version_hash_of(resp) == Some(hash@);
            lemma_mock_envelope_hash(resp);
        },
        Err(e) => {
            if exists|params: Seq<JsonValue>, resp: JsonValue|
                single_string_params(params, h) && #[trigger] t.call_ok(m, params, resp)
                    && version_hash_of(resp) is None {
                let (params, resp) = choose|params: Seq<JsonValue>, resp: JsonValue|
                    single_string_params(params, h) && #[trigger] t.call_ok(m, params, resp)
                        && version_hash_of(resp) is None;
                lemma_mock_envelope_hash(resp);
                assert(false);
            } else {
                let params = choose|params: Seq<JsonValue>|
                    single_string_params(params, h) && !t.call_total(m, params)
                        && #[trigger] t.call_err(m, params, e);
                assert(false);
            }
        },
    }
}

/// Law: under the mock transport, `get_balance` succeeds and returns exactly
/// the canned amount.
pub proof fn lemma_mock_get_balance(t: MockRpcClient, r: Result<u64, ClientError>)
    requires
        balance_post(t, r),
    ensures
        r matches Ok(sats) && sats == mock_balance_sats(),
{
}

/// The canned body is well-formed hex and decodes to `[1, 2, 3]`.
proof fn lemma_mock_body_decodes()
    ensures
        is_hex_seq(mock_blob_body()),
        bytes_of_hex(mock_blob_body()) == seq![1u8, 2u8, 3u8],
{
    let s = mock_blob_body();
    assert(s.len() == 6);
    assert(is_hex_digit_byte(s[0]) && is_hex_digit_byte(s[1]) && is_hex_digit_byte(s[2])
        && is_hex_digit_byte(s[3]) && is_hex_digit_byte(s[4]) && is_hex_digit_byte(s[5]));
    let s2 = s.skip(2);
    let s4 = s.skip(4);
    assert(s2 =~= seq![48u8, 50u8, 48u8, 51u8]);
    assert(s4 =~= seq![48u8, 51u8]);
    assert(s4.skip(2) =~= Seq::<u8>::empty());
    assert(bytes_of_hex(Seq::<u8>::empty()) == Seq::<u8>::empty());
    assert(nibble_val(48u8) == 0 && nibble_val(49u8) == 1 && nibble_val(50u8) == 2 && nibble_val(
        51u8,
    ) == 3);
    assert(bytes_of_hex(s4) == seq![(nibble_val(s4[0]) * 16 + nibble_val(s4[1])) as u8]
        + bytes_of_hex(s4.skip(2)));
    assert(bytes_of_hex(s4) =~= seq![3u8]);
    assert(bytes_of_hex(s2) == seq![(nibble_val(s2[0]) * 16 + nibble_val(s2[1])) as u8]
        + bytes_of_hex(s2.skip(2)));
    assert(s2.skip(2) =~= s4);
    assert(bytes_of_hex(s2) =~= seq![2u8, 3u8]);
    assert(bytes_of_hex(s) == seq![(nibble_val(s[0]) * 16 + nibble_val(s[1])) as u8]
        + bytes_of_hex(s.skip(2)));
    assert(bytes_of_hex(s) =~= seq![1u8, 2u8, 3u8]);
}

/// Law: under the mock transport, `get_blob_from_cloud` returns exactly the
/// bytes `[1, 2, 3]` whenever the constructed URL ends with the recognized
/// suffix, and fails with the mocked transport error for any other URL.
pub proof fn lemma_mock_blob_fetch(
    t: MockRpcClient,
    base: Seq<char>,
    hash: Seq<char>,
    r: Result<Vec<u8>, ClientError>,
)
    requires
        blob_fetch_post(t, base, hash, r),
    ensures
        ends_with_seq(base + hash, mock_url_suffix()) ==> (r matches Ok(b) && b@ == seq![
            1u8,
            2u8,
            3u8,
        ]),
        !ends_with_seq(base + hash, mock_url_suffix()) ==> (r matches Err(e) && (e matches
            ClientError::TransportError(msg) && msg@ == "Mocked HTTP error"@)),
        hash == mock_url_suffix() ==> (r matches Ok(b) && b@ == seq![1u8, 2u8, 3u8]),
{
    let url = base + hash;
    lemma_mock_body_decodes();
    crate::strutil::lemma_ends_with_append(base, hash);
    match r {
        Ok(bytes) => {
            let body = choose|body: Seq<u8>|
                #[trigger] t.http_ok(url, body) && is_hex_seq(body) && bytes@ == bytes_of_hex(
                    body,
                );
        },
        Err(e) => {
            if exists|body: Seq<u8>| #[trigger] t.http_ok(url, body) && !is_hex_seq(body) {
                let body = choose|body: Seq<u8>| #[trigger] t.http_ok(url, body) && !is_hex_seq(
                    body,
                );
                assert(false);
            }
        },
    }
}

/// Law: when wallet creation can only fail because the wallet already exists,
/// and loading that wallet cannot fail, `create_or_load_wallet` succeeds:
/// the create failure is followed by a load attempt with the same name.
pub proof fn lemma_wallet_fallback<T: RpcClient>(
    t: T,
    name: Seq<char>,
    r: Result<(), ClientError>,
)
    requires
        wallet_post(t, name, r),
        forall|params: Seq<JsonValue>, e: ClientError|
            single_string_params(params, name) && #[trigger] t.call_err("createwallet"@, params, e)
                ==> contains_seq(err_msg(e), "already exists"@),
        forall|params: Seq<JsonValue>|
            single_string_params(params, name) ==> #[trigger] t.call_total("loadwallet"@, params),
    ensures
        r is Ok,
{
    let mc = "createwallet"@;
    let ml = "loadwallet"@;
    let marker = "already exists"@;
    match r {
        Ok(_) => {},
        Err(we) => {
            if exists|params: Seq<JsonValue>, e: ClientError|
                single_string_params(params, name) && !t.call_total(mc, params)
                    && #[trigger] t.call_err(mc, params, e) && !contains_seq(err_msg(e), marker) {
                let (params, e) = choose|params: Seq<JsonValue>, e: ClientError|
                    single_string_params(params, name) && !t.call_total(mc, params)
                        && #[trigger] t.call_err(mc, params, e) && !contains_seq(
                        err_msg(e),
                        marker,
                    );
                assert(contains_seq(err_msg(e), marker));
                assert(false);
            } else {
                let (params, e, params2, e2) = choose|
                    params: Seq<JsonValue>,
                    e: ClientError,
                    params2: Seq<JsonValue>,
                    e2: ClientError,
                |
                    single_string_params(params, name) && !t.call_total(mc, params)
                        && #[trigger] t.call_err(mc, params, e) && contains_seq(err_msg(e), marker)
                        && single_string_params(params2, name) && !t.call_total(ml, params2)
                        && #[trigger] t.call_err(ml, params2, e2);
                assert(t.call_total(ml, params2));
                assert(false);
            }
        },
    }
}

} // verus!

