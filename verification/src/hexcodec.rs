//! Hex encoding and decoding of blob payloads. The payload is hex-encoded
//! when sent to the node and hex-decoded when received from the cloud
//! endpoint. The encoding itself is performed by the `hex` crate behind
//! trusted wrappers whose contracts state the encoding exactly, so the
//! round-trip law is proved once and for all over the specification.

use vstd::prelude::*;
use crate::errors::ClientError;

verus! {

/// The lowercase hex digit, as an ASCII byte, for a nibble value below 16.
pub open spec fn nibble_ascii(v: u8) -> u8
    recommends
        v < 16,
{
    if v < 10 {
        (48 + v) as u8
    } else {
        (87 + v) as u8
    }
}

/// ASCII bytes of the lowercase hex encoding: two digits per input byte,
/// high nibble first.
pub open spec fn hex_ascii_of(d: Seq<u8>) -> Seq<u8>
    decreases d.len(),
{
    if d.len() == 0 {
        Seq::empty()
    } else {
        seq![nibble_ascii((d[0] / 16) as u8), nibble_ascii((d[0] % 16) as u8)] + hex_ascii_of(
            d.skip(1),
        )
    }
}

/// The hex encoding as characters: what `create_blob` puts in the request.
pub open spec fn hex_chars_of(d: Seq<u8>) -> Seq<char> {
    hex_ascii_of(d).map(|i: int, b: u8| b as char)
}

/// `b` is the ASCII code of a hex digit, of either case.
pub open spec fn is_hex_digit_byte(b: u8) -> bool {
    (48 <= b && b <= 57) || (97 <= b && b <= 102) || (65 <= b && b <= 70)
}

/// The nibble value denoted by a hex digit byte.
pub open spec fn nibble_val(b: u8) -> u8
    recommends
        is_hex_digit_byte(b),
{
    if 48 <= b && b <= 57 {
        (b - 48) as u8
    } else if 97 <= b && b <= 102 {
        (b - 87) as u8
    } else {
        (b - 55) as u8
    }
}

/// A well-formed hex payload: even length, hex digits throughout.
pub open spec fn is_hex_seq(s: Seq<u8>) -> bool {
    s.len() % 2 == 0 && (forall|i: int| 0 <= i < s.len() ==> is_hex_digit_byte(#[trigger] s[i]))
}

/// The bytes denoted by a hex payload: two digits to a byte, high nibble first.
pub open spec fn bytes_of_hex(s: Seq<u8>) -> Seq<u8>
    decreases s.len(),
{
    if s.len() < 2 {
        Seq::empty()
    } else {
        seq![(nibble_val(s[0]) * 16 + nibble_val(s[1])) as u8] + bytes_of_hex(s.skip(2))
    }
}

/// Relies on `hex::encode`: lowercase hex, exactly two digits for each input
/// byte, high nibble first.
#[verifier::external_body]
fn hex_encode(d: &[u8]) -> (r: String)
    ensures
        r@ == hex_chars_of(d@),
{
    hex::encode(d)
}

/// Relies on `hex::decode`: accepts an even-length run of hex digits of either
/// case and rejects anything else (odd length or a non-digit byte).
#[verifier::external_body]
fn hex_decode(s: &[u8]) -> (r: Result<Vec<u8>, ClientError>)
    ensures
        match r {
            Ok(d) => is_hex_seq(s@) && d@ == bytes_of_hex(s@),
            Err(e) => !is_hex_seq(s@) && e is DecodeError,
        },
{
    match hex::decode(s) {
        Ok(v) => Ok(v),
        Err(_) => Err(ClientError::DecodeError),
    }
}

/// Hex-encode a blob payload as it is sent to the node.
pub fn encode_blob_payload(d: &[u8]) -> (r: String)
    ensures
        r@ == hex_chars_of(d@),
{
    hex_encode(d)
}

/// Hex-decode a blob payload as it is received from the cloud endpoint;
/// `DecodeError` exactly when the payload is not well-formed hex.
pub fn decode_blob_payload(s: &[u8]) -> (r: Result<Vec<u8>, ClientError>)
    ensures
        match r {
            Ok(d) => is_hex_seq(s@) && d@ == bytes_of_hex(s@),
            Err(e) => !is_hex_seq(s@) && e is DecodeError,
        },
{
    hex_decode(s)
}

/// Law: the hex encoding of any byte sequence is well-formed hex, and decoding
/// it gives back exactly the original bytes.
pub proof fn lemma_hex_round_trip(d: Seq<u8>)
    ensures
        is_hex_seq(hex_ascii_of(d)),
        bytes_of_hex(hex_ascii_of(d)) == d,
    decreases d.len(),
{
    if d.len() == 0 {
        assert(bytes_of_hex(hex_ascii_of(d)) =~= d);
    } else {
        lemma_hex_round_trip(d.skip(1));
        let s = hex_ascii_of(d);
        let rest = hex_ascii_of(d.skip(1));
        let d0 = d[0];
        let hi = (d0 / 16) as u8;
        let lo = (d0 % 16) as u8;
        let a = nibble_ascii(hi);
        let b = nibble_ascii(lo);
        assert(s == seq![a, b] + rest);
        assert(s.len() == 2 + rest.len());
        assert(s[0] == a && s[1] == b);
        assert(hi < 16 && lo < 16) by (bit_vector)
            requires
                hi == (d0 / 16) as u8 && lo == (d0 % 16) as u8,
        ;
        assert(is_hex_digit_byte(a) && is_hex_digit_byte(b));
        assert(is_hex_seq(s)) by {
            assert forall|i: int| 0 <= i < s.len() implies is_hex_digit_byte(#[trigger] s[i]) by {
                if i >= 2 {
                    assert(s[i] == rest[i - 2]);
                }
            }
        }
        assert(nibble_val(a) == hi && nibble_val(b) == lo);
        let first = (nibble_val(s[0]) * 16 + nibble_val(s[1])) as u8;
        assert(first == ((d0 / 16) as u8 * 16 + (d0 % 16) as u8) as u8);
        assert(first == d0) by (bit_vector)
            requires
                first == ((d0 / 16) as u8 * 16 + (d0 % 16) as u8) as u8,
        ;
        assert(s.skip(2) =~= rest);
        assert(bytes_of_hex(s) == seq![first] + bytes_of_hex(rest));
        assert(bytes_of_hex(s) =~= d);
    }
}

/// Law: the hex encoding of no bytes is the empty string, so blob creation on
/// empty input sends the empty payload rather than failing.
pub proof fn lemma_empty_payload()
    ensures
        hex_chars_of(Seq::<u8>::empty()) == Seq::<char>::empty(),
{
    assert(hex_chars_of(Seq::<u8>::empty()) =~= Seq::<char>::empty());
}

} // verus!
