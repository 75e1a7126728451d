//! The byte-level edge of the decoder: raw bytes are parsed into a [`Json`]
//! value by an outside JSON parser, and everything after that parse is
//! verified against [`parsed_json`], the name given to the parse's outcome.

use vstd::prelude::*;

use crate::decode::{decode_request, spec_decode_request, spec_decode_view};
use crate::json::{Json, JsonField, JsonV};
use crate::vapi::{DecodeError, DecodeErrorV, VapiPayload, VapiPayloadV};

verus! {

/// The outside parser's value type; opaque here, only carried between the
/// parse and the conversion into [`Json`].
#[verifier::external_type_specification]
#[verifier::external_body]
pub struct ExValue(serde_json::Value);

/// What a byte sequence parses to: `None` when the bytes are not JSON, or
/// hold a number that is not an `i64`; the outcome depends on the bytes
/// alone.
pub uninterp spec fn parsed_json(s: Seq<u8>) -> Option<JsonV>;

/// Helper of [`parse_json`]: rebuilds an outside parser's value in the
/// library's own representation, refusing non-integer numbers.  It carries
/// no contract of its own; [`parse_json`]'s contract covers the composite.
#[verifier::external_body]
fn json_of_value(v: serde_json::Value) -> Option<Json> {
    match v {
        serde_json::Value::Null => Some(Json::Null),
        serde_json::Value::Bool(b) => Some(Json::Bool(b)),
        serde_json::Value::Number(n) => n.as_i64().map(Json::Int),
        serde_json::Value::String(s) => Some(Json::Str(s)),
        serde_json::Value::Array(a) => a.into_iter().map(json_of_value).collect::<Option<Vec<Json>>>().map(Json::Arr),
        serde_json::Value::Object(m) => m.into_iter().map(
            |kv| json_of_value(kv.1).map(|value| JsonField { key: kv.0, value }),
        ).collect::<Option<Vec<JsonField>>>().map(Json::Obj),
    }
}

/// Relies on `serde_json::from_slice::<serde_json::Value>`: parsing is a
/// pure function of the bytes, so the outcome is exactly [`parsed_json`] of
/// them.
#[verifier::external_body]
fn parse_json(s: &[u8]) -> (r: Option<Json>)
    ensures
        match r {
            Some(j) => parsed_json(s@) == Some(j.deep_view()),
            None => parsed_json(s@) is None,
        },
{
    serde_json::from_slice::<serde_json::Value>(s).ok().and_then(json_of_value)
}

/// Parses raw bytes into a [`Json`] value: `Some` exactly when
/// [`parsed_json`] holds a value for these bytes.
pub fn json_from_bytes(s: &[u8]) -> (r: Option<Json>)
    ensures
        match r {
            Some(j) => parsed_json(s@) == Some(j.deep_view()),
            None => parsed_json(s@) is None,
        },
{
    parse_json(s)
}

/// What decoding raw envelope bytes yields: bytes that are not JSON are
/// refused outright; otherwise the parsed value is decoded.
pub open spec fn spec_decode_bytes(s: Seq<u8>) -> Result<VapiPayloadV, DecodeErrorV> {
    match parsed_json(s) {
        None => Err(DecodeErrorV::InvalidJson),
        Some(v) => spec_decode_request(v),
    }
}

/// Decodes a whole inbound envelope from its raw bytes.
pub fn decode_request_bytes(s: &[u8]) -> (r: Result<VapiPayload, DecodeError>)
    ensures
        spec_decode_view(r) == spec_decode_bytes(s@),
{
    match parse_json(s) {
        None => Err(DecodeError::InvalidJson),
        Some(j) => decode_request(&j),
    }
}

/// Decoding is a pure function of the input bytes: two decodes of equal
/// byte sequences yield equal outcomes, so decoding the same bytes twice
/// yields structurally equal events.
pub proof fn lemma_decode_bytes_deterministic(s1: Seq<u8>, s2: Seq<u8>)
    requires
        s1 == s2,
    ensures
        spec_decode_bytes(s1) == spec_decode_bytes(s2),
{
}

} // verus!
