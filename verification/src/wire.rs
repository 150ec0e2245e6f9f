//! The JSON wire codec at the platform boundary.
//!
//! Invocation payloads arrive as JSON bytes and results leave as JSON
//! bytes. Decoding and encoding are done by serde_json behind the trusted
//! items below; both are pure functions of their input, so each result is
//! named by an uninterpreted spec function that the callers' contracts
//! build on. The shape of an error report — the form the platform's
//! consumers read — is the library's own rule and is built here in verified
//! code.

use vstd::prelude::*;
use vstd::string::StringExecFns;

use crate::errors::{HandlerError, HandlerErrorData};
use crate::value::{host_data_fields, HostValue, JsonData};

verus! {

/// serde_json's value tree, carried opaquely through the trusted
/// conversions below.
#[verifier::external_type_specification]
#[verifier::external_body]
pub struct ExSerdeValue(serde_json::Value);

/// The JSON document the given bytes decode to in the host data model —
/// with numbers restricted to exact 64-bit integers — or nothing when the
/// bytes are not such a document.
pub uninterp spec fn json_document(bytes: Seq<u8>) -> Option<JsonData>;

/// The JSON encoding of the given document.
pub uninterp spec fn wire_bytes(d: JsonData) -> Seq<u8>;

/// Relies on serde_json's value tree: converts it into the host data
/// model, variant by variant. A number without an exact 64-bit integer
/// form has no host representation, so it makes the conversion fail.
#[verifier::external_body]
fn host_value_of(v: &serde_json::Value) -> Option<HostValue> {
    match v {
        serde_json::Value::Null => Some(HostValue::Null),
        serde_json::Value::Bool(b) => Some(HostValue::Bool(*b)),
        serde_json::Value::Number(n) => n.as_i64().map(HostValue::Int),
        serde_json::Value::String(s) => Some(HostValue::Str(s.clone())),
        serde_json::Value::Array(xs) => {
            xs.iter().map(host_value_of).collect::<Option<Vec<HostValue>>>().map(HostValue::Arr)
        }
        serde_json::Value::Object(m) => {
            m.iter().map(|(k, x)| host_value_of(x).map(|h| (k.clone(), h))).collect::<Option<
                Vec<(String, HostValue)>,
            >>().map(HostValue::Obj)
        }
    }
}

/// Relies on serde_json's value tree: builds it from the host data model,
/// variant by variant.
#[verifier::external_body]
fn serde_value_of(v: &HostValue) -> serde_json::Value {
    match v {
        HostValue::Null => serde_json::Value::Null,
        HostValue::Bool(b) => serde_json::Value::Bool(*b),
        HostValue::Int(i) => serde_json::Value::Number((*i).into()),
        HostValue::Str(s) => serde_json::Value::String(s.clone()),
        HostValue::Arr(xs) => serde_json::Value::Array(xs.iter().map(serde_value_of).collect()),
        HostValue::Obj(fs) => serde_json::Value::Object(
            fs.iter().map(|(k, x)| (k.clone(), serde_value_of(x))).collect(),
        ),
    }
}

/// Relies on serde_json::from_slice: decodes one JSON document from bytes,
/// a function of the bytes alone; bytes that are not one JSON document in
/// the host data model decode to nothing.
#[verifier::external_body]
pub fn parse_json(bytes: &Vec<u8>) -> (r: Option<HostValue>)
    ensures
        r matches Some(v) ==> json_document(bytes@) == Some(v@),
        r is None ==> json_document(bytes@) is None,
{
    match serde_json::from_slice::<serde_json::Value>(bytes.as_slice()) {
        Ok(v) => host_value_of(&v),
        Err(_) => None,
    }
}

/// Relies on serde_json::to_vec: encodes one JSON document as bytes, a
/// function of the document alone.
#[verifier::external_body]
pub fn encode_json(v: &HostValue) -> (r: Vec<u8>)
    ensures
        r@ == wire_bytes(v@),
{
    serde_json::to_vec(&serde_value_of(v)).unwrap_or_default()
}

/// The JSON-like shape of a reported handler error: a bare client fault is
/// the plain string `"ClientError"`; a server fault is an object with one
/// `ServerError` field holding the description.
pub open spec fn error_wire_data(e: HandlerErrorData) -> JsonData {
    match e {
        HandlerErrorData::ClientError => JsonData::Str("ClientError"@),
        HandlerErrorData::ServerError(m) => JsonData::Obj(
            seq![("ServerError"@, JsonData::Str(m))],
        ),
    }
}

/// Builds the JSON-like value under which a handler error is reported to
/// the platform.
pub fn error_report_value(e: &HandlerError) -> (r: HostValue)
    ensures
        r@ == error_wire_data(e@),
{
    match e {
        HandlerError::ClientError => HostValue::Str(String::from_str("ClientError")),
        HandlerError::ServerError(m) => {
            let mut fields: Vec<(String, HostValue)> = Vec::new();
            fields.push((String::from_str("ServerError"), HostValue::Str(m.clone())));
            proof {
                crate::value::lemma_host_data_fields(fields@);
                assert(host_data_fields(fields@) =~= seq![("ServerError"@, JsonData::Str(m@))]);
            }
            HostValue::Obj(fields)
        }
    }
}

} // verus!
