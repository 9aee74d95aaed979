//! Trusted boundary to the JSON codec. The decoded document type is opaque
//! here; the verified logic only tracks whether a text or byte string is a
//! well-formed document.

use vstd::prelude::*;

verus! {

/// `serde_json::Value`, declared so that decoded JSON documents can be
/// carried through verified code. A value of it is opaque here.
#[verifier::external_type_specification]
#[verifier::external_body]
pub struct ExValue(serde_json::Value);

/// Whether `serde_json::from_str` accepts this text as one JSON document.
pub uninterp spec fn json_wf_text(s: Seq<char>) -> bool;

/// Whether `serde_json::from_slice` accepts these bytes as one JSON document.
pub uninterp spec fn json_wf_bytes(b: Seq<u8>) -> bool;

/// Relies on `serde_json::from_str`: parses one JSON document from text,
/// succeeding exactly on the texts the codec accepts. The `Err` text is the
/// codec's own message.
#[verifier::external_body]
pub(crate) fn parse_json_text(s: &str) -> (r: Result<serde_json::Value, String>)
    ensures
        r is Ok <==> json_wf_text(s@),
{
    match serde_json::from_str::<serde_json::Value>(s) {
        Ok(v) => Ok(v),
        Err(e) => Err(e.to_string()),
    }
}

/// Relies on `serde_json::from_slice`: parses one JSON document from bytes,
/// succeeding exactly on the byte strings the codec accepts.
#[verifier::external_body]
pub(crate) fn parse_json_bytes(b: &Vec<u8>) -> (r: Option<serde_json::Value>)
    ensures
        r is Some <==> json_wf_bytes(b@),
{
    serde_json::from_slice::<serde_json::Value>(b).ok()
}

/// Relies on `serde_json::to_string`: renders a JSON document as text.
/// Serialising a `serde_json::Value` does not fail, since its object keys
/// are always strings; the fallback arm is never taken.
#[verifier::external_body]
pub(crate) fn json_to_text(v: &serde_json::Value) -> String {
    match serde_json::to_string(v) {
        Ok(s) => s,
        Err(_) => String::new(),
    }
}

} // verus!
