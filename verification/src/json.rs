use vstd::prelude::*;

use crate::schema::{RawDoc, RawField};

verus! {

#[verifier::external_type_specification]
#[verifier::external_body]
pub struct ExValue(serde_json::Value);

/// Relies on serde_json::from_slice::<serde_json::Value>: reads a byte
/// body as one JSON value, or fails on malformed input. Nothing about
/// the value's content is assumed.
#[verifier::external_body]
fn parse_json(bytes: &[u8]) -> (r: Option<serde_json::Value>) {
    serde_json::from_slice(bytes).ok()
}

/// Relies on serde_json::Value::get and the accessors as_u64 and
/// collect over as_u64: reads one named field of a JSON object and
/// reduces it to the plain shapes the schema reads, one arm per value
/// kind. Nothing about which field value comes back is assumed.
#[verifier::external_body]
fn json_field(v: &serde_json::Value, name: &str) -> (r: Option<RawField>) {
    match v.get(name)? {
        serde_json::Value::String(s) => Some(RawField::Text(s.clone())),
        serde_json::Value::Bool(b) => Some(RawField::Flag(*b)),
        serde_json::Value::Number(n) => Some(match n.as_u64() {
            Some(u) => RawField::Uint(u),
            None => RawField::Other,
        }),
        serde_json::Value::Array(a) => Some(
            match a.iter().map(serde_json::Value::as_u64).collect::<Option<Vec<u64>>>() {
                Some(xs) => RawField::UintList(xs),
                None => RawField::Other,
            },
        ),
        _ => Some(RawField::Other),
    }
}

/// Parse a byte body into a raw document: one JSON value, each schema
/// field reduced to plain values, `None` for a body that is not JSON.
/// What the fields hold depends on the body alone but is not modeled
/// here: decoding the document into a record carries the exact
/// contract, whatever document the parse produced.
pub fn parse_document(bytes: &[u8]) -> (r: Option<RawDoc>) {
    let v = match parse_json(bytes) {
        Some(v) => v,
        None => return None,
    };
    Some(
        RawDoc {
            tag: json_field(&v, "type"),
            id: json_field(&v, "id"),
            deleted: json_field(&v, "deleted"),
            by: json_field(&v, "by"),
            time: json_field(&v, "time"),
            dead: json_field(&v, "dead"),
            kids: json_field(&v, "kids"),
            descendants: json_field(&v, "descendants"),
            score: json_field(&v, "score"),
            title: json_field(&v, "title"),
            url: json_field(&v, "url"),
            text: json_field(&v, "text"),
            parent: json_field(&v, "parent"),
            parts: json_field(&v, "parts"),
        },
    )
}

} // verus!
