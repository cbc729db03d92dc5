use crate::json::{Json, JsonNumber, JsonValue};
use serde_json::Value as Outside;
use vstd::prelude::*;

verus! {

/// `serde_json::Value`, of which nothing is known here but what [`held`] says.
#[verifier::external_type_specification]
#[verifier::external_body]
pub struct ExOutsideJson(serde_json::Value);

/// The document that a `serde_json::Value` holds.
pub uninterp spec fn held(value: Outside) -> Json;

/// What `serde_json::from_str` makes of a text: the document it reads, or
/// nothing where the text is no JSON document.
pub uninterp spec fn text_json(text: Seq<char>) -> Option<Json>;

/// `serde_json::from_str`, read as a `serde_json::Value`: the document read
/// from `text`, and nothing exactly where `serde_json` reports an error.
#[verifier::external_body]
fn read_outside(text: &str) -> (r: Option<Outside>)
    ensures
        match r {
            Some(v) => text_json(text@) == Some(held(v)),
            None => text_json(text@) is None,
        },
{
    serde_json::from_str::<Outside>(text).ok()
}

/// Moves a `serde_json::Value` into a [`JsonValue`], variant by variant: the
/// result is what the value holds. A number becomes the first of `u64`, `i64`
/// and the bit pattern of the double that `serde_json::Number` gives for it;
/// the members of an object come in the order in which its map hands them out.
#[verifier::external_body]
fn from_outside(value: Outside) -> (r: JsonValue)
    ensures
        r@ == held(value),
{
    match value {
        Outside::Null => JsonValue::Null,
        Outside::Bool(b) => JsonValue::Bool(b),
        Outside::Number(n) => JsonValue::Number(match (n.as_u64(), n.as_i64()) {
            (Some(u), _) => JsonNumber::PosInt(u),
            (_, Some(i)) => JsonNumber::NegInt(i),
            _ => JsonNumber::Float(n.as_f64().map_or(0, |f| f.to_bits())),
        }),
        Outside::String(s) => JsonValue::String(s),
        Outside::Array(a) => JsonValue::Array(a.into_iter().map(from_outside).collect()),
        Outside::Object(m) => JsonValue::Object(m.into_iter().map(|(k, v)| (k, from_outside(v))).collect()),
    }
}

/// Reads a JSON document from `text`.
pub fn parse(text: &str) -> (r: Option<JsonValue>)
    ensures
        match r {
            Some(v) => text_json(text@) == Some(v@),
            None => text_json(text@) is None,
        },
{
    match read_outside(text) {
        Some(v) => Some(from_outside(v)),
        None => None,
    }
}

} // verus!
