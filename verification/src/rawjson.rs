//! The one place the library leans on the `json` crate: parsing a text
//! into the model of [`JsonVal`].
//!
//! Everything downstream of parsing — path resolution, response
//! interpretation, configuration loading — is verified against that model;
//! only the step from raw text to model is taken on trust.

use vstd::prelude::*;

use crate::jsonval::JsonVal;

verus! {

/// What `json::parse` yields on a given text, carried into the library's
/// model: `None` when the text is not a valid JSON document.
pub uninterp spec fn parsed_json_of(text: Seq<char>) -> Option<JsonVal>;

/// Relies on json::JsonValue: the `json` crate's parsed representation of
/// a document, out of which the model is built.
#[verifier::external_type_specification]
#[verifier::external_body]
pub struct ExJsonValue(json::JsonValue);

/// Relies on json::JsonValue's shape: one model constructor per variant,
/// object entries in the order the object holds them. A number keeps its
/// exact value only when `usize::try_from` accepts it, which
/// json::number::Number grants exactly to unsigned integers in range.
#[verifier::external_body]
fn convert_json(v: &json::JsonValue) -> JsonVal {
    match v {
        json::JsonValue::Null => JsonVal::Null,
        json::JsonValue::Boolean(b) => JsonVal::Bool(*b),
        json::JsonValue::Short(s) => JsonVal::Str(s.as_str().to_owned()),
        json::JsonValue::String(s) => JsonVal::Str(s.clone()),
        json::JsonValue::Number(n) => match usize::try_from(*n) {
            Ok(u) => JsonVal::Int(u),
            Err(_) => JsonVal::NumOther,
        },
        json::JsonValue::Array(items) => JsonVal::Arr(items.iter().map(convert_json).collect()),
        json::JsonValue::Object(o) => JsonVal::Obj(
            o.iter().map(|(k, w)| (k.to_owned(), convert_json(w))).collect(),
        ),
    }
}

/// Relies on json::parse: whether a text parses, and what it parses to,
/// depend on the characters of the text alone.
#[verifier::external_body]
pub fn parse_json(text: &str) -> (r: Option<JsonVal>)
    ensures
        r == parsed_json_of(text@),
{
    match json::parse(text) {
        Ok(v) => Some(convert_json(&v)),
        Err(_) => None,
    }
}

} // verus!
