use vstd::prelude::*;
use crate::json::{Json, JsonMember, JsonNumber};

verus! {

/// serde_json's JSON value, carried through opaquely.
#[verifier::external_type_specification]
#[verifier::external_body]
pub struct ExValue(serde_json::Value);

/// The JSON value the text `text` holds, as `serde_json::from_str` reads it
/// into a `serde_json::Value`, in the library's form (`None` when the text is
/// not JSON).
pub uninterp spec fn parsed_json(text: Seq<char>) -> Option<Json>;

/// The text `serde_json` writes for the value `v` (a `serde_json::Value`
/// built member for member from `v`).
pub uninterp spec fn json_text(v: Json) -> Seq<char>;

/// The library's form of a `serde_json::Value`, member for member; a number
/// keeps its `u64` value, when it has one, and its text.
///
/// Trusted: a conversion only, used by `parse_json`; nothing is claimed of
/// it beyond what `parse_json` claims.
#[verifier::external_body]
fn json_of_value(v: serde_json::Value) -> Json {
    match v {
        serde_json::Value::Null => Json::Null,
        serde_json::Value::Bool(b) => Json::Bool(b),
        serde_json::Value::Number(n) => Json::Number(JsonNumber { as_u64: n.as_u64(), text: n.to_string() }),
        serde_json::Value::String(s) => Json::Str(s),
        serde_json::Value::Array(a) => Json::Array(a.into_iter().map(json_of_value).collect()),
        serde_json::Value::Object(m) => Json::Object(
            m.into_iter().map(|(key, value)| JsonMember { key, value: json_of_value(value) }).collect(),
        ),
    }
}

/// A `serde_json::Value` built member for member from `v`; a number is read
/// back from its text (`null` when that is not a JSON number).
///
/// Trusted: a conversion only, used by `json_line`; nothing is claimed of it
/// beyond what `json_line` claims.
#[verifier::external_body]
fn value_of_json(v: &Json) -> serde_json::Value {
    match v {
        Json::Null => serde_json::Value::Null,
        Json::Bool(b) => serde_json::Value::Bool(*b),
        Json::Number(n) => n.text.parse::<serde_json::Number>().map_or(serde_json::Value::Null, serde_json::Value::Number),
        Json::Str(s) => serde_json::Value::String(s.clone()),
        Json::Array(a) => serde_json::Value::Array(a.iter().map(value_of_json).collect()),
        Json::Object(ms) => serde_json::Value::Object(
            ms.iter().map(|m| (m.key.clone(), value_of_json(&m.value))).collect(),
        ),
    }
}

/// Parses a line of text as JSON.
///
/// Trusted: calls `serde_json::from_str::<serde_json::Value>` and converts
/// the value member for member. The result depends on the text alone and is
/// named by `parsed_json`; nothing more is claimed of it.
#[verifier::external_body]
pub(crate) fn parse_json(text: &str) -> (r: Option<Json>)
    ensures
        r == parsed_json(text@),
{
    serde_json::from_str::<serde_json::Value>(text).ok().map(json_of_value)
}

/// Writes a JSON value as one line of text.
///
/// Trusted: converts `v` member for member into a `serde_json::Value` and
/// calls its `Display` (`to_string`), which cannot fail. The result depends
/// on `v` alone and is named by `json_text`; nothing more is claimed of it.
#[verifier::external_body]
pub(crate) fn json_line(v: &Json) -> (r: String)
    ensures
        r@ == json_text(*v),
{
    value_of_json(v).to_string()
}

} // verus!
