//! The boundary to serde_json: text to tree and tree to text.
//!
//! Everything behind these items is outside code; the rest of the crate
//! works on [`crate::json::Json`] alone. Both directions depend on their
//! argument alone, so each wrapper's result is named: [`doc_of`] is what
//! parsing a text yields, [`rendered_of`] what rendering a tree yields,
//! and the codec's contracts are stated over those names.

use vstd::prelude::*;

use crate::json::Json;

verus! {

#[verifier::external_type_specification]
#[verifier::external_body]
pub struct ExValue(serde_json::Value);

/// The tree one JSON text parses to: `None` on malformed text and on
/// nothing else. What a given text parses to depends on the text alone.
pub uninterp spec fn doc_of(s: Seq<char>) -> Option<Json>;

/// The text one tree renders to. What a given tree renders to depends
/// on the tree alone.
pub uninterp spec fn rendered_of(j: Json) -> Seq<char>;

/// Relies on the variants of serde_json::Value, read one arm each, and
/// on serde_json::Number::as_i64: a number with no i64 representation
/// is carried as its literal text (serde_json::Number's Display).
#[verifier::external_body]
fn json_of_value(v: &serde_json::Value) -> (r: Json) {
    match v {
        serde_json::Value::Null => Json::Null,
        serde_json::Value::Bool(b) => Json::Bool(*b),
        serde_json::Value::Number(n) => match n.as_i64() {
            Some(i) => Json::Int(i),
            None => Json::Num(n.to_string()),
        },
        serde_json::Value::String(s) => Json::Str(s.clone()),
        serde_json::Value::Array(a) => Json::Arr(a.iter().map(json_of_value).collect()),
        serde_json::Value::Object(m) => Json::Obj(
            m.iter().map(|(k, x)| (k.clone(), json_of_value(x))).collect(),
        ),
    }
}

/// Relies on the constructors of serde_json::Value, one arm each:
/// serde_json::Number::from for exact integers and its FromStr for a
/// literal-text number, which becomes null when the text is not a JSON
/// number.
#[verifier::external_body]
fn value_of_json(j: &Json) -> (r: serde_json::Value) {
    match j {
        Json::Null => serde_json::Value::Null,
        Json::Bool(b) => serde_json::Value::Bool(*b),
        Json::Int(i) => serde_json::Value::Number(serde_json::Number::from(*i)),
        Json::Num(t) => match t.parse::<serde_json::Number>() {
            Ok(n) => serde_json::Value::Number(n),
            Err(_) => serde_json::Value::Null,
        },
        Json::Str(s) => serde_json::Value::String(s.clone()),
        Json::Arr(a) => serde_json::Value::Array(a.iter().map(value_of_json).collect()),
        Json::Obj(e) => serde_json::Value::Object(
            e.iter().map(|(k, v)| (k.clone(), value_of_json(v))).collect(),
        ),
    }
}

/// One JSON document read into the crate's own tree: `None` exactly on
/// malformed text. Relies on serde_json::from_str, whose result depends
/// on the text alone; the conversion to the tree is [`json_of_value`].
#[verifier::external_body]
pub fn parse_document(s: &str) -> (r: Option<Json>)
    ensures
        r == doc_of(s@),
{
    match serde_json::from_str::<serde_json::Value>(s) {
        Ok(v) => Some(json_of_value(&v)),
        Err(_) => None,
    }
}

/// The tree rendered as one human-readable JSON document. Relies on
/// serde_json::to_string_pretty, whose result depends on the value
/// alone and which cannot fail on a serde_json::Value (every key is a
/// string, every number finite); the conversion from the tree is
/// [`value_of_json`].
#[verifier::external_body]
pub fn render_document(j: &Json) -> (r: String)
    ensures
        r@ == rendered_of(*j),
{
    let v = value_of_json(j);
    match serde_json::to_string_pretty(&v) {
        Ok(t) => t,
        Err(_) => String::new(),
    }
}

} // verus!
