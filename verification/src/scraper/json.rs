//! Queries on JSON texts, answered by `serde_json`.

use vstd::prelude::*;

verus! {

/// What stands at one place of a JSON document.
pub enum JsonField {
    /// The text is no JSON, or the place does not exist.
    Absent,
    Null,
    Flag(bool),
    /// A number; its value where `Number::as_u64` gives one.
    Number(Option<u64>),
    Text(String),
    /// An array or an object.
    Nested,
}

pub ghost enum JsonFieldView {
    Absent,
    Null,
    Flag(bool),
    Number(Option<u64>),
    Text(Seq<char>),
    Nested,
}

impl View for JsonField {
    type V = JsonFieldView;

    open spec fn view(&self) -> JsonFieldView {
        match *self {
            JsonField::Absent => JsonFieldView::Absent,
            JsonField::Null => JsonFieldView::Null,
            JsonField::Flag(b) => JsonFieldView::Flag(b),
            JsonField::Number(n) => JsonFieldView::Number(n),
            JsonField::Text(s) => JsonFieldView::Text(s@),
            JsonField::Nested => JsonFieldView::Nested,
        }
    }
}

/// What stands in the JSON document `doc` at the place that the JSON
/// pointer `pointer` names.
pub uninterp spec fn json_field(doc: Seq<char>, pointer: Seq<char>) -> JsonFieldView;

/// The elements of the JSON array `doc`, each as compact JSON text; the
/// parser's message where `doc` is no JSON array.
pub uninterp spec fn json_items(doc: Seq<char>) -> Result<Seq<Seq<char>>, Seq<char>>;

pub open spec fn texts(v: Seq<String>) -> Seq<Seq<char>> {
    v.map_values(|s: String| s@)
}

pub open spec fn items_result(r: Result<Vec<String>, String>) -> Result<
    Seq<Seq<char>>,
    Seq<char>,
> {
    match r {
        Ok(v) => Ok(texts(v@)),
        Err(e) => Err(e@),
    }
}

/// Calls `serde_json::from_str` for a `Value` and `Value::pointer` on it.
/// Trusted: the result depends on the two strings alone.
#[verifier::external_body]
pub(crate) fn read_json_field(doc: &str, pointer: &str) -> (r: JsonField)
    ensures
        r@ == json_field(doc@, pointer@),
{
    match serde_json::from_str::<serde_json::Value>(doc).ok().as_ref().and_then(|v| v.pointer(pointer)) {
        None => JsonField::Absent,
        Some(serde_json::Value::Null) => JsonField::Null,
        Some(serde_json::Value::Bool(b)) => JsonField::Flag(*b),
        Some(serde_json::Value::Number(n)) => JsonField::Number(n.as_u64()),
        Some(serde_json::Value::String(s)) => JsonField::Text(s.clone()),
        Some(_) => JsonField::Nested,
    }
}

/// Calls `serde_json::from_str` for a list of `Value`s and writes each back
/// with `Value::to_string`.
/// Trusted: the outcome depends on `doc` alone.
#[verifier::external_body]
pub(crate) fn read_json_items(doc: &str) -> (r: Result<Vec<String>, String>)
    ensures
        items_result(r) == json_items(doc@),
{
    serde_json::from_str::<Vec<serde_json::Value>>(doc).map(|items| items.iter().map(|v| v.to_string()).collect()).map_err(|e| e.to_string())
}

} // verus!
