//! What the daemon reads out of JSON documents that are not entities: one
//! field of the root object at a time.

use vstd::prelude::*;

verus! {

/// What a JSON document holds under a key of its root.
#[derive(Debug)]
pub enum JsonField {
    /// The text is no JSON document.
    Invalid,
    /// The document holds nothing under the key.
    Missing,
    /// A string.
    Text(String),
    /// A number that is an integer of 64 bits.
    Integer(i64),
    /// Anything else.
    Other,
}

/// What a [`JsonField`] is in contracts.
pub enum JsonFieldView {
    Invalid,
    Missing,
    Text(Seq<char>),
    Integer(int),
    Other,
}

impl View for JsonField {
    type V = JsonFieldView;

    open spec fn view(&self) -> JsonFieldView {
        match self {
            JsonField::Invalid => JsonFieldView::Invalid,
            JsonField::Missing => JsonFieldView::Missing,
            JsonField::Text(s) => JsonFieldView::Text(s@),
            JsonField::Integer(n) => JsonFieldView::Integer(*n as int),
            JsonField::Other => JsonFieldView::Other,
        }
    }
}

/// What `serde_json` finds in `document` under `key`: the outcome of
/// `serde_json::from_str` to a `Value`, then of `Value::get` with the key,
/// then of telling a string and an integer from everything else.
pub uninterp spec fn json_field_of(document: Seq<char>, key: Seq<char>) -> JsonFieldView;

/// `serde_json::from_str::<Value>`, `Value::get` and `Number::as_i64`:
/// parses `document` and looks at what its root holds under `key`. The
/// result is a function of the two texts alone.
#[verifier::external_body]
pub(crate) fn json_field(document: &str, key: &str) -> (r: JsonField)
    ensures
        r@ == json_field_of(document@, key@),
{
    match serde_json::from_str::<serde_json::Value>(document) {
        Err(_) => JsonField::Invalid,
        Ok(root) => match root.get(key) {
            None => JsonField::Missing,
            Some(serde_json::Value::String(s)) => JsonField::Text(s.clone()),
            Some(serde_json::Value::Number(n)) => match n.as_i64() {
                Some(i) => JsonField::Integer(i),
                None => JsonField::Other,
            },
            Some(_) => JsonField::Other,
        },
    }
}

} // verus!
