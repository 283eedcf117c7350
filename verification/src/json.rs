use vstd::prelude::*;

verus! {

/// What a JSON text holds under one top-level key, as far as the library
/// reads it.
#[derive(Debug, Clone, PartialEq, Eq)]
pub enum JsonField {
    /// The text is not a JSON object, or the object lacks the key.
    Missing,
    Str(String),
    Bool(bool),
    /// A value of another JSON type.
    Other,
}

/// A `JsonField` as plain values.
pub enum JsonFieldView {
    Missing,
    Str(Seq<char>),
    Bool(bool),
    Other,
}

impl View for JsonField {
    type V = JsonFieldView;

    open spec fn view(&self) -> JsonFieldView {
        match self {
            JsonField::Missing => JsonFieldView::Missing,
            JsonField::Str(s) => JsonFieldView::Str(s@),
            JsonField::Bool(b) => JsonFieldView::Bool(*b),
            JsonField::Other => JsonFieldView::Other,
        }
    }
}

/// What `serde_json` finds in the JSON text `text` under the top-level key
/// `key`.
pub uninterp spec fn spec_json_field(text: Seq<char>, key: Seq<char>) -> JsonFieldView;

/// Parses `text` with `serde_json::from_str` into a `serde_json::Value`,
/// looks `key` up with `Value::get` and tells the JSON type of what is
/// there. Claimed: the result is the named `spec_json_field` of the two
/// arguments; nothing is claimed about which texts parse.
#[verifier::external_body]
pub(crate) fn json_field(text: &str, key: &str) -> (r: JsonField)
    ensures
        r@ == spec_json_field(text@, key@),
{
    let parsed: serde_json::Value = match serde_json::from_str(text) {
        Ok(v) => v,
        Err(_) => return JsonField::Missing,
    };
    match parsed.get(key) {
        None => JsonField::Missing,
        Some(serde_json::Value::String(s)) => JsonField::Str(s.clone()),
        Some(serde_json::Value::Bool(b)) => JsonField::Bool(*b),
        Some(_) => JsonField::Other,
    }
}

/// The string under `key` in `text`, if there is one.
pub open spec fn spec_json_str_field(text: Seq<char>, key: Seq<char>) -> Option<Seq<char>> {
    match spec_json_field(text, key) {
        JsonFieldView::Str(s) => Some(s),
        _ => None,
    }
}

/// The boolean under `key` in `text`, if there is one.
pub open spec fn spec_json_bool_field(text: Seq<char>, key: Seq<char>) -> Option<bool> {
    match spec_json_field(text, key) {
        JsonFieldView::Bool(b) => Some(b),
        _ => None,
    }
}

/// The string under `key` in the JSON text `text`, if there is one.
pub fn json_str_field(text: &str, key: &str) -> (r: Option<String>)
    ensures
        match r {
            Some(v) => spec_json_str_field(text@, key@) == Some(v@),
            None => spec_json_str_field(text@, key@) is None,
        },
{
    match json_field(text, key) {
        JsonField::Str(s) => Some(s),
        _ => None,
    }
}

/// The boolean under `key` in the JSON text `text`, if there is one.
pub fn json_bool_field(text: &str, key: &str) -> (r: Option<bool>)
    ensures
        r == spec_json_bool_field(text@, key@),
{
    match json_field(text, key) {
        JsonField::Bool(b) => Some(b),
        _ => None,
    }
}

/// Whether `serde_json` accepts the text `text` as a JSON value.
pub uninterp spec fn spec_json_parses(text: Seq<char>) -> bool;

/// What `serde_json` finds in the JSON text `text` under the top-level key
/// `key` as an unsigned 64-bit integer.
pub uninterp spec fn spec_json_u64_field(text: Seq<char>, key: Seq<char>) -> Option<u64>;

/// Parses `text` with `serde_json::from_str` into a `serde_json::Value`.
/// Claimed: the result is the named `spec_json_parses` of the text; nothing
/// is claimed about which texts parse.
#[verifier::external_body]
pub(crate) fn json_parses(text: &str) -> (b: bool)
    ensures
        b == spec_json_parses(text@),
{
    serde_json::from_str::<serde_json::Value>(text).is_ok()
}

/// Parses `text` with `serde_json::from_str` into a `serde_json::Value`,
/// looks `key` up with `Value::get` and reads what is there with
/// `Value::as_u64` (a non-negative integer that fits in 64 bits). Claimed:
/// the result is the named `spec_json_u64_field` of the two arguments.
#[verifier::external_body]
pub(crate) fn json_u64_field(text: &str, key: &str) -> (r: Option<u64>)
    ensures
        r == spec_json_u64_field(text@, key@),
{
    let parsed: serde_json::Value = match serde_json::from_str(text) {
        Ok(v) => v,
        Err(_) => return None,
    };
    match parsed.get(key) {
        Some(v) => v.as_u64(),
        None => None,
    }
}

} // verus!
