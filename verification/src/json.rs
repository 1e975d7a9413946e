//! The JSON reader and writer that the wire format rests on.
//!
//! The three functions at the end of this file call `serde_json`. Their
//! contracts are trusted: they say what `serde_json` does, and Verus takes
//! them as given. What the reader finds in a text and what the writer makes
//! of a string are not defined here, only named.

use vstd::prelude::*;

verus! {

/// What a JSON document holds under one key, as far as a chat message
/// reads it: nothing, `null`, a string, or a value of another type.
#[derive(Clone, Debug, PartialEq, Eq)]
pub enum Field {
    Absent,
    Null,
    Text(String),
    Other,
}

/// The mathematical model of a [`Field`].
pub enum FieldView {
    Absent,
    Null,
    Text(Seq<char>),
    Other,
}

impl View for Field {
    type V = FieldView;

    open spec fn view(&self) -> FieldView {
        match *self {
            Field::Absent => FieldView::Absent,
            Field::Null => FieldView::Null,
            Field::Text(s) => FieldView::Text(s@),
            Field::Other => FieldView::Other,
        }
    }
}

/// `serde_json::Value`, a parsed JSON document. Verus sees nothing inside.
#[verifier::external_type_specification]
#[verifier::external_body]
pub struct ExJsonValue(serde_json::Value);

/// `serde_json::Error`, the reason a text is no JSON document.
#[verifier::external_type_specification]
#[verifier::external_body]
pub struct ExJsonError(serde_json::Error);

/// The members of a parsed document by key. A document that is no object
/// has none.
pub uninterp spec fn json_members(value: serde_json::Value) -> Map<Seq<char>, FieldView>;

/// What `serde_json::from_slice` makes of a text: `None` where it rejects
/// the text, else the members of the document it reads.
pub uninterp spec fn json_document(bytes: Seq<u8>) -> Option<Map<Seq<char>, FieldView>>;

/// The JSON string literal that `serde_json::to_string` writes for a
/// string: the string between double quotes, with the escapes JSON asks for.
pub uninterp spec fn json_quoted(text: Seq<char>) -> Seq<char>;

/// What a set of members holds under `key`.
pub open spec fn member_at(members: Map<Seq<char>, FieldView>, key: Seq<char>) -> FieldView {
    if members.contains_key(key) {
        members[key]
    } else {
        FieldView::Absent
    }
}

/// Calls `serde_json::from_slice` for a `serde_json::Value`. The contract
/// claims only that the outcome is a function of the bytes: an error exactly
/// where [`json_document`] is `None`, else a value with the members it names.
#[verifier::external_body]
pub(crate) fn parse_document(bytes: &[u8]) -> (r: Result<serde_json::Value, serde_json::Error>)
    ensures
        match r {
            Ok(value) => json_document(bytes@) == Some(json_members(value)),
            Err(_) => json_document(bytes@) is None,
        },
{
    serde_json::from_slice::<serde_json::Value>(bytes)
}

/// Calls `serde_json::Value::get` with a string key and tells apart what it
/// finds: no member (also where the value is no object), `null`, a string,
/// or a value of another type. The contract claims that this is what
/// [`json_members`] holds under the key.
#[verifier::external_body]
pub(crate) fn member(value: &serde_json::Value, key: &str) -> (r: Field)
    ensures
        r@ == member_at(json_members(*value), key@),
{
    match value.get(key) {
        None => Field::Absent,
        Some(serde_json::Value::Null) => Field::Null,
        Some(serde_json::Value::String(s)) => Field::Text(s.clone()),
        Some(_) => Field::Other,
    }
}

/// Calls `serde_json::to_string` on a string slice. Writing a string into
/// memory cannot fail, so the contract claims that the call returns, and
/// names what it returns [`json_quoted`].
#[verifier::external_body]
pub(crate) fn quote(text: &str) -> (r: String)
    ensures
        r@ == json_quoted(text@),
{
    serde_json::to_string(text).unwrap_or_default()
}

} // verus!
