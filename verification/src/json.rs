//! The boundary to `serde_json`.
//!
//! JSON values stay values of `serde_json`. Contracts speak of them through
//! their model, a [`JsonView`]. The module declares the outside types, names
//! the model of a value and of a parsed text, and wraps each function of
//! `serde_json` that the crate calls. The wrappers are not proved: their
//! contracts restate what the source of `serde_json` shows.

use vstd::prelude::*;

verus! {

/// Mathematical model of a JSON value. Numbers are not told apart: nothing
/// in this crate reads one.
pub enum JsonView {
    Null,
    Bool(bool),
    Number,
    Text(Seq<char>),
    Array(Seq<JsonView>),
    Object(Map<Seq<char>, JsonView>),
}

impl JsonView {
    /// The value stored under `key`; `None` where this is no object or the
    /// object has no such key.
    pub open spec fn member(self, key: Seq<char>) -> Option<JsonView> {
        match self {
            JsonView::Object(entries) => if entries.contains_key(key) {
                Some(entries[key])
            } else {
                None
            },
            _ => None,
        }
    }

    /// The elements in order; `None` where this is no array.
    pub open spec fn elements(self) -> Option<Seq<JsonView>> {
        match self {
            JsonView::Array(items) => Some(items),
            _ => None,
        }
    }

    /// The characters; `None` where this is no string.
    pub open spec fn text(self) -> Option<Seq<char>> {
        match self {
            JsonView::Text(characters) => Some(characters),
            _ => None,
        }
    }
}

/// A JSON value of `serde_json`. Verus sees nothing inside it; what it holds
/// is told by [`json_view`].
#[verifier::external_type_specification]
#[verifier::external_body]
pub struct ExValue(serde_json::Value);

/// The error with which `serde_json` rejects a text.
#[verifier::external_type_specification]
#[verifier::external_body]
pub struct ExError(serde_json::Error);

/// What a JSON value of `serde_json` holds.
pub uninterp spec fn json_view(value: serde_json::Value) -> JsonView;

/// The JSON value that a text denotes; `None` where the text is not one JSON
/// document.
pub uninterp spec fn json_document(text: Seq<u8>) -> Option<JsonView>;

/// The models of a list of JSON values, in order.
pub open spec fn json_views(values: Seq<serde_json::Value>) -> Seq<JsonView> {
    values.map_values(|value: serde_json::Value| json_view(value))
}

/// Parses a text as one JSON document.
///
/// Calls `serde_json::from_slice` for the type `serde_json::Value`. The
/// grammar is not written out here: the contract gives the parsed value the
/// name [`json_document`] and says that the call fails exactly where that
/// name is `None`.
#[verifier::external_body]
pub(crate) fn parse(text: &[u8]) -> (parsed: Result<serde_json::Value, serde_json::Error>)
    ensures
        match parsed {
            Ok(value) => json_document(text@) == Some(json_view(value)),
            Err(_) => json_document(text@) is None,
        },
{
    serde_json::from_slice(text)
}

/// Looks a key up in a JSON value.
///
/// Calls `serde_json::Value::get` with a string index, which answers with the
/// entry of that key where the value is an object that has it, and with
/// `None` otherwise.
#[verifier::external_body]
pub(crate) fn member<'a>(value: &'a serde_json::Value, key: &str) -> (found: Option<
    &'a serde_json::Value,
>)
    ensures
        match found {
            Some(entry) => json_view(*value).member(key@) == Some(json_view(*entry)),
            None => json_view(*value).member(key@) is None,
        },
{
    value.get(key)
}

/// Reads a JSON value as an array.
///
/// Calls `serde_json::Value::as_array`, which hands out the vector of an
/// array and `None` for every other kind of value.
#[verifier::external_body]
pub(crate) fn elements<'a>(value: &'a serde_json::Value) -> (found: Option<
    &'a Vec<serde_json::Value>,
>)
    ensures
        match found {
            Some(items) => json_view(*value).elements() == Some(json_views(items@)),
            None => json_view(*value).elements() is None,
        },
{
    value.as_array()
}

/// Reads a JSON value as a string.
///
/// Calls `serde_json::Value::as_str`, which hands out the text of a string
/// and `None` for every other kind of value.
#[verifier::external_body]
pub(crate) fn text<'a>(value: &'a serde_json::Value) -> (found: Option<&'a str>)
    ensures
        match found {
            Some(characters) => json_view(*value).text() == Some(characters@),
            None => json_view(*value).text() is None,
        },
{
    value.as_str()
}

} // verus!
