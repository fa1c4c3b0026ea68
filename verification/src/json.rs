//! The boundary to the JSON parser.
//!
//! Configuration documents are structured data; parsing the text is
//! serde_json's work.  A parsed value is opaque here: everything the
//! configuration model learns of it goes through the readers below, whose
//! contracts speak of [`JsonData`], the mathematical shape of a parsed
//! document.

use vstd::prelude::*;

verus! {

/// The shape of a parsed JSON value.  Of a number, only its value as an
/// unsigned 64-bit integer is modelled, when it has one: the configuration
/// model reads nothing else of a number.  An object's entries are carried
/// in the order the readers below hand them out.
pub enum JsonData {
    Null,
    Bool(bool),
    Num(Option<u64>),
    Str(Seq<char>),
    Arr(Seq<JsonData>),
    Obj(Seq<(Seq<char>, JsonData)>),
}

#[verifier::external_type_specification]
#[verifier::external_body]
pub struct ExJsonValue(serde_json::Value);

/// The shape a parsed JSON value holds.
pub uninterp spec fn json_repr(v: serde_json::Value) -> JsonData;

/// What a JSON text parses to, when it parses: parsing depends on the text
/// alone.
pub uninterp spec fn spec_parse_json(text: Seq<char>) -> Option<JsonData>;

/// Relies on serde_json::from_str: the result is a function of the text;
/// a text that is not valid JSON yields an error.
#[verifier::external_body]
pub(crate) fn parse_json_text(text: &str) -> (r: Option<serde_json::Value>)
    ensures
        (match r {
            Some(v) => spec_parse_json(text@) == Some(json_repr(v)),
            None => spec_parse_json(text@) is None,
        }),
{
    serde_json::from_str::<serde_json::Value>(text).ok()
}

/// Relies on serde_json::Value::as_u64: the value of a number when it is
/// representable as u64, nothing for anything else.
#[verifier::external_body]
pub(crate) fn value_as_u64(v: &serde_json::Value) -> (r: Option<u64>)
    ensures
        r == (match json_repr(*v) {
            JsonData::Num(n) => n,
            _ => None::<u64>,
        }),
{
    v.as_u64()
}

/// Relies on serde_json::Value::as_str: the contents of a string value,
/// nothing for anything else.
#[verifier::external_body]
pub(crate) fn value_as_str<'a>(v: &'a serde_json::Value) -> (r: Option<&'a str>)
    ensures
        (match json_repr(*v) {
            JsonData::Str(s) => r matches Some(t) && t@ == s,
            _ => r is None,
        }),
{
    v.as_str()
}

/// Relies on serde_json::Value::as_array: the elements of an array value,
/// in order, nothing for anything else.
#[verifier::external_body]
pub(crate) fn value_as_array<'a>(v: &'a serde_json::Value) -> (r: Option<
    &'a Vec<serde_json::Value>,
>)
    ensures
        (match json_repr(*v) {
            JsonData::Arr(items) => {
                &&& r matches Some(a)
                &&& a@.len() == items.len()
                &&& forall|i: int| 0 <= i < items.len() ==> json_repr(a@[i]) == items[i]
            },
            _ => r is None,
        }),
{
    v.as_array()
}

/// Relies on serde_json::Value::as_object and serde_json::Map iteration:
/// the entries of an object value, cloned, in the map's own order, nothing
/// for anything else.
#[verifier::external_body]
pub(crate) fn value_object_entries(v: &serde_json::Value) -> (r: Option<
    Vec<(String, serde_json::Value)>,
>)
    ensures
        (match json_repr(*v) {
            JsonData::Obj(entries) => {
                &&& r matches Some(es)
                &&& es@.len() == entries.len()
                &&& forall|i: int|
                    0 <= i < entries.len() ==> es@[i].0@ == entries[i].0 && json_repr(es@[i].1)
                        == entries[i].1
            },
            _ => r is None,
        }),
{
    match v.as_object() {
        Some(m) => Some(m.iter().map(|(k, x)| (k.clone(), x.clone())).collect()),
        None => None,
    }
}

} // verus!
