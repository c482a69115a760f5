//! Reading text fields out of JSON documents.
use vstd::prelude::*;

verus! {

/// What a JSON document holds, as far as this library reads it.
pub enum Json {
    /// A string.
    Text(Seq<char>),
    /// An object, by its keys.
    Object(Map<Seq<char>, Json>),
    /// A number, a boolean, an array or null.
    Other,
}

impl Json {
    /// The value under `key`, where this is an object that has one.
    pub open spec fn member(self, key: Seq<char>) -> Option<Json> {
        match self {
            Json::Object(fields) if fields.dom().contains(key) => Some(fields[key]),
            _ => None,
        }
    }

    /// The characters, where this is a string.
    pub open spec fn text(self) -> Option<Seq<char>> {
        match self {
            Json::Text(s) => Some(s),
            _ => None,
        }
    }
}

/// The string under `key`, where the document is an object that has one.
pub open spec fn text_member(doc: Json, key: Seq<char>) -> Option<Seq<char>> {
    match doc.member(key) {
        Some(v) => v.text(),
        None => None,
    }
}

/// A parsed document, as `serde_json` keeps it. Nothing inside it is seen here.
#[verifier::external_type_specification]
#[verifier::external_body]
pub struct ExValue(serde_json::Value);

/// Why `serde_json` refuses a text. Nothing inside it is seen here.
#[verifier::external_type_specification]
#[verifier::external_body]
pub struct ExError(serde_json::Error);

/// The document that a text spells, or `None` where the text is not JSON.
pub uninterp spec fn document(text: Seq<char>) -> Option<Json>;

/// What a parsed value holds: the members of an object by their keys, the characters of a string.
pub uninterp spec fn contents(value: serde_json::Value) -> Json;

/// `serde_json::from_str` into a `Value`. What it accepts and what it reads there is a function
/// of the text alone; that function is named `document`.
#[verifier::external_body]
pub(crate) fn parse(text: &str) -> (r: Result<serde_json::Value, serde_json::Error>)
    ensures
        match r {
            Ok(v) => document(text@) == Some(contents(v)),
            Err(_) => document(text@) is None,
        },
{
    serde_json::from_str(text)
}

/// `serde_json::Value::get` with a string key: the value under the key in an object that has it,
/// and nothing in an object without it or in a value of another kind.
#[verifier::external_body]
pub(crate) fn member<'a>(value: &'a serde_json::Value, key: &str) -> (r: Option<&'a serde_json::Value>)
    ensures
        match r {
            Some(v) => contents(*value).member(key@) == Some(contents(*v)),
            None => contents(*value).member(key@) is None,
        },
{
    value.get(key)
}

/// `serde_json::Value::as_str`: the characters of a string, and nothing of another value.
#[verifier::external_body]
pub(crate) fn text<'a>(value: &'a serde_json::Value) -> (r: Option<&'a str>)
    ensures
        match r {
            Some(s) => contents(*value).text() == Some(s@),
            None => contents(*value).text() is None,
        },
{
    value.as_str()
}

/// The string under `key`, where the value is an object that has one.
pub(crate) fn text_of<'a>(value: &'a serde_json::Value, key: &str) -> (r: Option<&'a str>)
    ensures
        match r {
            Some(s) => text_member(contents(*value), key@) == Some(s@),
            None => text_member(contents(*value), key@) is None,
        },
{
    match member(value, key) {
        Some(v) => text(v),
        None => None,
    }
}

/// A string is found under a key in an object that has a string there, and nowhere else.
pub proof fn law_text_member(doc: Json, key: Seq<char>, s: Seq<char>)
    ensures
        text_member(doc, key) == Some(s) <==> (doc matches Json::Object(fields)
            && fields.dom().contains(key) && fields[key] == Json::Text(s)),
{
}

/// A member is found where the value is an object that has it, and nowhere else.
pub proof fn law_member(doc: Json, key: Seq<char>, v: Json)
    ensures
        doc.member(key) == Some(v) <==> (doc matches Json::Object(fields) && fields.dom().contains(key)
            && fields[key] == v),
        doc.text() is Some <==> doc is Text,
        doc matches Json::Text(s) ==> doc.text() == Some(s),
{
}

} // verus!
