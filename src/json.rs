//! Reading and writing JSON through serde_json. A document is handled as its
//! bytes; what serde_json finds in it is named by the spec functions below.
use vstd::prelude::*;

verus! {

/// The bytes hold one well-formed JSON document.
pub uninterp spec fn is_json(b: Seq<u8>) -> bool;

/// The string found in the document `b` at the JSON pointer `p`, if the
/// document parses and holds a string there.
pub uninterp spec fn json_string_at(b: Seq<u8>, p: Seq<char>) -> Option<Seq<char>>;

/// The document `b` parses and holds a value (of any kind) at the pointer `p`.
pub uninterp spec fn json_present(b: Seq<u8>, p: Seq<char>) -> bool;

/// The compact text of the document `b`.
pub uninterp spec fn json_compacted(b: Seq<u8>) -> Seq<char>;

/// The compact text of the document `b` once its member `key` has been set to
/// the value found at the pointer `p`.
pub uninterp spec fn json_with_member(b: Seq<u8>, key: Seq<char>, p: Seq<char>) -> Seq<char>;

/// A scalar member value of a JSON object.
#[derive(Debug, PartialEq, Eq)]
pub enum JsonScalar {
    Null,
    Bool(bool),
    Text(String),
}

/// A scalar over its text's contents.
pub enum Scalar {
    Null,
    Bool(bool),
    Text(Seq<char>),
}

impl View for JsonScalar {
    type V = Scalar;

    open spec fn view(&self) -> Scalar {
        match self {
            JsonScalar::Null => Scalar::Null,
            JsonScalar::Bool(b) => Scalar::Bool(*b),
            JsonScalar::Text(s) => Scalar::Text(s@),
        }
    }
}

/// Object members over their contents.
pub open spec fn members_view(m: Seq<(String, JsonScalar)>) -> Seq<(Seq<char>, Scalar)> {
    m.map_values(|p: (String, JsonScalar)| (p.0@, p.1@))
}

/// The compact text of the JSON object of these members.
pub uninterp spec fn json_object_text(members: Seq<(Seq<char>, Scalar)>) -> Seq<char>;

/// Relies on serde_json::from_slice: whether the bytes parse as a JSON value.
#[verifier::external_body]
pub(crate) fn parses_as_json(data: &[u8]) -> (r: bool)
    ensures
        r == is_json(data@),
{
    serde_json::from_slice::<serde_json::Value>(data).is_ok()
}

/// Relies on serde_json::from_slice, serde_json::Value::pointer and
/// serde_json::Value::as_str: the string at a JSON pointer of the document.
#[verifier::external_body]
pub(crate) fn string_at(data: &[u8], pointer: &str) -> (r: Option<String>)
    ensures
        r is Some <==> json_string_at(data@, pointer@) is Some,
        r is Some ==> json_string_at(data@, pointer@) == Some(r->0@),
{
    let value = serde_json::from_slice::<serde_json::Value>(data).ok()?;
    value.pointer(pointer).and_then(|v| v.as_str()).map(|s| s.to_string())
}

/// Relies on serde_json::from_slice and serde_json::Value::pointer: whether the
/// document holds a value at a JSON pointer.
#[verifier::external_body]
pub(crate) fn present_at(data: &[u8], pointer: &str) -> (r: bool)
    ensures
        r == json_present(data@, pointer@),
{
    match serde_json::from_slice::<serde_json::Value>(data) {
        Ok(value) => value.pointer(pointer).is_some(),
        Err(_) => false,
    }
}

/// Relies on serde_json::from_slice and serde_json::to_string: the document
/// written back in compact form.
#[verifier::external_body]
pub(crate) fn compacted(data: &[u8]) -> (r: String)
    ensures
        r@ == json_compacted(data@),
{
    let value = serde_json::from_slice::<serde_json::Value>(data).unwrap_or_default();
    serde_json::to_string(&value).unwrap_or_default()
}

/// Relies on serde_json::Map::insert (with from_slice, pointer and to_string
/// around it): the document, with one member copied from another place in it,
/// written in compact form.
#[verifier::external_body]
pub(crate) fn with_member(data: &[u8], key: &str, pointer: &str) -> (r: String)
    ensures
        r@ == json_with_member(data@, key@, pointer@),
{
    let mut value = serde_json::from_slice::<serde_json::Value>(data).unwrap_or_default();
    let member = value.pointer(pointer).cloned().unwrap_or_default();
    if let serde_json::Value::Object(map) = &mut value {
        map.insert(key.to_string(), member);
    }
    serde_json::to_string(&value).unwrap_or_default()
}

/// Relies on serde_json::Map::insert and serde_json::to_string: the compact
/// text of the object of these members.
#[verifier::external_body]
pub(crate) fn object_text(members: &Vec<(String, JsonScalar)>) -> (r: String)
    ensures
        r@ == json_object_text(members_view(members@)),
{
    let mut map = serde_json::Map::new();
    for (key, value) in members {
        let value = match value {
            JsonScalar::Null => serde_json::Value::Null,
            JsonScalar::Bool(b) => serde_json::Value::Bool(*b),
            JsonScalar::Text(s) => serde_json::Value::String(s.clone()),
        };
        map.insert(key.clone(), value);
    }
    serde_json::to_string(&map).unwrap_or_default()
}

} // verus!
