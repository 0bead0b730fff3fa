//! JSON documents. A document is a `serde_json::Value`; the contracts speak
//! of it through its compact rendering.
use vstd::prelude::*;

verus! {

/// Makes `serde_json::Value` known as a type whose inside is not looked
/// into.
#[verifier::external_type_specification]
#[verifier::external_body]
pub struct ExValue(serde_json::Value);

/// The compact JSON rendering of a document: what it holds.
pub uninterp spec fn json_text(v: serde_json::Value) -> Seq<char>;

/// The rendering of the document that a text parses to, if it is valid JSON.
pub uninterp spec fn json_parsed(s: Seq<char>) -> Option<Seq<char>>;

/// The rendering of the member stored under `key` in the object rendered as
/// `doc`; `None` where `doc` is no object or has no such member.
pub uninterp spec fn json_member(doc: Seq<char>, key: Seq<char>) -> Option<Seq<char>>;

/// The rendering of the element at `index` of the array rendered as `doc`;
/// `None` where `doc` is no array or is shorter.
pub uninterp spec fn json_element(doc: Seq<char>, index: nat) -> Option<Seq<char>>;

/// The content of the JSON string rendered as `doc`; `None` where `doc` is
/// no string.
pub uninterp spec fn json_string(doc: Seq<char>) -> Option<Seq<char>>;

/// The kinds of JSON documents.
#[derive(Debug, Clone, Copy, PartialEq, Eq, Structural)]
pub enum JsonKind {
    Null,
    Bool,
    Number,
    Text,
    Array,
    Object,
}

/// The kind of the document rendered as `doc`.
pub uninterp spec fn json_kind(doc: Seq<char>) -> JsonKind;

/// The rendering of a JSON boolean.
pub open spec fn bool_text(b: bool) -> Seq<char> {
    if b {
        "true"@
    } else {
        "false"@
    }
}

/// Calls `Value::to_string`, which writes the document as compact JSON.
#[verifier::external_body]
pub(crate) fn render(v: &serde_json::Value) -> (s: String)
    ensures
        s@ == json_text(*v),
{
    v.to_string()
}

/// Calls `serde_json::from_str` for a `Value`. It succeeds exactly on valid
/// JSON text; the error is dropped.
#[verifier::external_body]
pub(crate) fn parse(s: &str) -> (r: Option<serde_json::Value>)
    ensures
        match r {
            Some(v) => json_parsed(s@) == Some(json_text(v)),
            None => json_parsed(s@) is None,
        },
{
    serde_json::from_str::<serde_json::Value>(s).ok()
}

/// Calls `Value::get` with a string key: the member of an object under that
/// key, `None` for a missing key and for every document that is no object.
/// A member is a part of the object, so its rendering is shorter.
#[verifier::external_body]
pub(crate) fn member<'a>(v: &'a serde_json::Value, key: &str) -> (r: Option<&'a serde_json::Value>)
    ensures
        match r {
            Some(m) => json_member(json_text(*v), key@) == Some(json_text(*m)) && json_text(
                *m,
            ).len() < json_text(*v).len(),
            None => json_member(json_text(*v), key@) is None,
        },
{
    v.get(key)
}

/// Calls `Value::get` with a number: the element of an array at that index,
/// `None` past its end and for every document that is no array. An element
/// is a part of the array, so its rendering is shorter.
#[verifier::external_body]
pub(crate) fn element<'a>(v: &'a serde_json::Value, index: usize) -> (r: Option<&'a serde_json::Value>)
    ensures
        match r {
            Some(e) => json_element(json_text(*v), index as nat) == Some(json_text(*e))
                && json_text(*e).len() < json_text(*v).len(),
            None => json_element(json_text(*v), index as nat) is None,
        },
{
    v.get(index)
}

/// Calls `Value::as_str`: the content of a JSON string, `None` for every
/// other document.
#[verifier::external_body]
pub(crate) fn string_content(v: &serde_json::Value) -> (r: Option<String>)
    ensures
        match r {
            Some(s) => json_string(json_text(*v)) == Some(s@),
            None => json_string(json_text(*v)) is None,
        },
{
    v.as_str().map(|s| s.to_string())
}

/// Builds `Value::String`, the JSON string with the given content, which
/// `Value::as_str` reads back.
#[verifier::external_body]
pub(crate) fn string_value(s: String) -> (v: serde_json::Value)
    ensures
        json_string(json_text(v)) == Some(s@),
{
    serde_json::Value::String(s)
}

/// Builds `Value::Bool`, which renders as `true` or `false`.
#[verifier::external_body]
pub(crate) fn bool_value(b: bool) -> (v: serde_json::Value)
    ensures
        json_text(v) == bool_text(b),
{
    serde_json::Value::Bool(b)
}

/// Builds `Value::Object` over an empty `serde_json::Map`: an object
/// without members.
#[verifier::external_body]
pub(crate) fn empty_object() -> (v: serde_json::Value)
    ensures
        json_kind(json_text(v)) == JsonKind::Object,
        forall|key: Seq<char>| (#[trigger] json_member(json_text(v), key)) is None,
{
    serde_json::Value::Object(serde_json::Map::new())
}

/// Calls `serde_json::Map::insert` on the members of an object and hands
/// the object back: `value` is then its member under `key`, and the members
/// under other keys are those it had. A document that is no object comes
/// back as it was.
#[verifier::external_body]
pub(crate) fn with_member(obj: serde_json::Value, key: &str, value: serde_json::Value) -> (v:
    serde_json::Value)
    ensures
        json_kind(json_text(obj)) != JsonKind::Object ==> v == obj,
        json_kind(json_text(obj)) == JsonKind::Object ==> {
            &&& json_kind(json_text(v)) == JsonKind::Object
            &&& json_member(json_text(v), key@) == Some(json_text(value))
            &&& forall|other: Seq<char>|
                other != key@ ==> #[trigger] json_member(json_text(v), other) == json_member(
                    json_text(obj),
                    other,
                )
        },
{
    let mut obj = obj;
    if let serde_json::Value::Object(members) = &mut obj {
        members.insert(key.to_string(), value);
    }
    obj
}

/// `Value::clone` copies the document.
pub assume_specification[ <serde_json::Value as Clone>::clone ](v: &serde_json::Value) -> (c:
    serde_json::Value)
    ensures
        c == *v,
;

/// The keys of the object rendered as `doc`, in the order in which the
/// object yields them; none where `doc` is no object.
pub uninterp spec fn json_keys(doc: Seq<char>) -> Seq<Seq<char>>;

/// The number of elements of the array rendered as `doc`; 0 where `doc`
/// is no array.
pub uninterp spec fn json_length(doc: Seq<char>) -> nat;

/// The views of a list of texts.
pub open spec fn text_views(texts: Seq<String>) -> Seq<Seq<char>> {
    texts.map_values(|t: String| t@)
}

/// Tells the variants of `Value` apart.
#[verifier::external_body]
pub(crate) fn kind_of(v: &serde_json::Value) -> (k: JsonKind)
    ensures
        k == json_kind(json_text(*v)),
{
    match v {
        serde_json::Value::Null => JsonKind::Null,
        serde_json::Value::Bool(_) => JsonKind::Bool,
        serde_json::Value::Number(_) => JsonKind::Number,
        serde_json::Value::String(_) => JsonKind::Text,
        serde_json::Value::Array(_) => JsonKind::Array,
        serde_json::Value::Object(_) => JsonKind::Object,
    }
}

/// Calls `Value::as_object` and `Map::keys`: the keys of an object in the
/// order in which it yields them, none for every other document.
#[verifier::external_body]
pub(crate) fn object_keys(v: &serde_json::Value) -> (keys: Vec<String>)
    ensures
        text_views(keys@) == json_keys(json_text(*v)),
{
    match v.as_object() {
        Some(members) => members.keys().map(|k| k.to_string()).collect(),
        None => Vec::new(),
    }
}

/// Calls `Value::as_array` and `Vec::len`: the number of elements of an
/// array, 0 for every other document.
#[verifier::external_body]
pub(crate) fn array_length(v: &serde_json::Value) -> (n: usize)
    ensures
        n == json_length(json_text(*v)),
{
    match v.as_array() {
        Some(elements) => elements.len(),
        None => 0,
    }
}

} // verus!
