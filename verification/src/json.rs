//! JSON documents, built and rendered with `serde_json`.

use vstd::prelude::*;

verus! {

/// `serde_json::Value`, any JSON document.
#[verifier::external_type_specification]
#[verifier::external_body]
pub struct ExValue(serde_json::Value);

/// `serde_json::Map`, the members of a JSON object.
#[verifier::external_type_specification]
#[verifier::external_body]
#[verifier::reject_recursive_types(K)]
#[verifier::reject_recursive_types(V)]
pub struct ExMap<K, V>(serde_json::Map<K, V>);

/// What a JSON document says.
pub enum Json {
    Null,
    Bool(bool),
    Int(int),
    /// A number kept as floating point, by the text it is written as.
    Decimal(Seq<char>),
    Text(Seq<char>),
    Array(Seq<Json>),
    Object(Map<Seq<char>, Json>),
}

/// What a `serde_json::Value` holds: itself a scalar, or a collection of documents.
pub uninterp spec fn value_content(v: serde_json::Value) -> Json;

/// What a `serde_json::Map` holds, by key.
pub uninterp spec fn map_content(
    m: serde_json::Map<String, serde_json::Value>,
) -> Map<Seq<char>, Json>;

/// The compact text that `serde_json` writes for a document.
pub uninterp spec fn json_text(j: Json) -> Seq<char>;

/// What each of a row of documents holds.
pub open spec fn contents(items: Seq<serde_json::Value>) -> Seq<Json> {
    Seq::new(items.len(), |i: int| value_content(items[i]))
}

/// The members of an empty object.
pub open spec fn no_members() -> Map<Seq<char>, Json> {
    Map::empty()
}

/// The document for a process exit code, `null` while there is none.
pub open spec fn exit_code_json(code: Option<i32>) -> Json {
    match code {
        Some(code) => Json::Int(code as int),
        None => Json::Null,
    }
}

/// `serde_json::Map::new`: an object without members.
#[verifier::external_body]
pub(crate) fn new_members() -> (members: serde_json::Map<String, serde_json::Value>)
    ensures
        map_content(members) == no_members(),
{
    serde_json::Map::new()
}

/// `serde_json::Map::insert`: sets the member under the key and leaves the others
/// as they are; it hands back what stood under the key before, if anything did.
#[verifier::external_body]
pub(crate) fn insert_member(
    members: &mut serde_json::Map<String, serde_json::Value>,
    key: String,
    value: serde_json::Value,
) -> (previous: Option<serde_json::Value>)
    ensures
        map_content(*final(members)) == map_content(*old(members)).insert(
            key@,
            value_content(value),
        ),
        previous is Some <==> map_content(*old(members)).contains_key(key@),
        previous matches Some(p) ==> value_content(p) == map_content(*old(members))[key@],
{
    members.insert(key, value)
}

/// `serde_json::Value::Null`: the JSON `null`.
#[verifier::external_body]
pub(crate) fn null_value() -> (v: serde_json::Value)
    ensures
        value_content(v) == Json::Null,
{
    serde_json::Value::Null
}

/// `serde_json::Value::from` on a `bool`: the JSON `true` or `false`.
#[verifier::external_body]
pub(crate) fn bool_value(b: bool) -> (v: serde_json::Value)
    ensures
        value_content(v) == Json::Bool(b),
{
    serde_json::Value::from(b)
}

/// `serde_json::Value::from` on an `i64`: that integer.
#[verifier::external_body]
pub(crate) fn int_value(n: i64) -> (v: serde_json::Value)
    ensures
        value_content(v) == Json::Int(n as int),
{
    serde_json::Value::from(n)
}

/// `serde_json::Value::from` on a `u64`: that integer.
#[verifier::external_body]
pub(crate) fn uint_value(n: u64) -> (v: serde_json::Value)
    ensures
        value_content(v) == Json::Int(n as int),
{
    serde_json::Value::from(n)
}

/// `serde_json::Value::from` on a `String`: that text.
#[verifier::external_body]
pub(crate) fn text_value(s: String) -> (v: serde_json::Value)
    ensures
        value_content(v) == Json::Text(s@),
{
    serde_json::Value::from(s)
}

/// `serde_json::Value::from` on a `Vec` of documents: the array of them, in
/// their order.
#[verifier::external_body]
pub(crate) fn array_value(items: Vec<serde_json::Value>) -> (v: serde_json::Value)
    ensures
        value_content(v) == Json::Array(contents(items@)),
{
    serde_json::Value::from(items)
}

/// `serde_json::Value::from` on a `serde_json::Map`: the object with those
/// members.
#[verifier::external_body]
pub(crate) fn object_value(members: serde_json::Map<String, serde_json::Value>) -> (v:
    serde_json::Value)
    ensures
        value_content(v) == Json::Object(map_content(members)),
{
    serde_json::Value::from(members)
}

/// `serde_json::Value::to_string`: the compact text of the document. `serde_json`
/// keeps the members of an object in the order of their keys, so the text depends
/// on what the document holds and on nothing else; how it is spelled is left
/// unsaid. This rests on the feature `preserve_order` of `serde_json` being off in
/// the whole build: with it, the members come in the order of their insertion.
#[verifier::external_body]
pub(crate) fn value_text(v: &serde_json::Value) -> (text: String)
    ensures
        text@ == json_text(value_content(*v)),
{
    v.to_string()
}

/// The document for a process exit code.
pub(crate) fn exit_code_value(code: Option<i32>) -> (v: serde_json::Value)
    ensures
        value_content(v) == exit_code_json(code),
{
    match code {
        Some(code) => int_value(code as i64),
        None => null_value(),
    }
}

/// Sets one member of an object.
pub(crate) fn put(
    members: &mut serde_json::Map<String, serde_json::Value>,
    key: &str,
    value: serde_json::Value,
)
    ensures
        map_content(*final(members)) == map_content(*old(members)).insert(
            key@,
            value_content(value),
        ),
{
    let _ = insert_member(members, key.to_string(), value);
}

} // verus!
