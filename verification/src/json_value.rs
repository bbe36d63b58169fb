//! Trusted view of `serde_json` values.
//!
//! The key-set document and a token's payload are JSON.  The library calls
//! `serde_json` to parse and to walk such documents and reasons about them
//! through `JsonModel`, a mathematical picture of a parsed value: what kind
//! it is, which members an object has, which elements an array has.  The
//! two spec functions below are deliberately left undefined; the trusted
//! wrappers state how each `serde_json` call relates to them, and that is
//! all the rest of the library ever assumes.

use vstd::prelude::*;

verus! {

#[verifier::external_type_specification]
#[verifier::external_body]
pub struct ExJsonValue(serde_json::Value);

/// A parsed JSON value, as the contracts see it.  A number is modelled
/// only by its value as an unsigned 64-bit integer, `None` when it has no
/// such value; nothing in this service reads numbers any other way.
pub enum JsonModel {
    Null,
    Bool(bool),
    Num(Option<u64>),
    Str(Seq<char>),
    Arr(Seq<JsonModel>),
    Obj(Map<Seq<char>, JsonModel>),
}

/// What a `serde_json::Value` holds.
pub uninterp spec fn json_model(v: serde_json::Value) -> JsonModel;

/// What parsing a text as JSON yields: `None` when the text is not valid
/// JSON, otherwise the parsed value.  Parsing depends on the text alone.
pub uninterp spec fn json_parse(s: Seq<char>) -> Option<JsonModel>;

/// Relies on `serde_json::from_str::<Value>`: whether a text parses, and
/// to what, is a function of the text; the error's rendering is carried
/// along for diagnostics but nothing is assumed of it.
#[verifier::external_body]
pub fn parse_json(s: &str) -> (r: Result<serde_json::Value, String>)
    ensures
        r is Ok <==> json_parse(s@) is Some,
        r matches Ok(v) ==> json_parse(s@) == Some(json_model(v)),
{
    match serde_json::from_str::<serde_json::Value>(s) {
        Ok(v) => Ok(v),
        Err(e) => Err(format!("{}", e)),
    }
}

/// Relies on `serde_json::Value::get` with a string index: on an object it
/// looks the member up, on everything else it returns `None`.
#[verifier::external_body]
pub fn json_get_member<'a>(v: &'a serde_json::Value, name: &str) -> (r: Option<&'a serde_json::Value>)
    ensures
        r is Some <==> (json_model(*v) matches JsonModel::Obj(m) && m.contains_key(name@)),
        r matches Some(w) ==> (json_model(*v) matches JsonModel::Obj(m)
            && json_model(*w) == m[name@]),
{
    v.get(name)
}

/// Relies on `serde_json::Value::get` with a `usize` index: on an array it
/// returns the element at that position, on everything else `None`.
#[verifier::external_body]
pub fn json_get_index<'a>(v: &'a serde_json::Value, i: usize) -> (r: Option<&'a serde_json::Value>)
    ensures
        r is Some <==> (json_model(*v) matches JsonModel::Arr(a) && i < a.len()),
        r matches Some(w) ==> (json_model(*v) matches JsonModel::Arr(a)
            && json_model(*w) == a[i as int]),
{
    v.get(i)
}

/// Relies on `serde_json::Value::as_str`: the characters of a JSON string,
/// `None` for every other kind of value.
#[verifier::external_body]
pub fn json_as_str(v: &serde_json::Value) -> (r: Option<String>)
    ensures
        r is Some <==> json_model(*v) is Str,
        r matches Some(s) ==> json_model(*v) == JsonModel::Str(s@),
{
    match v.as_str() {
        Some(s) => Some(s.to_string()),
        None => None,
    }
}

/// Relies on `serde_json::Value::as_u64`: the value of a JSON number when
/// it is an unsigned 64-bit integer, `None` otherwise and for every other
/// kind of value.
#[verifier::external_body]
pub fn json_as_u64(v: &serde_json::Value) -> (r: Option<u64>)
    ensures
        r == (match json_model(*v) {
            JsonModel::Num(n) => n,
            _ => None::<u64>,
        }),
{
    v.as_u64()
}

/// Whether `name` is a string member of the JSON object `j`.
pub open spec fn has_str_member(j: JsonModel, name: Seq<char>) -> bool {
    &&& j matches JsonModel::Obj(m)
    &&& m.contains_key(name)
    &&& m[name] is Str
}

/// A string member of a JSON object, if present with that kind.
pub open spec fn str_member_of(j: JsonModel, name: Seq<char>) -> Option<Seq<char>> {
    if has_str_member(j, name) {
        Some(j->Obj_0[name]->Str_0)
    } else {
        None
    }
}

/// Whether `name` is a member of the JSON object `j` holding an unsigned
/// 64-bit number.
pub open spec fn has_u64_member(j: JsonModel, name: Seq<char>) -> bool {
    &&& j matches JsonModel::Obj(m)
    &&& m.contains_key(name)
    &&& m[name] matches JsonModel::Num(n) && n is Some
}

/// A numeric member of a JSON object, if present as an unsigned 64-bit
/// number.
pub open spec fn u64_member_of(j: JsonModel, name: Seq<char>) -> Option<u64> {
    if has_u64_member(j, name) {
        Some(j->Obj_0[name]->Num_0->Some_0)
    } else {
        None
    }
}

/// Read a string member of a JSON object.
pub fn str_member(v: &serde_json::Value, name: &str) -> (r: Option<String>)
    ensures
        r is Some <==> str_member_of(json_model(*v), name@) is Some,
        r matches Some(s) ==> str_member_of(json_model(*v), name@) == Some(s@),
{
    match json_get_member(v, name) {
        Some(w) => json_as_str(w),
        None => None,
    }
}

/// Read an unsigned 64-bit numeric member of a JSON object.
pub fn u64_member(v: &serde_json::Value, name: &str) -> (r: Option<u64>)
    ensures
        r == u64_member_of(json_model(*v), name@),
{
    match json_get_member(v, name) {
        Some(w) => json_as_u64(w),
        None => None,
    }
}

} // verus!
