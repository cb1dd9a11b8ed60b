//! The vocabulary through which the library reads and builds JSON values.
//!
//! JSON values are `serde_json::Value`s. The verifier cannot look inside one,
//! so what a value holds is given by [`json_of`], and every function here that
//! touches a value states its effect over that description. Nothing in this
//! file is proved: each contract restates what `serde_json` does.

use vstd::prelude::*;

verus! {

/// `serde_json::Value`, a JSON value.
#[verifier::external_type_specification]
#[verifier::external_body]
pub struct ExValue(serde_json::Value);

/// `serde_json::Map`, the members of a JSON object by their names.
#[verifier::external_type_specification]
#[verifier::external_body]
#[verifier::reject_recursive_types(K)]
#[verifier::reject_recursive_types(V)]
pub struct ExMap<K, V>(serde_json::Map<K, V>);

/// `serde_json::Error`, what the parser reports of a text that is not JSON.
#[verifier::external_type_specification]
#[verifier::external_body]
pub struct ExJsonError(serde_json::Error);

/// What a JSON value holds, one level deep.
pub enum Json {
    Null,
    Bool(bool),
    /// A number. The payload is its value where the number is held as an
    /// unsigned integer below 2^64, and `None` for every other number (a
    /// negative one, or one with a fraction or an exponent).
    Number(Option<u64>),
    Text(Seq<char>),
    List(Seq<serde_json::Value>),
    Object(Map<Seq<char>, serde_json::Value>),
}

/// The contents of a JSON value.
pub uninterp spec fn json_of(v: serde_json::Value) -> Json;

/// The members of a JSON object that is being put together.
pub uninterp spec fn members_of(m: serde_json::Map<String, serde_json::Value>) -> Map<
    Seq<char>,
    serde_json::Value,
>;

/// The value that a text parses to, `None` where the text is not JSON.
pub uninterp spec fn parsed_json(text: Seq<char>) -> Option<serde_json::Value>;

/// The compact text that a value is written as.
pub uninterp spec fn printed_json(v: serde_json::Value) -> Seq<char>;

/// `Value::Null`, the JSON null.
#[verifier::external_body]
pub(crate) fn null_value() -> (v: serde_json::Value)
    ensures
        json_of(v) == Json::Null,
{
    serde_json::Value::Null
}

/// `Value::Bool`, the JSON boolean `b`.
#[verifier::external_body]
pub(crate) fn bool_value(b: bool) -> (v: serde_json::Value)
    ensures
        json_of(v) == Json::Bool(b),
{
    serde_json::Value::Bool(b)
}

/// `Value::from(u64)`, the JSON number `n`; `Value::as_u64` gives `n` back.
#[verifier::external_body]
pub(crate) fn number_value(n: u64) -> (v: serde_json::Value)
    ensures
        json_of(v) == Json::Number(Some(n)),
{
    serde_json::Value::from(n)
}

/// `Value::String`, the JSON string with the characters of `s`.
#[verifier::external_body]
pub(crate) fn text_value(s: String) -> (v: serde_json::Value)
    ensures
        json_of(v) == Json::Text(s@),
{
    serde_json::Value::String(s)
}

/// `Value::Array`, the JSON array of `items`, in their order.
#[verifier::external_body]
pub(crate) fn list_value(items: Vec<serde_json::Value>) -> (v: serde_json::Value)
    ensures
        json_of(v) == Json::List(items@),
{
    serde_json::Value::Array(items)
}

/// `Value::Object`, the JSON object with the members of `members`.
#[verifier::external_body]
pub(crate) fn object_value(members: serde_json::Map<String, serde_json::Value>) -> (v:
    serde_json::Value)
    ensures
        json_of(v) == Json::Object(members_of(members)),
{
    serde_json::Value::Object(members)
}

/// `Map::new`, a map without members.
#[verifier::external_body]
pub(crate) fn new_members() -> (m: serde_json::Map<String, serde_json::Value>)
    ensures
        members_of(m) == (Map::<Seq<char>, serde_json::Value>::empty()),
{
    serde_json::Map::new()
}

/// `Map::insert`: afterwards `key` stands for `v`, whether or not the key was
/// there before, and every other member is as it was.
#[verifier::external_body]
pub(crate) fn put_member(
    m: &mut serde_json::Map<String, serde_json::Value>,
    key: &str,
    v: serde_json::Value,
)
    ensures
        members_of(*final(m)) == members_of(*old(m)).insert(key@, v),
{
    m.insert(key.to_string(), v);
}

/// `Value::is_null`: whether the value is the JSON null.
#[verifier::external_body]
pub(crate) fn is_null(v: &serde_json::Value) -> (b: bool)
    ensures
        b == (json_of(*v) is Null),
{
    v.is_null()
}

/// `Value::is_object`: whether the value is a JSON object.
#[verifier::external_body]
pub(crate) fn is_object(v: &serde_json::Value) -> (b: bool)
    ensures
        b == (json_of(*v) is Object),
{
    v.is_object()
}

/// `Value::as_bool`: the boolean of a JSON boolean, `None` for any other value.
#[verifier::external_body]
pub(crate) fn as_bool(v: &serde_json::Value) -> (r: Option<bool>)
    ensures
        r == (match json_of(*v) {
            Json::Bool(b) => Some(b),
            _ => None,
        }),
{
    v.as_bool()
}

/// `Value::as_u64`: the value of a JSON number that is held as an unsigned
/// integer below 2^64, `None` for any other number and any other value.
#[verifier::external_body]
pub(crate) fn as_u64(v: &serde_json::Value) -> (r: Option<u64>)
    ensures
        r == (match json_of(*v) {
            Json::Number(n) => n,
            _ => None,
        }),
{
    v.as_u64()
}

/// `Value::as_str`: the characters of a JSON string, `None` for any other value.
#[verifier::external_body]
pub(crate) fn as_text(v: &serde_json::Value) -> (r: Option<&str>)
    ensures
        match r {
            Some(s) => json_of(*v) == Json::Text(s@),
            None => !(json_of(*v) is Text),
        },
{
    v.as_str()
}

/// `Value::as_array`: the items of a JSON array, `None` for any other value.
#[verifier::external_body]
pub(crate) fn as_list(v: &serde_json::Value) -> (r: Option<&Vec<serde_json::Value>>)
    ensures
        match r {
            Some(items) => json_of(*v) == Json::List(items@),
            None => !(json_of(*v) is List),
        },
{
    v.as_array()
}

/// `Value::get` with a string: the member of a JSON object under `key`,
/// `None` where the object has no such member or the value is no object.
#[verifier::external_body]
pub(crate) fn member<'a>(v: &'a serde_json::Value, key: &str) -> (r: Option<&'a serde_json::Value>)
    ensures
        match r {
            Some(found) => json_of(*v) matches Json::Object(m) && m.contains_key(key@) && m[key@]
                == *found,
            None => !(json_of(*v) matches Json::Object(m) && m.contains_key(key@)),
        },
{
    v.get(key)
}

/// `Value::clone`: a copy that is equal to the value.
pub assume_specification[ <serde_json::Value as Clone>::clone ](v: &serde_json::Value) -> (r:
    serde_json::Value)
    ensures
        r == *v,
;

/// `Value::to_string`: the value written as compact JSON text.
#[verifier::external_body]
pub(crate) fn print_json(v: &serde_json::Value) -> (s: String)
    ensures
        s@ == printed_json(*v),
{
    v.to_string()
}

/// `serde_json::from_str` at `Value`: the value that the text stands for, or
/// the parser's error where the text is not JSON.
#[verifier::external_body]
pub(crate) fn parse_json(text: &str) -> (r: Result<serde_json::Value, serde_json::Error>)
    ensures
        match r {
            Ok(v) => parsed_json(text@) == Some(v),
            Err(_) => parsed_json(text@) is None,
        },
{
    serde_json::from_str::<serde_json::Value>(text)
}

/// `Error::to_string`: the parser's description of what it rejected. Nothing
/// is claimed of the wording.
#[verifier::external_body]
pub(crate) fn error_text(e: &serde_json::Error) -> (s: String) {
    e.to_string()
}

} // verus!
