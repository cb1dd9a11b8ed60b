//! What a JSON value looks like: predicates over the contents of values, and
//! the functions that build values of a given shape.

use crate::json::{
    json_of, list_value, null_value, number_value, text_value, Json,
};
use crate::model::{opt_text, texts};
use vstd::prelude::*;

verus! {

/// The value is a JSON object whose member names are exactly `keys`.
pub open spec fn has_members(v: serde_json::Value, keys: Set<Seq<char>>) -> bool {
    json_of(v) matches Json::Object(m) && m.dom() =~= keys
}

/// The member of a JSON object under `key`; `None` where there is none, or
/// the value is no object.
pub open spec fn member_of(v: serde_json::Value, key: Seq<char>) -> Option<serde_json::Value> {
    match json_of(v) {
        Json::Object(m) => if m.contains_key(key) {
            Some(m[key])
        } else {
            None
        },
        _ => None,
    }
}

/// The value is the JSON string `s`.
pub open spec fn holds_text(v: serde_json::Value, s: Seq<char>) -> bool {
    json_of(v) == Json::Text(s)
}

/// The value is the JSON string `s`, or null where there is no text.
pub open spec fn holds_opt_text(v: serde_json::Value, o: Option<Seq<char>>) -> bool {
    match o {
        Some(s) => json_of(v) == Json::Text(s),
        None => json_of(v) == Json::Null,
    }
}

/// The value is the JSON number `n`, or null where there is no number.
pub open spec fn holds_opt_number(v: serde_json::Value, o: Option<u64>) -> bool {
    match o {
        Some(n) => json_of(v) == Json::Number(Some(n)),
        None => json_of(v) == Json::Null,
    }
}

/// The value is the JSON array of the strings `items`, in their order.
pub open spec fn holds_texts(v: serde_json::Value, items: Seq<Seq<char>>) -> bool {
    json_of(v) matches Json::List(l) && l.len() == items.len() && forall|i: int|
        0 <= i < l.len() ==> json_of(#[trigger] l[i]) == Json::Text(items[i])
}

/// The value is a JSON object whose member `key` is the string `s`.
pub open spec fn text_member(v: serde_json::Value, key: Seq<char>, s: Seq<char>) -> bool {
    member_of(v, key) matches Some(x) && holds_text(x, s)
}

/// The JSON string of a text.
pub fn str_value(s: &str) -> (v: serde_json::Value)
    ensures
        holds_text(v, s@),
{
    text_value(s.to_owned())
}

/// The JSON string of a text, or null.
pub fn opt_text_value(o: &Option<String>) -> (v: serde_json::Value)
    ensures
        holds_opt_text(v, opt_text(*o)),
{
    match o {
        Some(s) => text_value(s.clone()),
        None => null_value(),
    }
}

/// The JSON number of an integer, or null.
pub fn opt_number_value(o: Option<u64>) -> (v: serde_json::Value)
    ensures
        holds_opt_number(v, o),
{
    match o {
        Some(n) => number_value(n),
        None => null_value(),
    }
}

/// The JSON array of a list of texts.
pub fn texts_value(items: &Vec<String>) -> (v: serde_json::Value)
    ensures
        holds_texts(v, texts(items@)),
{
    let mut list: Vec<serde_json::Value> = Vec::new();
    let mut i: usize = 0;
    while i < items.len()
        invariant
            i <= items.len(),
            list.len() == i,
            forall|k: int| 0 <= k < i ==> json_of(#[trigger] list@[k]) == Json::Text(items@[k]@),
        decreases items.len() - i,
    {
        list.push(text_value(items[i].clone()));
        i = i + 1;
    }
    list_value(list)
}

/// The value is a JSON object with no member names but those in `keys`.
pub open spec fn members_within(v: serde_json::Value, keys: Set<Seq<char>>) -> bool {
    json_of(v) matches Json::Object(m) && m.dom().subset_of(keys)
}

/// The value is a JSON object whose member `key` is the string `s` where
/// there is a text, and which has no such member where there is none.
pub open spec fn kept_text_member(
    v: serde_json::Value,
    key: Seq<char>,
    o: Option<Seq<char>>,
) -> bool {
    match o {
        Some(s) => text_member(v, key, s),
        None => member_of(v, key) is None,
    }
}

/// The value is a JSON object whose member `key` is the string `s` where
/// there is a text, and null where there is none.
pub open spec fn nullable_text_member(
    v: serde_json::Value,
    key: Seq<char>,
    o: Option<Seq<char>>,
) -> bool {
    member_of(v, key) matches Some(x) && holds_opt_text(x, o)
}

/// The value is a JSON object whose member `key` is the value `x` where
/// there is one, and which has no such member where there is none.
pub open spec fn kept_member(
    v: serde_json::Value,
    key: Seq<char>,
    o: Option<serde_json::Value>,
) -> bool {
    member_of(v, key) == o
}

} // verus!
