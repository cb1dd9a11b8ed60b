//! Reading the members of a JSON object: what each kind of member must look
//! like, and the flaw that is reported where it does not.
//!
//! A flaw found while reading is a parse error. Its detail begins with a
//! context (`input json: ` for a request, for instance), names the member,
//! and says what was expected.

use crate::error::{Flaw, OAuthCardError};
use crate::json::{as_bool, as_list, as_text, as_u64, is_null, is_object, json_of, member, Json};
use crate::model::texts;
use crate::shape::member_of;
use vstd::prelude::*;
use vstd::string::StringExecFns;

verus! {

/// What was read is what was expected: the value with the expected view,
/// or the error that stands for the expected flaw.
pub open spec fn agrees<T: View>(
    r: Result<T, OAuthCardError>,
    expected: Result<T::V, Flaw>,
) -> bool {
    match expected {
        Ok(view) => r matches Ok(x) && x@ == view,
        Err(f) => r matches Err(e) && e@ == f,
    }
}

/// The flaw of a member that is not what it must be.
pub open spec fn misfit(context: Seq<char>, key: Seq<char>, expected: Seq<char>) -> Flaw {
    Flaw::Parse(context + key + expected)
}

/// Builds the error for a member that is not what it must be.
pub fn misfit_error(context: &str, key: &str, expected: &str) -> (e: OAuthCardError)
    ensures
        e@ == misfit(context@, key@, expected@),
{
    OAuthCardError::Parse(String::from_str(context).concat(key).concat(expected))
}

/// The flaw of a value that is no JSON object.
pub open spec fn no_object(context: Seq<char>) -> Flaw {
    Flaw::Parse(context + "expected an object"@)
}

/// Checks that a value is a JSON object.
pub fn check_object(v: &serde_json::Value, context: &str) -> (r: Result<(), OAuthCardError>)
    ensures
        match r {
            Ok(_) => json_of(*v) is Object,
            Err(e) => !(json_of(*v) is Object) && e@ == no_object(context@),
        },
{
    if is_object(v) {
        Ok(())
    } else {
        Err(OAuthCardError::Parse(String::from_str(context).concat("expected an object")))
    }
}

/// The member under `key` where it is there and is not null.
pub open spec fn present_member(v: serde_json::Value, key: Seq<char>) -> Option<
    serde_json::Value,
> {
    match member_of(v, key) {
        Some(x) => if json_of(x) is Null {
            None
        } else {
            Some(x)
        },
        None => None,
    }
}

/// Looks up the member under `key`, taking a null for no member.
pub fn present<'a>(v: &'a serde_json::Value, key: &str) -> (r: Option<&'a serde_json::Value>)
    ensures
        match r {
            Some(x) => present_member(*v, key@) == Some(*x),
            None => present_member(*v, key@) is None,
        },
{
    match member(v, key) {
        Some(x) => if is_null(x) {
            None
        } else {
            Some(x)
        },
        None => None,
    }
}

/// Looks up the member under `key` and copies it, taking a null for no
/// member.
pub fn read_present(v: &serde_json::Value, key: &str) -> (r: Option<serde_json::Value>)
    ensures
        r == present_member(*v, key@),
{
    match present(v, key) {
        Some(x) => Some(x.clone()),
        None => None,
    }
}

/// A text that must be there: the string under `key`.
pub open spec fn needed_text(v: serde_json::Value, key: Seq<char>, context: Seq<char>) -> Result<
    Seq<char>,
    Flaw,
> {
    match member_of(v, key) {
        Some(x) => match json_of(x) {
            Json::Text(s) => Ok(s),
            _ => Err(misfit(context, key, " must be a string"@)),
        },
        None => Err(misfit(context, key, " must be a string"@)),
    }
}

/// Reads a text that must be there.
pub fn read_needed_text(v: &serde_json::Value, key: &str, context: &str) -> (r: Result<
    String,
    OAuthCardError,
>)
    ensures
        agrees(r, needed_text(*v, key@, context@)),
{
    let found = match member(v, key) {
        Some(x) => as_text(x),
        None => None,
    };
    match found {
        Some(s) => Ok(s.to_owned()),
        None => Err(misfit_error(context, key, " must be a string")),
    }
}

/// A text that may be left out: the string under `key`, none where the
/// member is missing or null.
pub open spec fn optional_text(v: serde_json::Value, key: Seq<char>, context: Seq<char>) -> Result<
    Option<Seq<char>>,
    Flaw,
> {
    match present_member(v, key) {
        Some(x) => match json_of(x) {
            Json::Text(s) => Ok(Some(s)),
            _ => Err(misfit(context, key, " must be a string"@)),
        },
        None => Ok(None),
    }
}

/// Reads a text that may be left out.
pub fn read_optional_text(v: &serde_json::Value, key: &str, context: &str) -> (r: Result<
    Option<String>,
    OAuthCardError,
>)
    ensures
        match optional_text(*v, key@, context@) {
            Ok(o) => r matches Ok(t) && crate::model::opt_text(t) == o,
            Err(f) => r matches Err(e) && e@ == f,
        },
{
    match present(v, key) {
        Some(x) => match as_text(x) {
            Some(s) => Ok(Some(s.to_owned())),
            None => Err(misfit_error(context, key, " must be a string")),
        },
        None => Ok(None),
    }
}

/// A number that may be left out: the unsigned integer under `key`, none
/// where the member is missing or null.
pub open spec fn optional_number(
    v: serde_json::Value,
    key: Seq<char>,
    context: Seq<char>,
) -> Result<Option<u64>, Flaw> {
    match present_member(v, key) {
        Some(x) => match json_of(x) {
            Json::Number(Some(n)) => Ok(Some(n)),
            _ => Err(misfit(context, key, " must be an unsigned integer"@)),
        },
        None => Ok(None),
    }
}

/// Reads a number that may be left out.
pub fn read_optional_number(v: &serde_json::Value, key: &str, context: &str) -> (r: Result<
    Option<u64>,
    OAuthCardError,
>)
    ensures
        match optional_number(*v, key@, context@) {
            Ok(n) => r == Ok::<Option<u64>, OAuthCardError>(n),
            Err(f) => r matches Err(e) && e@ == f,
        },
{
    match present(v, key) {
        Some(x) => match as_u64(x) {
            Some(n) => Ok(Some(n)),
            None => Err(misfit_error(context, key, " must be an unsigned integer")),
        },
        None => Ok(None),
    }
}

/// A switch with a default: the boolean under `key`, `default` where there
/// is no such member.
pub open spec fn switch_or(
    v: serde_json::Value,
    key: Seq<char>,
    default: bool,
    context: Seq<char>,
) -> Result<bool, Flaw> {
    match member_of(v, key) {
        Some(x) => match json_of(x) {
            Json::Bool(b) => Ok(b),
            _ => Err(misfit(context, key, " must be a boolean"@)),
        },
        None => Ok(default),
    }
}

/// Reads a switch with a default.
pub fn read_switch_or(v: &serde_json::Value, key: &str, default: bool, context: &str) -> (r:
    Result<bool, OAuthCardError>)
    ensures
        match switch_or(*v, key@, default, context@) {
            Ok(b) => r == Ok::<bool, OAuthCardError>(b),
            Err(f) => r matches Err(e) && e@ == f,
        },
{
    match member(v, key) {
        Some(x) => match as_bool(x) {
            Some(b) => Ok(b),
            None => Err(misfit_error(context, key, " must be a boolean")),
        },
        None => Ok(default),
    }
}

/// Every item of a list is a string.
pub open spec fn all_text(items: Seq<serde_json::Value>) -> bool {
    forall|i: int| 0 <= i < items.len() ==> json_of(#[trigger] items[i]) is Text
}

/// The strings of a list of strings.
pub open spec fn text_items(items: Seq<serde_json::Value>) -> Seq<Seq<char>> {
    Seq::new(items.len(), |i: int| json_of(items[i])->Text_0)
}

/// The strings that a value lists: the value must be an array of strings.
pub open spec fn listed_texts(x: serde_json::Value) -> Option<Seq<Seq<char>>> {
    match json_of(x) {
        Json::List(items) => if all_text(items) {
            Some(text_items(items))
        } else {
            None
        },
        _ => None,
    }
}

/// Reads the strings that a value lists.
pub fn read_listed_texts(x: &serde_json::Value) -> (r: Option<Vec<String>>)
    ensures
        match listed_texts(*x) {
            Some(s) => r matches Some(found) && texts(found@) == s,
            None => r is None,
        },
{
    let items = match as_list(x) {
        Some(items) => items,
        None => {
            return None;
        },
    };
    let mut found: Vec<String> = Vec::new();
    let mut i: usize = 0;
    while i < items.len()
        invariant
            json_of(*x) == Json::List(items@),
            i <= items.len(),
            found.len() == i,
            forall|k: int| 0 <= k < i ==> json_of(#[trigger] items@[k]) == Json::Text(found@[k]@),
        decreases items.len() - i,
    {
        match as_text(&items[i]) {
            Some(s) => {
                found.push(s.to_owned());
            },
            None => {
                return None;
            },
        }
        i = i + 1;
    }
    assert(texts(found@) =~= text_items(items@));
    Some(found)
}

/// A list of texts that may be left out: the strings of the array under
/// `key`, none where there is no such member.
pub open spec fn optional_texts(v: serde_json::Value, key: Seq<char>, context: Seq<char>) -> Result<
    Seq<Seq<char>>,
    Flaw,
> {
    match member_of(v, key) {
        Some(x) => match listed_texts(x) {
            Some(s) => Ok(s),
            None => Err(misfit(context, key, " must be a list of strings"@)),
        },
        None => Ok(Seq::empty()),
    }
}

/// Reads a list of texts that may be left out.
pub fn read_optional_texts(v: &serde_json::Value, key: &str, context: &str) -> (r: Result<
    Vec<String>,
    OAuthCardError,
>)
    ensures
        match optional_texts(*v, key@, context@) {
            Ok(s) => r matches Ok(found) && texts(found@) == s,
            Err(f) => r matches Err(e) && e@ == f,
        },
{
    match member(v, key) {
        Some(x) => match read_listed_texts(x) {
            Some(found) => Ok(found),
            None => Err(misfit_error(context, key, " must be a list of strings")),
        },
        None => {
            let found: Vec<String> = Vec::new();
            assert(texts(found@) =~= Seq::<Seq<char>>::empty());
            Ok(found)
        },
    }
}

/// A list of texts that must be there: the strings of the array under
/// `key`.
pub open spec fn needed_texts(v: serde_json::Value, key: Seq<char>, context: Seq<char>) -> Result<
    Seq<Seq<char>>,
    Flaw,
> {
    match member_of(v, key) {
        Some(x) => match listed_texts(x) {
            Some(s) => Ok(s),
            None => Err(misfit(context, key, " must be a list of strings"@)),
        },
        None => Err(misfit(context, key, " must be a list of strings"@)),
    }
}

/// Reads a list of texts that must be there.
pub fn read_needed_texts(v: &serde_json::Value, key: &str, context: &str) -> (r: Result<
    Vec<String>,
    OAuthCardError,
>)
    ensures
        match needed_texts(*v, key@, context@) {
            Ok(s) => r matches Ok(found) && texts(found@) == s,
            Err(f) => r matches Err(e) && e@ == f,
        },
{
    let found = match member(v, key) {
        Some(x) => read_listed_texts(x),
        None => None,
    };
    match found {
        Some(found) => Ok(found),
        None => Err(misfit_error(context, key, " must be a list of strings")),
    }
}

} // verus!
