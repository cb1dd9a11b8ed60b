//! Operations on texts.
//!
//! Trimming, lowering the case and making a fresh identifier are carried out
//! by the standard library and by `uuid`; their contracts here are believed,
//! not proved, and say what the rest of the crate relies on.

use vstd::prelude::*;
use vstd::string::StringExecFns;

verus! {

/// Whether a character has the Unicode property White_Space.
pub uninterp spec fn white_space(c: char) -> bool;

/// `t` is `s` without the white space at its two ends.
pub open spec fn is_trim_of(t: Seq<char>, s: Seq<char>) -> bool {
    exists|i: int, j: int|
        {
            &&& 0 <= i <= j <= s.len()
            &&& #[trigger] s.subrange(i, j) == t
            &&& forall|k: int| 0 <= k < i ==> white_space(#[trigger] s[k])
            &&& forall|k: int| j <= k < s.len() ==> white_space(#[trigger] s[k])
            &&& i < j ==> !white_space(s[i]) && !white_space(s[j - 1])
        }
}

/// The lower-case form of an ASCII capital; any other character unchanged.
pub open spec fn lower_char(c: char) -> char {
    if 'A' <= c && c <= 'Z' {
        ((c as u8) + 32u8) as char
    } else {
        c
    }
}

/// A text with each ASCII capital replaced by its lower-case form.
pub open spec fn ascii_lower(s: Seq<char>) -> Seq<char> {
    Seq::new(s.len(), |i: int| lower_char(s[i]))
}

/// Whether two texts have the same characters.
pub fn same_text(a: &str, b: &str) -> (same: bool)
    ensures
        same == (a@ == b@),
{
    String::from_str(a) == String::from_str(b)
}

/// `str::trim`: the slice left when leading and trailing white space, in
/// the sense of Unicode's White_Space property, is taken away.
#[verifier::external_body]
pub(crate) fn trim(s: &str) -> (t: &str)
    ensures
        is_trim_of(t@, s@),
        t@.len() > 0 ==> !white_space(t@[0]) && !white_space(t@[t@.len() - 1]),
{
    s.trim()
}

/// `str::to_ascii_lowercase`: a copy in which `A` to `Z` became `a` to `z`
/// and nothing else changed.
#[verifier::external_body]
pub(crate) fn to_ascii_lowercase(s: &str) -> (r: String)
    ensures
        r@ == ascii_lower(s@),
{
    s.to_ascii_lowercase()
}

/// `Uuid::new_v4` written in its hyphenated form: a random identifier of 36
/// characters. Two calls give different texts for all practical purposes,
/// which no contract can say.
#[verifier::external_body]
pub(crate) fn fresh_state_id() -> (id: String)
    ensures
        id@.len() == 36,
{
    uuid::Uuid::new_v4().to_string()
}

} // verus!
