//! Regular-expression search, done by the `regex` crate.

use vstd::prelude::*;

verus! {

/// The capture groups of the leftmost match of `pattern` in `text`, by group
/// index, the whole match first; a group that took no part in the match is
/// `None`. The result is `None` where `regex::Regex::new` refuses `pattern`
/// or nothing in `text` matches it.
pub uninterp spec fn regex_captures(
    pattern: Seq<char>,
    text: Seq<char>,
) -> Option<Seq<Option<Seq<char>>>>;

/// `regex::Regex::new` on `pattern`, then `Regex::captures` on `text`; each
/// group is copied out with `Match::as_str`.
#[verifier::external_body]
pub(crate) fn captures(pattern: &str, text: &str) -> (groups: Option<Vec<Option<String>>>)
    ensures
        groups.deep_view() == regex_captures(pattern@, text@),
{
    let compiled = regex::Regex::new(pattern).ok()?;
    let found = compiled.captures(text)?;
    Some(found.iter().map(|group| group.map(|part| part.as_str().to_string())).collect())
}

/// What capture group `index` caught, where there is a match and the group
/// took part in it.
pub open spec fn captured(found: Option<Seq<Option<Seq<char>>>>, index: int) -> Option<Seq<char>> {
    match found {
        Some(groups) => if 0 <= index < groups.len() {
            groups[index]
        } else {
            None
        },
        None => None,
    }
}

/// What capture group `index` caught, where there is a match and the group
/// took part in it.
pub fn capture<'a>(found: &'a Option<Vec<Option<String>>>, index: usize) -> (text: Option<&'a str>)
    ensures
        text.deep_view() == captured(found.deep_view(), index as int),
{
    match found {
        Some(groups) => {
            if index < groups.len() {
                match &groups[index] {
                    Some(text) => Some(text.as_str()),
                    None => None,
                }
            } else {
                None
            }
        },
        None => None,
    }
}

} // verus!
