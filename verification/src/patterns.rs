//! The regular-expression searches that the recognition rules rest on.
//! Matching itself is the `regex` crate's work: what a search returns is
//! named here, not defined.

use vstd::prelude::*;

verus! {

/// The error with which `regex` refuses a pattern.
#[verifier::external_type_specification]
#[verifier::external_body]
pub struct ExPatternFault(regex::Error);

/// What `regex::Regex::captures` finds for `pattern` in `text`: `None`
/// where the pattern does not compile; else the groups of the leftmost
/// match, if there is a match. Group 0 is the whole match, and a group
/// that took no part in the match is `None`.
pub uninterp spec fn regex_first_match(pattern: Seq<char>, text: Seq<char>) -> Option<
    Option<Seq<Option<Seq<char>>>>,
>;

/// What `regex::Regex::captures_iter` yields for `pattern` in `text`:
/// `None` where the pattern does not compile; else the groups of each of
/// the successive matches, which do not overlap, in their order.
pub uninterp spec fn regex_all_matches(pattern: Seq<char>, text: Seq<char>) -> Option<
    Seq<Seq<Option<Seq<char>>>>,
>;

/// No group is longer than the text it was taken from.
pub open spec fn groups_fit(groups: Seq<Option<Seq<char>>>, text: Seq<char>) -> bool {
    forall|i: int|
        0 <= i < groups.len() && groups[i] is Some ==> (#[trigger] groups[i])->0.len()
            <= text.len()
}

/// Compiles `pattern` with `regex::Regex::new` and searches `text` once
/// with `Regex::captures`. An error is the compiler's. The groups of the
/// match are copied out with `Captures::iter` and `Match::as_str`; the
/// contract names them, and adds that each group is a piece of `text` and
/// so no longer than it.
#[verifier::external_body]
pub(crate) fn first_match(pattern: &str, text: &str) -> (r: Result<
    Option<Vec<Option<String>>>,
    regex::Error,
>)
    ensures
        r is Ok <==> regex_first_match(pattern@, text@) is Some,
        r matches Ok(found) ==> Some(found.deep_view()) == regex_first_match(pattern@, text@),
        r matches Ok(Some(groups)) ==> groups_fit(groups.deep_view(), text@),
{
    let re = regex::Regex::new(pattern)?;
    Ok(re.captures(text).map(|c| c.iter().map(|m| m.map(|g| g.as_str().to_string())).collect()))
}

/// Compiles `pattern` with `regex::Regex::new` and walks all matches in
/// `text` with `Regex::captures_iter`. An error is the compiler's. The
/// groups of each match are copied out with `Captures::iter` and
/// `Match::as_str`; the contract names them.
#[verifier::external_body]
pub(crate) fn all_matches(pattern: &str, text: &str) -> (r: Result<
    Vec<Vec<Option<String>>>,
    regex::Error,
>)
    ensures
        r is Ok <==> regex_all_matches(pattern@, text@) is Some,
        r matches Ok(found) ==> Some(found.deep_view()) == regex_all_matches(pattern@, text@),
{
    let re = regex::Regex::new(pattern)?;
    Ok(
        re.captures_iter(text).map(
            |c| c.iter().map(|m| m.map(|g| g.as_str().to_string())).collect(),
        ).collect(),
    )
}

} // verus!
