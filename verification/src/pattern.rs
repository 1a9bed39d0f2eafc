//! Searching a text for a pattern, through the `regex` crate.

use vstd::prelude::*;

verus! {

/// The error of the `regex` crate, returned when a pattern does not compile.
#[verifier::external_type_specification]
#[verifier::external_body]
pub struct ExRegexError(regex::Error);

/// What a search for `pattern` in `text` yields: `None` when the pattern does
/// not compile, `Some(None)` when it matches nowhere, and otherwise the
/// capture groups of the leftmost match, group 0 (the whole match) first, a
/// group that took no part in the match being `None`.
pub uninterp spec fn regex_captures(pattern: Seq<char>, text: Seq<char>) -> Option<
    Option<Seq<Option<Seq<char>>>>,
>;

/// Compiles `pattern` with `regex::Regex::new` and searches `text` with
/// `Regex::captures`. The contract only gives the outcome its name: an error
/// when the pattern is rejected, otherwise the text of every capture group of
/// the leftmost match, or `None` when there is no match.
#[verifier::external_body]
pub(crate) fn search_captures(pattern: &str, text: &str) -> (r: Result<
    Option<Vec<Option<String>>>,
    regex::Error,
>)
    ensures
        regex_captures(pattern@, text@) == match r {
            Ok(found) => Some(found.deep_view()),
            Err(_) => None,
        },
{
    let re = regex::Regex::new(pattern)?;
    Ok(
        re.captures(text).map(
            |caps| caps.iter().map(|group| group.map(|m| m.as_str().to_string())).collect(),
        ),
    )
}

} // verus!
