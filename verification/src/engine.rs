//! The one place where the regular-expression engine is called.
//!
//! Nothing in this module is proved: the contracts below say what the `regex`
//! crate is taken to do, and the rest of the library is verified against them.

use regex::Regex;
use vstd::prelude::*;

verus! {

/// The error that `regex::Regex::new` reports for a pattern it cannot compile.
#[verifier::external_type_specification]
#[verifier::external_body]
pub struct ExRegexError(regex::Error);

/// Whether `regex::Regex::new` accepts `pattern`, that is, returns `Ok`.
///
/// The answer depends on the text of the pattern alone: its syntax, and the
/// size of the program it compiles to under the engine's default limit.
pub uninterp spec fn regex_compiles(pattern: Seq<char>) -> bool;

/// What `regex::Regex::captures` finds when the regex compiled from `pattern`
/// searches `haystack`: `None` where there is no match, else, for each name in
/// `names`, in their order, what `Captures::name` gives for it: the text that
/// the group of that name matched, or `None` where the pattern has no such
/// group or the group took no part in the match.
pub uninterp spec fn regex_captures(
    pattern: Seq<char>,
    haystack: Seq<char>,
    names: Seq<Seq<char>>,
) -> Option<Seq<Option<Seq<char>>>>;

/// Compiles `pattern` with `regex::Regex::new` and searches `haystack` with
/// `regex::Regex::captures`, reading each group of `names` with
/// `Captures::name` and `Match::as_str`.
///
/// The contract claims: the call fails exactly where the pattern does not
/// compile; otherwise the result is the engine's answer for these three
/// arguments, and a match carries one entry for each name asked for.
#[verifier::external_body]
pub(crate) fn capture_named(pattern: &str, haystack: &str, names: &Vec<&str>) -> (found: Result<
    Option<Vec<Option<String>>>,
    regex::Error,
>)
    ensures
        found.is_ok() == regex_compiles(pattern@),
        found matches Ok(groups) ==> groups.deep_view() == regex_captures(
            pattern@,
            haystack@,
            names.deep_view(),
        ),
        found matches Ok(Some(texts)) ==> texts.len() == names.len(),
{
    let re = Regex::new(pattern)?;
    Ok(
        re.captures(haystack).map(
            |caps| names.iter().map(|name| caps.name(name).map(|m| m.as_str().to_string())).collect(),
        ),
    )
}

} // verus!
