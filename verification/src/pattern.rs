//! Regular-expression matching, done by the `regex` crate.
use vstd::prelude::*;

verus! {

/// Whether `regex::Regex::new` accepts `pattern` (builds a regex from it).
pub uninterp spec fn regex_valid(pattern: Seq<char>) -> bool;

/// Whether the regex built from `pattern` matches somewhere in `text`
/// (`regex::Regex::is_match`).
pub uninterp spec fn regex_match(pattern: Seq<char>, text: Seq<char>) -> bool;

/// Calls `regex::Regex::new(pattern)` and reports whether it succeeded; the
/// answer is named by `regex_valid`.
#[verifier::external_body]
pub(crate) fn regex_compiles(pattern: &str) -> (r: bool)
    ensures
        r == regex_valid(pattern@),
{
    regex::Regex::new(pattern).is_ok()
}

/// Builds the regex of `pattern` with `regex::Regex::new` and calls
/// `is_match` on `text`; the answer is named by `regex_match`.  Only called
/// on a pattern that `regex_compiles` accepted.
#[verifier::external_body]
pub(crate) fn regex_is_match(pattern: &str, text: &str) -> (r: bool)
    requires
        regex_valid(pattern@),
    ensures
        r == regex_match(pattern@, text@),
{
    regex::Regex::new(pattern).unwrap().is_match(text)
}

} // verus!
