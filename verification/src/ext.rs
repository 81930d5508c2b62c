//! Trusted declarations for the outside crates the library calls.
//!
//! Everything in this module is believed, not proved: each item's comment
//! names the outside function or type it relies on.
use fuzzy_matcher::FuzzyMatcher;
use vstd::prelude::*;

verus! {

/// Declares `serde_json::Value`, the opaque payload type carried (never
/// inspected) by plugin contexts, result metadata and plugin configuration.
#[verifier::external_type_specification]
#[verifier::external_body]
pub struct ExValue(serde_json::Value);

/// Relies on `serde_json::Value`'s derived `Clone`: the clone of a value is
/// equal to it.
pub assume_specification[ <serde_json::Value as Clone>::clone ](v: &serde_json::Value) -> (r:
    serde_json::Value)
    ensures
        r == *v,
;

/// The character sequence that `str::to_lowercase` returns for `s`: a pure
/// function of the characters alone, left unspecified here.
pub uninterp spec fn lower_of(s: Seq<char>) -> Seq<char>;

/// Relies on `str::to_lowercase`: Unicode lowercasing, a function of the
/// characters alone.
#[verifier::external_body]
pub fn to_lowercase_str(s: &str) -> (r: String)
    ensures
        r@ == lower_of(s@),
{
    s.to_lowercase()
}

/// The score that `fuzzy_matcher::skim::SkimMatcherV2`, in its default
/// configuration, assigns when matching `pattern` against `choice`, or
/// `None` when the pattern does not fuzzy-match; a deterministic function
/// of the two strings, left unspecified here.
pub uninterp spec fn skim_score(choice: Seq<char>, pattern: Seq<char>) -> Option<i64>;

/// Relies on `SkimMatcherV2::fuzzy_match` (through fuzzy_matcher's
/// `FuzzyMatcher` trait): a deterministic fuzzy-match score.
#[verifier::external_body]
pub fn skim_fuzzy_match(choice: &str, pattern: &str) -> (r: Option<i64>)
    ensures
        r == skim_score(choice@, pattern@),
{
    fuzzy_matcher::skim::SkimMatcherV2::default().fuzzy_match(choice, pattern)
}

} // verus!
