//! How a provider opts into handling a query.
use vstd::prelude::*;

use crate::text::{
    starts_with_str, trim_spec, trim_start_spec, trim_start_str, trim_str,
};

verus! {

/// The rule by which a provider claims a raw query string.
///
/// `Implicit` claims every query; `Explicit` claims queries that, after
/// trimming, start with its keyword; `Pattern` is a reserved extension point
/// and never matches.
#[derive(Debug, Clone, PartialEq)]
pub enum Trigger {
    Implicit,
    Explicit { keyword: String },
    Pattern(String),
}

/// What `Trigger::matches` returns: the residual query handed to the
/// provider, or `None` when the trigger does not claim the query.
pub open spec fn spec_matches(t: Trigger, q: Seq<char>) -> Option<Seq<char>> {
    match t {
        Trigger::Implicit => Some(q),
        Trigger::Explicit { keyword } => {
            let trimmed = trim_spec(q);
            if keyword@.is_prefix_of(trimmed) {
                Some(trim_start_spec(trimmed.skip(keyword@.len() as int)))
            } else {
                None
            }
        },
        Trigger::Pattern(_) => None,
    }
}

impl Trigger {
    /// Decide whether this trigger claims `query`; on a claim, return the
    /// residual query (the text after an explicit keyword, with the
    /// whitespace that followed the keyword stripped).
    pub fn matches(&self, query: &str) -> (r: Option<String>)
        ensures
            r is Some <==> spec_matches(*self, query@) is Some,
            r is Some ==> r->0@ == spec_matches(*self, query@)->0,
    {
        match self {
            Trigger::Implicit => Some(query.to_owned()),
            Trigger::Explicit { keyword } => {
                let trimmed = trim_str(query);
                if starts_with_str(trimmed, keyword.as_str()) {
                    let klen = keyword.as_str().unicode_len();
                    let tlen = trimmed.unicode_len();
                    let rest = trimmed.substring_char(klen, tlen);
                    proof {
                        assert(rest@ =~= trim_spec(query@).skip(keyword@.len() as int));
                    }
                    let stripped = trim_start_str(rest);
                    Some(stripped.to_owned())
                } else {
                    None
                }
            },
            Trigger::Pattern(_pattern) => None,
        }
    }

    /// True only for the `Implicit` variant.
    pub fn is_implicit(&self) -> (r: bool)
        ensures
            r == (*self is Implicit),
    {
        matches!(self, Trigger::Implicit)
    }
}

/// An implicit trigger claims every query, the empty one included, and
/// hands it on unchanged.
pub proof fn lemma_implicit_matches_identity(q: Seq<char>)
    ensures
        spec_matches(Trigger::Implicit, q) == Some(q),
{
}

} // verus!
