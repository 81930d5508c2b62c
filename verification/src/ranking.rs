//! Relevance scoring and ordering of a batch of results.
use vstd::prelude::*;

use crate::ext::{lower_of, to_lowercase_str};
use crate::result_item::ResultItem;
use crate::sorting::{
    insert_desc, key_is, lemma_insert_desc_split, lemma_insert_point, lemma_sort_desc_len,
    lemma_sort_desc_multiset, lemma_sort_desc_sorted, lemma_sort_desc_stable, sort_desc,
    sorted_desc,
};
use crate::text::{contains_str, find_char, first_idx, has_substring, lemma_first_idx, str_eq,
    starts_with_str};

verus! {

/// Count of pattern characters matched by one greedy left-to-right pass
/// over the text: each pattern character consumes the text up to and
/// including its first remaining occurrence; a miss consumes the rest.
pub open spec fn fuzzy_matched(t: Seq<char>, p: Seq<char>) -> int
    decreases p.len(),
{
    if p.len() == 0 {
        0
    } else {
        let i = first_idx(t, p[0]);
        if i >= 0 {
            1 + fuzzy_matched(t.skip(i + 1), p.drop_first())
        } else {
            0
        }
    }
}

/// Fuzzy coverage scaled to points: matched fraction of the pattern times
/// ten, rounded down. An empty pattern yields 0, not full coverage: a
/// deliberately preserved quirk.
pub open spec fn fuzzy_term(t: Seq<char>, p: Seq<char>) -> int {
    if p.len() == 0 {
        0
    } else {
        (fuzzy_matched(t, p) * 10) / (p.len() as int)
    }
}

/// The points the query earns against a title, both already lowercased:
/// an exact match outranks a prefix match, a prefix match a substring
/// match, and a substring match any fuzzy coverage.
pub open spec fn base_term(title_lower: Seq<char>, query_lower: Seq<char>) -> int {
    if title_lower == query_lower {
        100
    } else if query_lower.is_prefix_of(title_lower) {
        50
    } else if has_substring(title_lower, query_lower) {
        25
    } else {
        fuzzy_term(title_lower, query_lower)
    }
}

pub open spec fn clamp_i64(x: int) -> int {
    if x > i64::MAX {
        i64::MAX as int
    } else if x < i64::MIN {
        i64::MIN as int
    } else {
        x
    }
}

/// The final score of one result: the query's points against the lowercased
/// title, added to the provider's own prior score.
pub open spec fn final_score(r: ResultItem, query_lower: Seq<char>) -> int {
    clamp_i64(base_term(lower_of(r.title@), query_lower) + r.score)
}

/// The result with its score replaced by the final score.
pub open spec fn rescored(r: ResultItem, query_lower: Seq<char>) -> ResultItem {
    ResultItem { score: final_score(r, query_lower) as i64, ..r }
}

/// Every result rescored against the lowercased query, input order kept.
pub open spec fn rescore_all(s: Seq<ResultItem>, q: Seq<char>) -> Seq<ResultItem> {
    s.map_values(|r: ResultItem| rescored(r, lower_of(q)))
}

/// Orders results by their (clamped) final score.
pub open spec fn score_key() -> spec_fn(ResultItem) -> int {
    |r: ResultItem| r.score as int
}

/// What ranking a batch against a raw query produces: every result
/// rescored, then stably sorted by descending final score.
pub open spec fn spec_rank(s: Seq<ResultItem>, q: Seq<char>) -> Seq<ResultItem> {
    sort_desc(rescore_all(s, q), score_key())
}

/// Scores a batch of results against a query and sorts it in place.
pub struct Ranker;

impl Ranker {
    pub fn new() -> (r: Self)
        ensures
            r == Ranker,
    {
        Self
    }

    /// Overwrite every result's score with its final score against `query`
    /// and stably sort the batch by descending final score.
    pub fn rank_results(&self, results: &mut Vec<ResultItem>, query: &str)
        ensures
            final(results)@ == spec_rank(old(results)@, query@),
    {
        let ghost orig = results@;
        let query_lower = to_lowercase_str(query);
        let mut scored: Vec<ResultItem> = Vec::new();
        let ghost mut k: int = 0;
        while results.len() > 0
            invariant
                0 <= k <= orig.len(),
                query_lower@ == lower_of(query@),
                scored@ == rescore_all(orig, query@).take(k),
                results@ == orig.skip(k),
            decreases results@.len(),
        {
            let mut item = results.remove(0);
            proof {
                assert(item == orig[k]);
                assert(results@ =~= orig.skip(k + 1));
            }
            let score = self.calculate_score(&item, query_lower.as_str());
            item.score = score;
            proof {
                assert(item == rescored(orig[k], lower_of(query@)));
            }
            scored.push(item);
            proof {
                k = k + 1;
                assert(scored@ =~= rescore_all(orig, query@).take(k));
            }
        }
        proof {
            assert(scored@ =~= rescore_all(orig, query@));
        }
        sort_results(&mut scored);
        *results = scored;
    }

    /// The final score of one result: the match points of the lowercased
    /// title against the lowercased query, added to the provider's prior
    /// score, clamped at the score type's bounds.
    fn calculate_score(&self, result: &ResultItem, query_lower: &str) -> (s: i64)
        ensures
            s as int == clamp_i64(
                base_term(lower_of(result.title@), query_lower@) + result.score,
            ),
    {
        let title_lower = to_lowercase_str(result.title.as_str());
        let term: i64 = if str_eq(title_lower.as_str(), query_lower) {
            100
        } else if starts_with_str(title_lower.as_str(), query_lower) {
            50
        } else if contains_str(title_lower.as_str(), query_lower) {
            25
        } else {
            self.fuzzy_search(title_lower.as_str(), query_lower)
        };
        match result.score.checked_add(term) {
            Some(v) => v,
            None => i64::MAX,
        }
    }

    /// Fuzzy coverage of `pattern` over `text`, in points from 0 to 10.
    fn fuzzy_search(&self, text: &str, pattern: &str) -> (s: i64)
        ensures
            s as int == fuzzy_term(text@, pattern@),
            0 <= s <= 10,
    {
        let plen = pattern.unicode_len();
        if plen == 0 {
            return 0;
        }
        let m = fuzzy_matched_count(text, pattern);
        proof {
            lemma_fuzzy_matched_bounds(text@, pattern@);
            let mi = m as int;
            let pl = plen as int;
            vstd::arithmetic::mul::lemma_mul_inequality(mi, pl, 10);
            vstd::arithmetic::div_mod::lemma_div_is_ordered(mi * 10, pl * 10, pl);
            vstd::arithmetic::div_mod::lemma_div_multiples_vanish(10, pl);
            vstd::arithmetic::div_mod::lemma_div_pos_is_pos(mi * 10, pl);
        }
        (((m as u128) * 10) / (plen as u128)) as i64
    }
}

pub proof fn lemma_fuzzy_matched_bounds(t: Seq<char>, p: Seq<char>)
    ensures
        0 <= fuzzy_matched(t, p) <= p.len(),
    decreases p.len(),
{
    if p.len() > 0 {
        let i = first_idx(t, p[0]);
        if i >= 0 {
            lemma_fuzzy_matched_bounds(t.skip(i + 1), p.drop_first());
        }
    }
}

/// The greedy pass that `fuzzy_matched` describes.
fn fuzzy_matched_count(text: &str, pattern: &str) -> (m: usize)
    ensures
        m as int == fuzzy_matched(text@, pattern@),
        m <= pattern@.len(),
    decreases pattern@.len(),
{
    let plen = pattern.unicode_len();
    if plen == 0 {
        return 0;
    }
    let c = pattern.get_char(0);
    match find_char(text, c) {
        Some(i) => {
            let tlen = text.unicode_len();
            proof {
                lemma_first_idx(text@, c);
            }
            let rest_t = text.substring_char(i + 1, tlen);
            let rest_p = pattern.substring_char(1, plen);
            proof {
                assert(rest_t@ =~= text@.skip(i + 1));
                assert(rest_p@ =~= pattern@.drop_first());
            }
            let sub = fuzzy_matched_count(rest_t, rest_p);
            1 + sub
        },
        None => 0,
    }
}

/// Stable in-place sort by descending score.
fn sort_results(results: &mut Vec<ResultItem>)
    ensures
        final(results)@ == sort_desc(old(results)@, score_key()),
{
    let ghost orig = results@;
    let mut out: Vec<ResultItem> = Vec::new();
    let ghost mut k: int = 0;
    while results.len() > 0
        invariant
            0 <= k <= orig.len(),
            out@ == sort_desc(orig.take(k), score_key()),
            results@ == orig.skip(k),
        decreases results@.len(),
    {
        let x = results.remove(0);
        proof {
            assert(x == orig[k]);
            assert(results@ =~= orig.skip(k + 1));
        }
        insert_result(&mut out, x);
        proof {
            k = k + 1;
            assert(orig.take(k).drop_last() =~= orig.take(k - 1));
            assert(orig.take(k).last() == orig[k - 1]);
        }
    }
    proof {
        assert(orig.take(k) =~= orig);
    }
    *results = out;
}

/// Place one result after every at-least-as-good one already sorted in.
fn insert_result(out: &mut Vec<ResultItem>, x: ResultItem)
    ensures
        final(out)@ == insert_desc(old(out)@, x, score_key()),
{
    let n = out.len();
    let mut i: usize = 0;
    while i < n && out[i].score >= x.score
        invariant
            0 <= i <= n,
            n == out@.len(),
            out@ == old(out)@,
            forall|j: int| 0 <= j < i ==> (#[trigger] out@[j]).score >= x.score,
        decreases n - i,
    {
        i = i + 1;
    }
    proof {
        lemma_insert_point(out@, x, score_key());
        assert(insert_point_is(out@, x, i as int));
        lemma_insert_desc_split(out@, x, score_key());
    }
    out.insert(i, x);
    proof {
        assert(out@ =~= old(out)@.take(i as int) + seq![x] + old(out)@.skip(i as int));
    }
}

/// The scan above stopped exactly at the spec-level insert point.
spec fn insert_point_is(s: Seq<ResultItem>, x: ResultItem, i: int) -> bool {
    crate::sorting::insert_point(s, x, score_key()) == i
}

impl Default for Ranker {
    fn default() -> (r: Self)
        ensures
            r == Ranker,
    {
        Self::new()
    }
}

/// Ranking never reorders a strictly higher final score below a lower one.
pub proof fn lemma_rank_sorted(s: Seq<ResultItem>, q: Seq<char>)
    ensures
        sorted_desc(spec_rank(s, q), score_key()),
{
    lemma_sort_desc_sorted(rescore_all(s, q), score_key());
}

/// Ranking is stable: among equal final scores the pre-sort (input) order
/// is kept exactly.
pub proof fn lemma_rank_stable(s: Seq<ResultItem>, q: Seq<char>, v: int)
    ensures
        spec_rank(s, q).filter(key_is(score_key(), v)) == rescore_all(s, q).filter(
            key_is(score_key(), v),
        ),
{
    lemma_sort_desc_stable(rescore_all(s, q), score_key(), v);
}

/// Ranking keeps exactly the rescored input items, no more and no fewer.
pub proof fn lemma_rank_complete(s: Seq<ResultItem>, q: Seq<char>)
    ensures
        spec_rank(s, q).len() == s.len(),
        spec_rank(s, q).to_multiset() == rescore_all(s, q).to_multiset(),
{
    lemma_sort_desc_len(rescore_all(s, q), score_key());
    lemma_sort_desc_multiset(rescore_all(s, q), score_key());
}

} // verus!
