//! One search: resolve the claiming providers, run each one's search,
//! collect every unit's outcome, and rank what succeeded.
use vstd::prelude::*;

use crate::ext::to_lowercase_str;
use crate::plugin::{CoreError, Plugin, PluginContext};
use crate::ranking::{lemma_rank_sorted, rescore_all, score_key, spec_rank, Ranker};
use crate::registry::{spec_match_plugins, PluginRegistry};
use crate::result_item::ResultItem;
use crate::sorting::sorted_desc;
use crate::text::{trim_spec, trim_str};

verus! {

/// Concatenation of the successful batches, in order; a failed unit
/// contributes nothing.
pub open spec fn spec_collect(outs: Seq<Result<Vec<ResultItem>, CoreError>>) -> Seq<ResultItem>
    decreases outs.len(),
{
    if outs.len() == 0 {
        Seq::empty()
    } else {
        spec_collect(outs.drop_last()) + (match outs.last() {
            Ok(batch) => batch@,
            Err(_) => Seq::empty(),
        })
    }
}

/// Fan-in with failure isolation: keep every successful unit's results, in
/// unit order, and drop the failed units.
pub fn collect_results(outcomes: Vec<Result<Vec<ResultItem>, CoreError>>) -> (r: Vec<ResultItem>)
    ensures
        r@ == spec_collect(outcomes@),
{
    let ghost orig = outcomes@;
    let mut rem = outcomes;
    let mut all: Vec<ResultItem> = Vec::new();
    let ghost mut k: int = 0;
    while rem.len() > 0
        invariant
            0 <= k <= orig.len(),
            rem@ == orig.skip(k),
            all@ == spec_collect(orig.take(k)),
        decreases rem@.len(),
    {
        let outcome = rem.remove(0);
        proof {
            assert(outcome == orig[k]);
            assert(rem@ =~= orig.skip(k + 1));
        }
        match outcome {
            Result::Ok(mut batch) => {
                all.append(&mut batch);
            },
            Result::Err(_) => {},
        }
        proof {
            k = k + 1;
            assert(orig.take(k).drop_last() =~= orig.take(k - 1));
            assert(orig.take(k).last() == orig[k - 1]);
        }
    }
    proof {
        assert(orig.take(k) =~= orig);
    }
    all
}

/// A failed unit contributes nothing: dropping it from the outcome list
/// leaves the collected results exactly as they were, so the other units'
/// results are all still present, in order.
pub proof fn lemma_failed_unit_contributes_nothing(
    outs: Seq<Result<Vec<ResultItem>, CoreError>>,
    k: int,
)
    requires
        0 <= k < outs.len(),
        outs[k] is Err,
    ensures
        spec_collect(outs.remove(k)) == spec_collect(outs),
    decreases outs.len(),
{
    if k == outs.len() - 1 {
        assert(outs.remove(k) =~= outs.drop_last());
    } else {
        lemma_failed_unit_contributes_nothing(outs.drop_last(), k);
        assert(outs.remove(k).drop_last() =~= outs.drop_last().remove(k));
        assert(outs.remove(k).last() == outs.last());
    }
}

/// Orchestrates one search over a registry of providers.
pub struct QueryEngine {
    pub ranker: Ranker,
}

impl QueryEngine {
    pub fn new() -> (r: Self)
        ensures
            r == (QueryEngine { ranker: Ranker }),
    {
        Self { ranker: Ranker::new() }
    }

    /// Run one search. A blank query, or one no provider claims, returns an
    /// empty list without running any provider. Otherwise every claiming
    /// provider is asked once, with the residual of the lowercased query
    /// its own trigger produces (empty when that re-check declines); a
    /// failed provider contributes nothing and never aborts the search; the
    /// collected results come back ranked, best first.
    pub fn search<P: Plugin>(
        &self,
        registry: &PluginRegistry<P>,
        query: &str,
        context: &PluginContext,
    ) -> (r: Vec<ResultItem>)
        ensures
            trim_spec(query@).len() == 0 ==> r@ == Seq::<ResultItem>::empty(),
            spec_match_plugins(registry@, query@).len() == 0 ==> r@
                == Seq::<ResultItem>::empty(),
            sorted_desc(r@, score_key()),
            trim_spec(query@).len() != 0 ==> exists|outs: Seq<Result<Vec<ResultItem>, CoreError>>|
                {
                    &&& outs.len() == spec_match_plugins(registry@, query@).len()
                    &&& r@ == spec_rank(#[trigger] spec_collect(outs), query@)
                },
    {
        let trimmed = trim_str(query);
        if trimmed.unicode_len() == 0 {
            return Vec::new();
        }
        let plugins = registry.match_plugins(query);
        if plugins.len() == 0 {
            proof {
                let outs0 = Seq::<Result<Vec<ResultItem>, CoreError>>::empty();
                assert(rescore_all(spec_collect(outs0), query@) =~= Seq::<ResultItem>::empty());
                assert(outs0.len() == spec_match_plugins(registry@, query@).len()
                    && Seq::<ResultItem>::empty() == spec_rank(spec_collect(outs0), query@));
            }
            return Vec::new();
        }
        let query_lower = to_lowercase_str(query);
        let n = plugins.len();
        let mut outcomes: Vec<Result<Vec<ResultItem>, CoreError>> = Vec::new();
        let mut i: usize = 0;
        while i < n
            invariant
                0 <= i <= n,
                n == plugins@.len(),
                outcomes@.len() == i,
            decreases n - i,
        {
            let p: &P = plugins[i];
            let residual = match p.trigger().matches(query_lower.as_str()) {
                Option::Some(rq) => rq,
                Option::None => String::new(),
            };
            let outcome = p.search(residual.as_str(), context);
            outcomes.push(outcome);
            i = i + 1;
        }
        let ghost outs = outcomes@;
        let mut all = collect_results(outcomes);
        let ghost collected = all@;
        self.ranker.rank_results(&mut all, query);
        proof {
            lemma_rank_sorted(collected, query@);
            assert(outs.len() == spec_match_plugins(registry@, query@).len() && all@
                == spec_rank(spec_collect(outs), query@));
        }
        all
    }
}

} // verus!
