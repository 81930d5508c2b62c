//! The implicit application-search provider: matches every query against
//! the index of installed applications and offers to launch the hits.
//!
//! Launching (spawning the process) is I/O at this provider's edge and
//! happens outside the core, as does building the index.
use vstd::prelude::*;

use crate::action::Action;
use crate::app_index::{name_matches, AppEntry, AppIndex};
use crate::result_item::{BuiltInIcon, ResultIcon, ResultItem};
use crate::trigger::Trigger;

verus! {

/// The result built for one indexed application: launch it, show its own
/// icon when the shortcut named one.
pub open spec fn app_item_matches(it: ResultItem, e: AppEntry) -> bool {
    &&& it.id@ == e.path@
    &&& it.title@ == e.name@
    &&& it.subtitle matches Some(s) && s@ == "Application"@
    &&& (match e.icon {
        Some(p) => it.icon matches ResultIcon::Path(ip) && ip@ == p@,
        None => it.icon == ResultIcon::BuiltIn(BuiltInIcon::App),
    })
    &&& it.action matches Action::LaunchApp { path, args } && path@ == e.path@ && args@.len()
        == 0
    &&& it.plugin_id@ == "app_search"@
    &&& it.score == 0
    &&& it.metadata is None
}

pub struct AppSearchPlugin {
    index: AppIndex,
}

impl AppSearchPlugin {
    /// The entries this provider searches.
    pub closed spec fn entries(&self) -> Seq<AppEntry> {
        self.index@
    }

    /// The index comes from the platform scan, outside the core.
    pub fn new(index: AppIndex) -> (r: Self)
        ensures
            r.entries() == index@,
    {
        Self { index }
    }

    pub fn id(&self) -> (r: &str)
        ensures
            r@ == "app_search"@,
    {
        "app_search"
    }

    pub fn name(&self) -> (r: String)
        ensures
            r@ == "App Search"@,
    {
        String::from_str("App Search")
    }

    pub fn description(&self) -> (r: String)
        ensures
            r@ == "A plugin for launching applications."@,
    {
        String::from_str("A plugin for launching applications.")
    }

    pub fn trigger(&self) -> (t: Trigger)
        ensures
            t == Trigger::Implicit,
    {
        Trigger::Implicit
    }

    /// The first ten indexed applications whose name contains the query,
    /// case-insensitively, each as a launchable result.
    pub fn search_apps(&self, query: &str) -> (r: Vec<ResultItem>)
        ensures
            ({
                let hits = self.entries().filter(name_matches(query@));
                &&& hits.len() <= 10 ==> r@.len() == hits.len()
                &&& hits.len() > 10 ==> r@.len() == 10
                &&& forall|i: int|
                    0 <= i < r@.len() ==> app_item_matches(#[trigger] r@[i], hits[i])
            }),
    {
        let ghost hits = self.entries().filter(name_matches(query@));
        let matched = self.index.search(query);
        let n = matched.len();
        let limit: usize = if n < 10 {
            n
        } else {
            10
        };
        let mut out: Vec<ResultItem> = Vec::new();
        let mut i: usize = 0;
        while i < limit
            invariant
                0 <= i <= limit <= n,
                n == matched@.len(),
                matched@ == hits,
                out@.len() == i,
                forall|j: int| 0 <= j < i ==> app_item_matches(#[trigger] out@[j], hits[j]),
            decreases limit - i,
        {
            let e = &matched[i];
            let icon = match &e.icon {
                Option::Some(p) => ResultIcon::Path(p.clone()),
                Option::None => ResultIcon::BuiltIn(BuiltInIcon::App),
            };
            let item = ResultItem::new(
                e.path.clone(),
                e.name.clone(),
                Action::LaunchApp { path: e.path.clone(), args: Vec::new() },
                self.id().to_owned(),
            ).with_subtitle(String::from_str("Application")).with_icon(icon);
            out.push(item);
            i = i + 1;
        }
        out
    }
}

} // verus!
