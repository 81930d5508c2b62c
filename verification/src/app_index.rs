//! The index of launchable applications that the implicit app-search
//! provider reads.
//!
//! Building the index (scanning start-menu shortcuts on disk) is platform
//! work outside the core; the index itself, and the name search over it,
//! live here.
use vstd::prelude::*;

use crate::ext::{lower_of, to_lowercase_str};
use crate::text::{contains_str, has_substring};

verus! {

/// One launchable application.
#[derive(Debug)]
pub struct AppEntry {
    /// Display name, from the shortcut's file stem.
    pub name: String,
    /// Path of the executable, as text.
    pub path: String,
    /// Path of the icon, when the shortcut names one.
    pub icon: Option<String>,
}

impl Clone for AppEntry {
    fn clone(&self) -> (r: Self)
        ensures
            r == *self,
    {
        AppEntry {
            name: self.name.clone(),
            path: self.path.clone(),
            icon: match &self.icon {
                Option::Some(p) => Option::Some(p.clone()),
                Option::None => Option::None,
            },
        }
    }
}

/// The entries whose lowercased name contains the lowercased query.
pub open spec fn name_matches(q: Seq<char>) -> spec_fn(AppEntry) -> bool {
    |e: AppEntry| has_substring(lower_of(e.name@), lower_of(q))
}

/// The applications found by the platform scan, in the order it hands
/// them over.
pub struct AppIndex {
    apps: Vec<AppEntry>,
}

impl View for AppIndex {
    type V = Seq<AppEntry>;

    closed spec fn view(&self) -> Seq<AppEntry> {
        self.apps@
    }
}

impl AppIndex {
    /// An index over the entries the platform scan produced.
    pub fn build(apps: Vec<AppEntry>) -> (r: Self)
        ensures
            r@ == apps@,
    {
        Self { apps }
    }

    /// The entries whose name contains the query, case-insensitively, in
    /// index order.
    pub fn search(&self, query: &str) -> (r: Vec<AppEntry>)
        ensures
            r@ == self@.filter(name_matches(query@)),
    {
        let query_lower = to_lowercase_str(query);
        let n = self.apps.len();
        let mut out: Vec<AppEntry> = Vec::new();
        let mut i: usize = 0;
        while i < n
            invariant
                0 <= i <= n,
                n == self@.len(),
                query_lower@ == lower_of(query@),
                out@ == self@.take(i as int).filter(name_matches(query@)),
            decreases n - i,
        {
            let entry = &self.apps[i];
            let name_lower = to_lowercase_str(entry.name.as_str());
            let hit = contains_str(name_lower.as_str(), query_lower.as_str());
            proof {
                reveal_with_fuel(Seq::filter, 2);
                assert(self@.take(i + 1).drop_last() =~= self@.take(i as int));
                assert(self@.take(i + 1).last() == self@[i as int]);
            }
            if hit {
                out.push(entry.clone());
                proof {
                    assert(out@ =~= self@.take(i as int).filter(name_matches(query@)).push(
                        self@[i as int],
                    ));
                }
            }
            i = i + 1;
        }
        proof {
            assert(self@.take(n as int) =~= self@);
        }
        out
    }
}

} // verus!
