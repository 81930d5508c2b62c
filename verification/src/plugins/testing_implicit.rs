//! A provider for exercising implicit triggers: claims every query and
//! returns one fixed item whenever the query fuzzy-matches its name.
use vstd::prelude::*;

use crate::action::Action;
use crate::ext::{lower_of, skim_score, skim_fuzzy_match, to_lowercase_str};
use crate::plugin::{CoreError, Plugin, PluginContext};
use crate::result_item::{BuiltInIcon, ResultIcon, ResultItem};
use crate::trigger::Trigger;

verus! {

/// The one item this provider ever returns. Its prior score is negative,
/// keeping it below real providers' results of equal match quality.
pub open spec fn test_implicit_item_matches(it: ResultItem) -> bool {
    &&& it.id@ == "test_implicit"@
    &&& it.title@ == "Test Implicit"@
    &&& it.subtitle matches Some(s) && s@ == "Test Implicit"@
    &&& it.icon == ResultIcon::BuiltIn(BuiltInIcon::Search)
    &&& it.action is DoNothing
    &&& it.plugin_id@ == "testing_implicit"@
    &&& it.score == -10
    &&& it.metadata is None
}

pub struct TestingImplicitPlugin {}

impl TestingImplicitPlugin {
    pub fn new() -> (r: Self)
        ensures
            r == (TestingImplicitPlugin {  }),
    {
        Self {  }
    }

    /// What a search returns once the fuzzy match has been decided: the one
    /// fixed item on a match, nothing otherwise.
    pub fn results_for_match(&self, matched: bool) -> (r: Vec<ResultItem>)
        ensures
            !matched ==> r@ == Seq::<ResultItem>::empty(),
            matched ==> r@.len() == 1 && test_implicit_item_matches(r@[0]),
    {
        let mut results: Vec<ResultItem> = Vec::new();
        if matched {
            results.push(
                ResultItem::new(
                    String::from_str("test_implicit"),
                    String::from_str("Test Implicit"),
                    Action::DoNothing,
                    String::from_str("testing_implicit"),
                ).with_subtitle(String::from_str("Test Implicit")).with_icon(
                    ResultIcon::BuiltIn(BuiltInIcon::Search),
                ).with_score(-10),
            );
        }
        results
    }
}

impl Plugin for TestingImplicitPlugin {
    open spec fn spec_id(&self) -> Seq<char> {
        "testing_implicit"@
    }

    open spec fn spec_trigger(&self) -> Trigger {
        Trigger::Implicit
    }

    open spec fn spec_priority(&self) -> int {
        0
    }

    fn id(&self) -> (r: &str) {
        "testing_implicit"
    }

    fn name(&self) -> (r: String)
        ensures
            r@ == "Testing Implicit Plugin"@,
    {
        String::from_str("Testing Implicit Plugin")
    }

    fn description(&self) -> String {
        String::from_str("A plugin for testing implicit triggers.")
    }

    fn trigger(&self) -> (t: Trigger) {
        Trigger::Implicit
    }

    fn priority(&self) -> (p: i32) {
        0
    }

    /// Returns the fixed item exactly when the query fuzzy-matches this
    /// provider's lowercased name; never fails.
    fn search(&self, query: &str, _context: &PluginContext) -> (r: Result<
        Vec<ResultItem>,
        CoreError,
    >)
        ensures
            r matches Ok(items) && {
                let hit = skim_score(lower_of("Testing Implicit Plugin"@), query@) is Some;
                &&& !hit ==> items@ == Seq::<ResultItem>::empty()
                &&& hit ==> items@.len() == 1 && test_implicit_item_matches(items@[0])
            },
    {
        let name_lower = to_lowercase_str(self.name().as_str());
        let matched = skim_fuzzy_match(name_lower.as_str(), query).is_some();
        Ok(self.results_for_match(matched))
    }

    fn execute(&self, _action: &Action, _context: &PluginContext) -> (r: Result<(), CoreError>)
        ensures
            r is Ok,
    {
        Ok(())
    }

    fn initialize(&mut self, _context: &PluginContext) -> Result<(), CoreError> {
        Ok(())
    }

    fn cleanup(&mut self) -> Result<(), CoreError> {
        Ok(())
    }

    fn requires_initialization(&self) -> bool {
        false
    }
}

} // verus!
