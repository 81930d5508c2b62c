//! A provider for exercising explicit triggers: a copy of the "ip"
//! provider under the keyword "test".
//!
//! As with the "ip" provider, the address lookups and the clipboard are
//! I/O outside the core; only the result construction is specified here.
use vstd::prelude::*;

use crate::action::Action;
use crate::plugins::ip::ip_item_matches;
use crate::result_item::{BuiltInIcon, ResultIcon, ResultItem};
use crate::trigger::Trigger;

verus! {

pub struct TestingExplicitPlugin {}

impl TestingExplicitPlugin {
    pub fn new() -> (r: Self)
        ensures
            r == (TestingExplicitPlugin {  }),
    {
        Self {  }
    }

    pub fn id(&self) -> (r: &str)
        ensures
            r@ == "testing_explicit"@,
    {
        "testing_explicit"
    }

    pub fn name(&self) -> (r: String)
        ensures
            r@ == "Testing Explicit Plugin"@,
    {
        String::from_str("Testing Explicit Plugin")
    }

    pub fn description(&self) -> (r: String)
        ensures
            r@ == "A plugin for testing explicit triggers."@,
    {
        String::from_str("A plugin for testing explicit triggers.")
    }

    pub fn trigger(&self) -> (t: Trigger)
        ensures
            t matches Trigger::Explicit { keyword } && keyword@ == "test"@,
    {
        Trigger::Explicit { keyword: String::from_str("test") }
    }

    /// The two results a search returns, built from the looked-up
    /// addresses; both share one provider-scoped id.
    pub fn build_results(&self, public_ip: &str, private_ip: &str) -> (r: Vec<ResultItem>)
        ensures
            r@.len() == 2,
            ip_item_matches(
                r@[0],
                "test explicit"@,
                public_ip@,
                "Public IP"@,
                "testing_explicit"@,
            ),
            ip_item_matches(
                r@[1],
                "test explicit"@,
                private_ip@,
                "Private IP"@,
                "testing_explicit"@,
            ),
    {
        let mut results: Vec<ResultItem> = Vec::new();
        results.push(
            ResultItem::new(
                String::from_str("test explicit"),
                public_ip.to_owned(),
                Action::CopyToClipboard(public_ip.to_owned()),
                self.id().to_owned(),
            ).with_subtitle(String::from_str("Public IP")).with_icon(
                ResultIcon::BuiltIn(BuiltInIcon::Search),
            ).with_score(100),
        );
        results.push(
            ResultItem::new(
                String::from_str("test explicit"),
                private_ip.to_owned(),
                Action::CopyToClipboard(private_ip.to_owned()),
                self.id().to_owned(),
            ).with_subtitle(String::from_str("Private IP")).with_icon(
                ResultIcon::BuiltIn(BuiltInIcon::Search),
            ).with_score(100),
        );
        results
    }
}

} // verus!
