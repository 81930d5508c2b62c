//! The explicit "ip" provider: offers the machine's public and private
//! addresses, each with a copy-to-clipboard action.
//!
//! Looking the addresses up (a network call and an interface query) and
//! copying to the clipboard are I/O at this provider's edge and happen
//! outside the core; the results built from the looked-up addresses are
//! specified here.
use vstd::prelude::*;

use crate::action::Action;
use crate::result_item::{BuiltInIcon, ResultIcon, ResultItem};
use crate::trigger::Trigger;

verus! {

/// One address result: the address is the title and the clipboard payload,
/// the provider's prior score is full.
pub open spec fn ip_item_matches(
    it: ResultItem,
    id: Seq<char>,
    addr: Seq<char>,
    label: Seq<char>,
    owner: Seq<char>,
) -> bool {
    &&& it.id@ == id
    &&& it.title@ == addr
    &&& it.subtitle matches Some(s) && s@ == label
    &&& it.icon == ResultIcon::BuiltIn(BuiltInIcon::Search)
    &&& it.action matches Action::CopyToClipboard(a) && a@ == addr
    &&& it.plugin_id@ == owner
    &&& it.score == 100
    &&& it.metadata is None
}

pub struct IpPlugin {}

impl IpPlugin {
    pub fn new() -> (r: Self)
        ensures
            r == (IpPlugin {  }),
    {
        Self {  }
    }

    pub fn id(&self) -> (r: &str)
        ensures
            r@ == "ip"@,
    {
        "ip"
    }

    pub fn name(&self) -> (r: String)
        ensures
            r@ == "Ip Plugin"@,
    {
        String::from_str("Ip Plugin")
    }

    pub fn description(&self) -> (r: String)
        ensures
            r@ == "A plugin for getting ip addresses."@,
    {
        String::from_str("A plugin for getting ip addresses.")
    }

    pub fn trigger(&self) -> (t: Trigger)
        ensures
            t matches Trigger::Explicit { keyword } && keyword@ == "ip"@,
    {
        Trigger::Explicit { keyword: String::from_str("ip") }
    }

    /// The two results a search returns, built from the looked-up
    /// addresses: the public address first, then the private one.
    pub fn build_results(&self, public_ip: &str, private_ip: &str) -> (r: Vec<ResultItem>)
        ensures
            r@.len() == 2,
            ip_item_matches(r@[0], "public ip"@, public_ip@, "Public IP"@, "ip"@),
            ip_item_matches(r@[1], "private ip"@, private_ip@, "Private IP"@, "ip"@),
    {
        let mut results: Vec<ResultItem> = Vec::new();
        results.push(
            ResultItem::new(
                String::from_str("public ip"),
                public_ip.to_owned(),
                Action::CopyToClipboard(public_ip.to_owned()),
                self.id().to_owned(),
            ).with_subtitle(String::from_str("Public IP")).with_icon(
                ResultIcon::BuiltIn(BuiltInIcon::Search),
            ).with_score(100),
        );
        results.push(
            ResultItem::new(
                String::from_str("private ip"),
                private_ip.to_owned(),
                Action::CopyToClipboard(private_ip.to_owned()),
                self.id().to_owned(),
            ).with_subtitle(String::from_str("Private IP")).with_icon(
                ResultIcon::BuiltIn(BuiltInIcon::Search),
            ).with_score(100),
        );
        results
    }
}

} // verus!
