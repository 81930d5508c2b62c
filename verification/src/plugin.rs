//! The capability contract every provider implements, and the core's
//! error taxonomy.
use vstd::prelude::*;

use crate::action::Action;
use crate::result_item::ResultItem;
use crate::trigger::Trigger;

verus! {

/// Opaque, caller-supplied configuration passed unchanged to every provider
/// on every search and execute call; the core never reads its contents.
pub struct PluginContext {
    pub config: serde_json::Value,
}

/// Every failure the core reports.
#[derive(Debug, Clone, PartialEq)]
pub enum CoreError {
    /// Registration named an id that is already present; no state changed.
    DuplicateId { id: String },
    /// An unregister, lookup or dispatch named an id that is not registered.
    NotFound { id: String },
    /// A provider's search or execute failed; contained at that provider's
    /// boundary, never escalated.
    ProviderFailure { message: String },
}

/// The core's only view of a capability provider.
///
/// The spec members tie the reported id, trigger and priority to values the
/// registry's and engine's contracts can speak about; a provider written
/// outside the verifier may leave them at their defaults, which promise
/// nothing. `search` and `execute` carry no contract: providers are
/// arbitrary, and the engine contains their failures instead of relying on
/// their behaviour.
pub trait Plugin: Sized {
    open spec fn spec_id(&self) -> Seq<char> {
        arbitrary()
    }

    open spec fn spec_trigger(&self) -> Trigger {
        arbitrary()
    }

    open spec fn spec_priority(&self) -> int {
        arbitrary()
    }

    /// Stable identity, globally unique across registered providers.
    fn id(&self) -> (r: &str)
        ensures
            r@ == self.spec_id(),
    ;

    /// Display-only name.
    fn name(&self) -> String;

    /// Display-only description.
    fn description(&self) -> String;

    /// The rule by which this provider claims queries.
    fn trigger(&self) -> (t: Trigger)
        ensures
            t == self.spec_trigger(),
    ;

    /// Higher priority sorts earlier among matched providers.
    fn priority(&self) -> (p: i32)
        ensures
            p as int == self.spec_priority(),
    ;

    /// Produce results for a residual query. No results is an empty list;
    /// an error stands for the unit failing, which the engine isolates.
    fn search(&self, query: &str, context: &PluginContext) -> Result<Vec<ResultItem>, CoreError>;

    /// Perform the side effect named by `action`.
    fn execute(&self, action: &Action, context: &PluginContext) -> Result<(), CoreError>;

    /// Called by lifecycle management before first use when
    /// `requires_initialization` holds.
    fn initialize(&mut self, context: &PluginContext) -> Result<(), CoreError>;

    fn cleanup(&mut self) -> Result<(), CoreError>;

    fn requires_initialization(&self) -> bool;
}

} // verus!
