//! Execute-after-select: resolve a result's owning provider and run its
//! action, reporting the outcome on a handle rather than to the caller
//! directly.
use vstd::prelude::*;

use crate::action::Action;
use crate::plugin::{CoreError, Plugin, PluginContext};
use crate::registry::PluginRegistry;

verus! {

/// The caller-held outcome of one dispatched action. The dispatch itself
/// never reports a failure to its caller: failures, a missing provider
/// included, are observable only here.
pub struct ExecutionHandle {
    outcome: Result<(), CoreError>,
}

impl ExecutionHandle {
    pub closed spec fn spec_outcome(&self) -> Result<(), CoreError> {
        self.outcome
    }

    /// Wait for the dispatched action and take its outcome.
    pub fn await_result(self) -> (r: Result<(), CoreError>)
        ensures
            r == self.spec_outcome(),
    {
        self.outcome
    }

    pub fn is_failed(&self) -> (b: bool)
        ensures
            b == (self.spec_outcome() is Err),
    {
        self.outcome.is_err()
    }
}

/// Runs a chosen result's action on the provider that produced it.
pub struct ActionDispatcher;

impl ActionDispatcher {
    pub fn new() -> (r: Self)
        ensures
            r == ActionDispatcher,
    {
        Self
    }

    /// Resolve `plugin_id` and run `action` on that provider, once, with no
    /// retry. An unknown id yields a handle that failed with `NotFound`;
    /// otherwise the handle carries whatever the provider's execute
    /// returned.
    pub fn execute<P: Plugin>(
        &self,
        registry: &PluginRegistry<P>,
        plugin_id: String,
        action: Action,
        context: PluginContext,
    ) -> (h: ExecutionHandle)
        ensures
            !registry.spec_contains_id(plugin_id@) ==> (h.spec_outcome() matches Err(
                CoreError::NotFound { id },
            ) && id@ == plugin_id@),
    {
        match registry.get(plugin_id.as_str()) {
            Option::Some(p) => ExecutionHandle { outcome: p.execute(&action, &context) },
            Option::None => ExecutionHandle {
                outcome: Err(CoreError::NotFound { id: plugin_id }),
            },
        }
    }
}

} // verus!
