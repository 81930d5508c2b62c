//! The explicitly constructed, passed-down application context: the
//! registry and the two engines that read it, owned together.
use vstd::prelude::*;

use crate::config::Config;
use crate::dispatcher::ActionDispatcher;
use crate::engine::QueryEngine;
use crate::plugin::Plugin;
use crate::registry::PluginRegistry;

verus! {

pub struct AppState<P: Plugin> {
    pub config: Config,
    pub dispatcher: ActionDispatcher,
    pub query_engine: QueryEngine,
    pub registry: PluginRegistry<P>,
}

impl<P: Plugin> AppState<P> {
    pub fn new(config: Config, registry: PluginRegistry<P>) -> (s: Self)
        ensures
            s.config == config,
            s.registry == registry,
    {
        Self { config, dispatcher: ActionDispatcher::new(), query_engine: QueryEngine::new(), registry }
    }
}

} // verus!
