use std::cell::{Cell, RefCell};

use launcher_core::action::Action;
use launcher_core::dispatcher::ActionDispatcher;
use launcher_core::engine::QueryEngine;
use launcher_core::plugin::{CoreError, Plugin, PluginContext};
use launcher_core::registry::PluginRegistry;
use launcher_core::result_item::ResultItem;
use launcher_core::trigger::Trigger;

struct TestProvider {
    id: String,
    trigger: Trigger,
    priority: i32,
    results: Vec<ResultItem>,
    fail_search: bool,
    fail_execute: bool,
    search_calls: Cell<u32>,
    seen_query: RefCell<Option<String>>,
}

impl TestProvider {
    fn new(id: &str, trigger: Trigger) -> Self {
        TestProvider {
            id: id.to_string(),
            trigger,
            priority: 0,
            results: Vec::new(),
            fail_search: false,
            fail_execute: false,
            search_calls: Cell::new(0),
            seen_query: RefCell::new(None),
        }
    }

    fn with_results(mut self, results: Vec<ResultItem>) -> Self {
        self.results = results;
        self
    }

    fn with_priority(mut self, priority: i32) -> Self {
        self.priority = priority;
        self
    }

    fn failing_search(mut self) -> Self {
        self.fail_search = true;
        self
    }

    fn failing_execute(mut self) -> Self {
        self.fail_execute = true;
        self
    }
}

impl Plugin for TestProvider {
    fn id(&self) -> &str {
        &self.id
    }

    fn name(&self) -> String {
        format!("provider {}", self.id)
    }

    fn description(&self) -> String {
        String::new()
    }

    fn trigger(&self) -> Trigger {
        self.trigger.clone()
    }

    fn priority(&self) -> i32 {
        self.priority
    }

    fn search(&self, query: &str, _context: &PluginContext) -> Result<Vec<ResultItem>, CoreError> {
        self.search_calls.set(self.search_calls.get() + 1);
        *self.seen_query.borrow_mut() = Some(query.to_string());
        if self.fail_search {
            Err(CoreError::ProviderFailure { message: "search failed".to_string() })
        } else {
            Ok(self.results.clone())
        }
    }

    fn execute(&self, _action: &Action, _context: &PluginContext) -> Result<(), CoreError> {
        if self.fail_execute {
            Err(CoreError::ProviderFailure { message: "execute failed".to_string() })
        } else {
            Ok(())
        }
    }

    fn initialize(&mut self, _context: &PluginContext) -> Result<(), CoreError> {
        Ok(())
    }

    fn cleanup(&mut self) -> Result<(), CoreError> {
        Ok(())
    }

    fn requires_initialization(&self) -> bool {
        false
    }
}

fn context() -> PluginContext {
    PluginContext { config: serde_json::Value::Null }
}

fn titled(title: &str, plugin_id: &str, prior: i64) -> ResultItem {
    ResultItem::new(
        title.to_string(),
        title.to_string(),
        Action::DoNothing,
        plugin_id.to_string(),
    )
    .with_score(prior)
}

#[test]
fn duplicate_registration_fails_and_count_stays_one() {
    let mut registry: PluginRegistry<TestProvider> = PluginRegistry::new();
    assert!(registry.register(TestProvider::new("a", Trigger::Implicit)).is_ok());
    let second = registry.register(TestProvider::new("a", Trigger::Implicit));
    match second {
        Err(CoreError::DuplicateId { id }) => assert_eq!(id, "a"),
        other => panic!("expected DuplicateId, got {:?}", other),
    }
    assert_eq!(registry.count(), 1);
}

#[test]
fn unregister_unknown_id_fails_and_changes_nothing() {
    let mut registry: PluginRegistry<TestProvider> = PluginRegistry::new();
    assert!(registry.register(TestProvider::new("a", Trigger::Implicit)).is_ok());
    let r = registry.unregister("never-registered");
    match r {
        Err(CoreError::NotFound { id }) => assert_eq!(id, "never-registered"),
        other => panic!("expected NotFound, got {:?}", other),
    }
    assert_eq!(registry.count(), 1);
    assert!(registry.get("a").is_some());
}

#[test]
fn unregister_then_lookups_miss_it() {
    let mut registry: PluginRegistry<TestProvider> = PluginRegistry::new();
    registry.register(TestProvider::new("a", Trigger::Implicit)).unwrap();
    registry.register(TestProvider::new("b", Trigger::Implicit)).unwrap();
    registry.unregister("a").unwrap();
    assert_eq!(registry.count(), 1);
    assert!(registry.get("a").is_none());
    assert!(registry.get("b").is_some());
}

#[test]
fn match_plugins_orders_by_priority_and_keeps_ties_in_registration_order() {
    let mut registry: PluginRegistry<TestProvider> = PluginRegistry::new();
    registry
        .register(TestProvider::new("low", Trigger::Implicit).with_priority(1))
        .unwrap();
    registry
        .register(TestProvider::new("high_first", Trigger::Implicit).with_priority(5))
        .unwrap();
    registry
        .register(TestProvider::new("high_second", Trigger::Implicit).with_priority(5))
        .unwrap();
    registry
        .register(TestProvider::new(
            "keyword",
            Trigger::Explicit { keyword: "zz".to_string() },
        ))
        .unwrap();

    let matched = registry.match_plugins("hello");
    let ids: Vec<&str> = matched.iter().map(|p| p.id()).collect();
    assert_eq!(ids, vec!["high_first", "high_second", "low"]);
}

#[test]
fn implicit_plugins_and_all_plugins() {
    let mut registry: PluginRegistry<TestProvider> = PluginRegistry::new();
    registry.register(TestProvider::new("imp", Trigger::Implicit)).unwrap();
    registry
        .register(TestProvider::new("exp", Trigger::Explicit { keyword: "k".to_string() }))
        .unwrap();

    let implicit = registry.implicit_plugins();
    assert_eq!(implicit.len(), 1);
    assert_eq!(implicit[0].id(), "imp");
    assert_eq!(registry.all_plugins().len(), 2);
}

#[test]
fn search_with_no_matching_provider_returns_empty_and_invokes_none() {
    let mut registry: PluginRegistry<TestProvider> = PluginRegistry::new();
    registry
        .register(TestProvider::new("exp", Trigger::Explicit { keyword: "zz".to_string() }))
        .unwrap();
    let engine = QueryEngine::new();

    let results = engine.search(&registry, "hello", &context());
    assert!(results.is_empty());
    assert_eq!(registry.get("exp").unwrap().search_calls.get(), 0);
}

#[test]
fn blank_query_returns_empty_and_invokes_none() {
    let mut registry: PluginRegistry<TestProvider> = PluginRegistry::new();
    registry.register(TestProvider::new("imp", Trigger::Implicit)).unwrap();
    let engine = QueryEngine::new();

    let results = engine.search(&registry, "   \t  ", &context());
    assert!(results.is_empty());
    assert_eq!(registry.get("imp").unwrap().search_calls.get(), 0);
}

#[test]
fn failing_provider_contributes_nothing_but_others_still_rank() {
    let mut registry: PluginRegistry<TestProvider> = PluginRegistry::new();
    registry
        .register(
            TestProvider::new("good", Trigger::Implicit)
                .with_results(vec![titled("Notes", "good", 0), titled("Nothing", "good", 0)]),
        )
        .unwrap();
    registry
        .register(TestProvider::new("bad", Trigger::Implicit).failing_search())
        .unwrap();

    let engine = QueryEngine::new();
    let results = engine.search(&registry, "Notes", &context());

    assert_eq!(results.len(), 2);
    assert!(results.iter().all(|r| r.plugin_id == "good"));
    assert_eq!(results[0].title, "Notes");
    assert_eq!(results[0].score, 100);
    assert_eq!(results[1].title, "Nothing");
    assert_eq!(registry.get("bad").unwrap().search_calls.get(), 1);
}

#[test]
fn end_to_end_single_implicit_provider_scores_exact_match() {
    let mut registry: PluginRegistry<TestProvider> = PluginRegistry::new();
    registry
        .register(
            TestProvider::new("notes", Trigger::Implicit)
                .with_results(vec![titled("Notes", "notes", 0)]),
        )
        .unwrap();
    registry
        .register(TestProvider::new("ip", Trigger::Explicit { keyword: "ip".to_string() }))
        .unwrap();

    let engine = QueryEngine::new();
    let results = engine.search(&registry, "Notes", &context());

    assert_eq!(results.len(), 1);
    assert_eq!(results[0].title, "Notes");
    assert_eq!(results[0].plugin_id, "notes");
    assert_eq!(results[0].score, 100);
    assert_eq!(registry.get("ip").unwrap().search_calls.get(), 0);
}

#[test]
fn explicit_provider_receives_lowercased_residual_query() {
    let mut registry: PluginRegistry<TestProvider> = PluginRegistry::new();
    registry
        .register(TestProvider::new("ipp", Trigger::Explicit { keyword: "ip".to_string() }))
        .unwrap();
    let engine = QueryEngine::new();

    engine.search(&registry, "ip  Address", &context());
    let provider = registry.get("ipp").unwrap();
    assert_eq!(provider.search_calls.get(), 1);
    assert_eq!(provider.seen_query.borrow().as_deref(), Some("address"));
}

#[test]
fn residual_defaults_to_empty_when_lowercased_recheck_declines() {
    // The registry matches on the raw query, but the engine re-checks the
    // trigger against the lowercased query; an uppercase keyword passes the
    // first test and fails the second, so its provider sees "".
    let mut registry: PluginRegistry<TestProvider> = PluginRegistry::new();
    registry
        .register(TestProvider::new("upper", Trigger::Explicit { keyword: "IP".to_string() }))
        .unwrap();
    let engine = QueryEngine::new();

    engine.search(&registry, "IP stuff", &context());
    let provider = registry.get("upper").unwrap();
    assert_eq!(provider.search_calls.get(), 1);
    assert_eq!(provider.seen_query.borrow().as_deref(), Some(""));
}

#[test]
fn dispatch_to_unknown_plugin_yields_failed_handle_not_a_throw() {
    let registry: PluginRegistry<TestProvider> = PluginRegistry::new();
    let dispatcher = ActionDispatcher::new();

    let handle = dispatcher.execute(
        &registry,
        "missing".to_string(),
        Action::DoNothing,
        context(),
    );
    assert!(handle.is_failed());
    match handle.await_result() {
        Err(CoreError::NotFound { id }) => assert_eq!(id, "missing"),
        other => panic!("expected NotFound, got {:?}", other),
    }
}

#[test]
fn dispatch_runs_the_owning_provider_once() {
    let mut registry: PluginRegistry<TestProvider> = PluginRegistry::new();
    registry.register(TestProvider::new("ok", Trigger::Implicit)).unwrap();
    registry
        .register(TestProvider::new("broken", Trigger::Implicit).failing_execute())
        .unwrap();
    let dispatcher = ActionDispatcher::new();

    let good = dispatcher.execute(&registry, "ok".to_string(), Action::DoNothing, context());
    assert!(good.await_result().is_ok());

    let bad = dispatcher.execute(&registry, "broken".to_string(), Action::DoNothing, context());
    match bad.await_result() {
        Err(CoreError::ProviderFailure { message }) => assert_eq!(message, "execute failed"),
        other => panic!("expected ProviderFailure, got {:?}", other),
    }
}
