use launcher_core::action::Action;
use launcher_core::app_index::{AppEntry, AppIndex};
use launcher_core::config::Config;
use launcher_core::plugin::{Plugin, PluginContext};
use launcher_core::plugins::app_search::AppSearchPlugin;
use launcher_core::plugins::ip::IpPlugin;
use launcher_core::plugins::testing_explicit::TestingExplicitPlugin;
use launcher_core::plugins::testing_implicit::TestingImplicitPlugin;
use launcher_core::result_item::{BuiltInIcon, ResultIcon, ResultItem};
use launcher_core::trigger::Trigger;

fn context() -> PluginContext {
    PluginContext { config: serde_json::Value::Null }
}

#[test]
fn every_action_but_show_plugin_view_is_immediate() {
    assert!(Action::OpenSettings.is_immediate());
    assert!(Action::DoNothing.is_immediate());
    assert!(Action::CopyToClipboard("x".to_string()).is_immediate());
    assert!(!Action::ShowPluginView { plugin_id: "p".to_string() }.is_immediate());
}

#[test]
fn result_item_builders_set_their_fields() {
    let item = ResultItem::new(
        "id1".to_string(),
        "Title".to_string(),
        Action::OpenUrl("https://example.org".to_string()),
        "owner".to_string(),
    );
    assert_eq!(item.id, "id1");
    assert_eq!(item.title, "Title");
    assert_eq!(item.subtitle, None);
    assert_eq!(item.icon, ResultIcon::BuiltIn(BuiltInIcon::Search));
    assert_eq!(item.plugin_id, "owner");
    assert_eq!(item.score, 0);
    assert!(item.metadata.is_none());

    let decorated = item
        .with_subtitle("Sub".to_string())
        .with_score(42)
        .with_icon(ResultIcon::Emoji(":mag:".to_string()))
        .with_metadata(serde_json::Value::Bool(true));
    assert_eq!(decorated.subtitle, Some("Sub".to_string()));
    assert_eq!(decorated.score, 42);
    assert_eq!(decorated.icon, ResultIcon::Emoji(":mag:".to_string()));
    assert_eq!(decorated.metadata, Some(serde_json::Value::Bool(true)));
}

#[test]
fn config_default_values() {
    let config = Config::default();
    assert_eq!(config.general.max_results, 10);
    assert!(!config.general.telemetry);
    assert_eq!(config.appearance.theme, "light");
    assert_eq!(config.appearance.window_width, 600);
    assert_eq!(config.appearance.window_height, 500);
    assert_eq!(config.hotkeys.show_launcher, "Alt+Space");
    assert!(config.plugins.calculator.is_none());
    assert!(config.plugins.ai.is_none());
    assert!(config.plugins.custom.is_empty());
}

fn entry(name: &str, path: &str) -> AppEntry {
    AppEntry { name: name.to_string(), path: path.to_string(), icon: None }
}

#[test]
fn app_index_search_is_case_insensitive_substring() {
    let index = AppIndex::build(vec![
        entry("Calculator", r"C:\Windows\System32\calc.exe"),
        entry("Notepad", r"C:\Windows\System32\notepad.exe"),
    ]);
    let hits = index.search("CALC");
    assert_eq!(hits.len(), 1);
    assert_eq!(hits[0].name, "Calculator");

    assert!(index.search("zzz").is_empty());
    // The empty query is a substring of every name.
    assert_eq!(index.search("").len(), 2);
}

#[test]
fn app_search_plugin_maps_entries_and_caps_at_ten() {
    let mut entries = Vec::new();
    for i in 0..12 {
        entries.push(entry(&format!("App {}", i), &format!("/apps/app{}", i)));
    }
    entries.push(AppEntry {
        name: "Iconic".to_string(),
        path: "/apps/iconic".to_string(),
        icon: Some("/icons/iconic.ico".to_string()),
    });
    let plugin = AppSearchPlugin::new(AppIndex::build(entries));

    assert_eq!(plugin.id(), "app_search");
    assert_eq!(plugin.trigger(), Trigger::Implicit);

    let capped = plugin.search_apps("app");
    assert_eq!(capped.len(), 10);
    assert_eq!(capped[0].title, "App 0");
    assert_eq!(capped[0].id, "/apps/app0");
    assert_eq!(capped[0].subtitle, Some("Application".to_string()));
    assert_eq!(capped[0].icon, ResultIcon::BuiltIn(BuiltInIcon::App));
    match &capped[0].action {
        Action::LaunchApp { path, args } => {
            assert_eq!(path, "/apps/app0");
            assert!(args.is_empty());
        }
        other => panic!("expected LaunchApp, got {:?}", other),
    }

    let iconic = plugin.search_apps("iconic");
    assert_eq!(iconic.len(), 1);
    assert_eq!(iconic[0].icon, ResultIcon::Path("/icons/iconic.ico".to_string()));
}

#[test]
fn ip_plugin_builds_two_clipboard_results() {
    let plugin = IpPlugin::new();
    assert_eq!(plugin.id(), "ip");
    assert_eq!(plugin.trigger(), Trigger::Explicit { keyword: "ip".to_string() });

    let results = plugin.build_results("203.0.113.7", "192.168.1.2");
    assert_eq!(results.len(), 2);
    assert_eq!(results[0].id, "public ip");
    assert_eq!(results[0].title, "203.0.113.7");
    assert_eq!(results[0].subtitle, Some("Public IP".to_string()));
    assert_eq!(results[0].action, Action::CopyToClipboard("203.0.113.7".to_string()));
    assert_eq!(results[0].plugin_id, "ip");
    assert_eq!(results[0].score, 100);
    assert_eq!(results[1].id, "private ip");
    assert_eq!(results[1].title, "192.168.1.2");
    assert_eq!(results[1].subtitle, Some("Private IP".to_string()));
    assert_eq!(results[1].action, Action::CopyToClipboard("192.168.1.2".to_string()));
}

#[test]
fn testing_explicit_plugin_shares_one_result_id() {
    let plugin = TestingExplicitPlugin::new();
    assert_eq!(plugin.id(), "testing_explicit");
    assert_eq!(plugin.trigger(), Trigger::Explicit { keyword: "test".to_string() });

    let results = plugin.build_results("203.0.113.7", "192.168.1.2");
    assert_eq!(results.len(), 2);
    assert_eq!(results[0].id, "test explicit");
    assert_eq!(results[1].id, "test explicit");
    assert_eq!(results[0].plugin_id, "testing_explicit");
}

#[test]
fn testing_implicit_plugin_returns_its_item_only_on_fuzzy_match() {
    let plugin = TestingImplicitPlugin::new();
    assert_eq!(plugin.id(), "testing_implicit");
    assert_eq!(plugin.trigger(), Trigger::Implicit);

    let hit = plugin.search("testing", &context()).unwrap();
    assert_eq!(hit.len(), 1);
    assert_eq!(hit[0].title, "Test Implicit");
    assert_eq!(hit[0].score, -10);
    assert_eq!(hit[0].action, Action::DoNothing);

    let miss = plugin.search("zzzz", &context()).unwrap();
    assert!(miss.is_empty());

    assert!(plugin.execute(&Action::DoNothing, &context()).is_ok());
}
