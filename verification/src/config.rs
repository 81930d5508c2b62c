//! Application configuration. Loading it from disk is the caller's work;
//! the core only holds the values and their defaults.
use std::collections::HashMap;
use vstd::prelude::*;

verus! {

#[derive(Debug, Clone)]
pub struct GeneralConfig {
    pub max_results: usize,
    pub telemetry: bool,
}

#[derive(Debug, Clone)]
pub struct AppearanceConfig {
    pub theme: String,
    pub window_width: u32,
    pub window_height: u32,
}

#[derive(Debug, Clone)]
pub struct HotkeysConfig {
    pub show_launcher: String,
}

/// Per-plugin configuration payloads; the core hands them over opaque.
#[derive(Debug)]
pub struct PluginsConfig {
    pub calculator: Option<serde_json::Value>,
    pub ai: Option<serde_json::Value>,
    pub custom: HashMap<String, serde_json::Value>,
}

#[derive(Debug)]
pub struct Config {
    pub general: GeneralConfig,
    pub appearance: AppearanceConfig,
    pub hotkeys: HotkeysConfig,
    pub plugins: PluginsConfig,
}

impl Default for Config {
    /// The defaults used when no configuration file is present.
    fn default() -> (c: Self)
        ensures
            c.general.max_results == 10,
            c.appearance.theme@ == "light"@,
            c.appearance.window_width == 600,
            c.appearance.window_height == 500,
            c.hotkeys.show_launcher@ == "Alt+Space"@,
            c.plugins.calculator is None,
            c.plugins.ai is None,
            !c.general.telemetry,
    {
        Config {
            general: GeneralConfig { max_results: 10, telemetry: false },
            appearance: AppearanceConfig {
                theme: String::from_str("light"),
                window_width: 600,
                window_height: 500,
            },
            hotkeys: HotkeysConfig { show_launcher: String::from_str("Alt+Space") },
            plugins: PluginsConfig {
                calculator: Option::None,
                ai: Option::None,
                custom: HashMap::new(),
            },
        }
    }
}

} // verus!
