//! Core of a quick-launcher: trigger matching, a plugin registry,
//! result ranking, query orchestration and action dispatch.
pub mod action;
pub mod app_index;
pub mod config;
pub mod dispatcher;
pub mod engine;
pub mod ext;
pub mod plugin;
pub mod plugins;
pub mod ranking;
pub mod registry;
pub mod result_item;
pub mod sorting;
pub mod state;
pub mod text;
pub mod trigger;
