//! The concrete capability providers that ship with the launcher.
pub mod app_search;
pub mod ip;
pub mod testing_explicit;
pub mod testing_implicit;
