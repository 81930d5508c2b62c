//! The side effect a chosen result performs.
use vstd::prelude::*;

verus! {

/// What executing a result does. The owning plugin id recorded on the
/// `ResultItem` that produced the action, not the action itself, decides
/// which provider runs it.
#[derive(Debug, Clone, PartialEq)]
pub enum Action {
    LaunchApp { path: String, args: Vec<String> },
    OpenFile(String),
    OpenUrl(String),
    ExecuteCommand { command: String, args: Vec<String> },
    CopyToClipboard(String),
    InsertText(String),
    /// For providers that open their own view.
    ShowPluginView { plugin_id: String },
    OpenSettings,
    /// A provider-defined action with an opaque payload.
    Custom { action_type: String, data: serde_json::Value },
    /// Do nothing.
    DoNothing,
}

impl Action {
    /// Every action except showing a plugin view completes on execution.
    pub fn is_immediate(&self) -> (r: bool)
        ensures
            r == !(*self is ShowPluginView),
    {
        !matches!(self, Action::ShowPluginView { .. })
    }
}

} // verus!
