//! A single search result as a provider hands it to the core.
use vstd::prelude::*;

use crate::action::Action;

verus! {

/// How a result is drawn in a list row.
#[derive(Debug, Clone, PartialEq)]
pub enum ResultIcon {
    /// A path to an image file.
    Path(String),
    /// An emoji glyph.
    Emoji(String),
    /// A resolved application icon reference.
    AppIcon(String),
    /// One of the fixed built-in glyphs.
    BuiltIn(BuiltInIcon),
}

#[derive(Debug, Clone, PartialEq)]
pub enum BuiltInIcon {
    Calculator,
    Search,
    File,
    Folder,
    Terminal,
    Settings,
    AI,
    Web,
    App,
}

/// One search result. Constructed by a provider, read by the ranker and the
/// caller; only `score` is rewritten, in place, by the ranker.
#[derive(Debug, Clone, PartialEq)]
pub struct ResultItem {
    /// Provider-scoped identity, not globally unique across providers.
    pub id: String,
    pub title: String,
    pub subtitle: Option<String>,
    pub icon: ResultIcon,
    pub action: Action,
    /// Id of the provider that produced this result.
    pub plugin_id: String,
    /// The provider's prior score; after ranking, the final score.
    pub score: i64,
    /// Opaque payload the core never inspects.
    pub metadata: Option<serde_json::Value>,
}

impl ResultItem {
    pub fn new(id: String, title: String, action: Action, plugin_id: String) -> (r: Self)
        ensures
            r.id == id,
            r.title == title,
            r.subtitle is None,
            r.icon == ResultIcon::BuiltIn(BuiltInIcon::Search),
            r.action == action,
            r.plugin_id == plugin_id,
            r.score == 0,
            r.metadata is None,
    {
        Self {
            id,
            title,
            subtitle: None,
            icon: ResultIcon::BuiltIn(BuiltInIcon::Search),
            action,
            plugin_id,
            score: 0,
            metadata: None,
        }
    }

    pub fn with_subtitle(self, subtitle: String) -> (r: Self)
        ensures
            r == (ResultItem { subtitle: Some(subtitle), ..self }),
    {
        Self { subtitle: Some(subtitle), ..self }
    }

    pub fn with_score(self, score: i64) -> (r: Self)
        ensures
            r == (ResultItem { score, ..self }),
    {
        Self { score, ..self }
    }

    pub fn with_metadata(self, metadata: serde_json::Value) -> (r: Self)
        ensures
            r == (ResultItem { metadata: Some(metadata), ..self }),
    {
        Self { metadata: Some(metadata), ..self }
    }

    pub fn with_icon(self, icon: ResultIcon) -> (r: Self)
        ensures
            r == (ResultItem { icon, ..self }),
    {
        Self { icon, ..self }
    }
}

} // verus!
