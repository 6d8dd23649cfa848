//! The stable public plugin interface.
//!
//! Plugins provide logic and hook into the shell's extension points; this is
//! the contract that future dynamic loaders will satisfy.

use vstd::prelude::*;

verus! {

/// Metadata about the currently playing track.
#[derive(Debug, Clone, PartialEq, Eq)]
pub struct TrackMeta {
    pub id: i64,
    pub title: String,
    pub artist: String,
    pub album: String,
}

/// A menu entry contributed by a plugin (shell extension point).
#[derive(Debug, Clone, PartialEq, Eq)]
pub struct MenuItem {
    /// Stable identifier (used when the item is triggered).
    pub id: String,
    /// Display label (can be translated by the app).
    pub label: String,
    /// Optional hint / accessibility description.
    pub hint: String,
}

impl View for MenuItem {
    /// The id, label and hint texts.
    type V = (Seq<char>, Seq<char>, Seq<char>);

    open spec fn view(&self) -> (Seq<char>, Seq<char>, Seq<char>) {
        (self.id@, self.label@, self.hint@)
    }
}

/// The texts of menu entries, in order.
pub open spec fn menu_view(items: Seq<MenuItem>) -> Seq<(Seq<char>, Seq<char>, Seq<char>)> {
    items.map_values(|m: MenuItem| m@)
}

impl MenuItem {
    /// An entry with the given id and label and no hint.
    pub fn new(id: &str, label: &str) -> (m: Self)
        ensures
            m.id@ == id@,
            m.label@ == label@,
            m.hint@ == Seq::<char>::empty(),
    {
        MenuItem { id: id.to_owned(), label: label.to_owned(), hint: String::new() }
    }
}

/// The trait every Breezer plugin implements.
///
/// This trait is the public interface of Breezer plugins: breaking changes
/// are only allowed on major version bumps.
pub trait Plugin: Send + Sync {
    /// The identifier that `id` returns. A plugin verified with this library
    /// defines it; a plugin compiled without verification keeps the default
    /// (no text), so what the contracts say of its `id` is trusted, not
    /// checked.
    open spec fn spec_id(&self) -> Seq<char> {
        Seq::empty()
    }

    /// Unique, stable identifier, e.g. `"lyrics-fetcher"`.
    fn id(&self) -> (r: &'static str)
        ensures
            r@ == self.spec_id(),
    ;

    /// Human-readable name.
    fn name(&self) -> &'static str;

    /// Semver string of the plugin.
    fn version(&self) -> &'static str;

    /// One-line description (empty unless the plugin gives one).
    fn description(&self) -> (r: &'static str)
        default_ensures
            r@ == ""@,
    {
        ""
    }

    /// Called when the playing track changes.
    fn on_track_change(&self, track: &TrackMeta) {
    }

    /// Called when the active theme changes.
    fn on_theme_change(&self, theme_id: &str) {
    }

    /// Called when the dock layout changes (JSON-encoded layout profile).
    fn on_layout_change(&self, layout_json: &str) {
    }

    /// Called when the Deezer auth state changes.
    fn on_auth_change(&self, logged_in: bool, username: &str) {
    }

    /// The menu entries `menu_items` returns, as (id, label, hint) texts. A
    /// plugin verified with this library defines it; a plugin compiled
    /// without verification keeps the default (none), so what the contracts
    /// say of its entries is trusted, not checked.
    open spec fn spec_menu_items(&self) -> Seq<(Seq<char>, Seq<char>, Seq<char>)> {
        Seq::empty()
    }

    /// Contributions to the app menu (extensions toolbar). A plugin without
    /// entries returns an empty list.
    fn menu_items(&self) -> (r: Vec<MenuItem>)
        ensures
            menu_view(r@) == self.spec_menu_items(),
    ;
}

} // verus!
