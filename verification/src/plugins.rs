//! Plugin registry and the built-in system plugin.

use crate::plugin_api::{menu_view, MenuItem, Plugin, TrackMeta};
use vstd::prelude::*;

verus! {

/// Holds every active plugin and dispatches lifecycle hooks.
pub struct PluginRegistry {
    plugins: Vec<Box<dyn Plugin>>,
}

impl PluginRegistry {
    /// The registered plugins, in registration order.
    pub closed spec fn entries(&self) -> Seq<Box<dyn Plugin>> {
        self.plugins@
    }

    /// How many plugins are registered.
    pub closed spec fn count(&self) -> nat {
        self.plugins@.len()
    }

    /// A registry without plugins.
    pub fn new() -> (r: Self)
        ensures
            r.count() == 0,
    {
        PluginRegistry { plugins: Vec::new() }
    }

    /// Registry with the built-in system plugin.
    pub fn with_system() -> (r: Self)
        ensures
            r.count() == 1,
            r.entries()[0].spec_id() == "system"@,
            r.menus(r.count() as int) == seq![("about"@, "About Breezer"@, Seq::<char>::empty())],
    {
        let system: Box<dyn Plugin> = Box::new(SystemPlugin);
        let plugins = vec_of_one(system);
        let r = PluginRegistry { plugins };
        assert(r.menus(1) =~= r.menus(0) + system.spec_menu_items());
        assert(r.menus(0) + system.spec_menu_items() =~= system.spec_menu_items());
        r
    }

    /// Add a plugin after the registered ones.
    pub fn register(&mut self, plugin: Box<dyn Plugin>)
        ensures
            final(self).entries() == old(self).entries().push(plugin),
            final(self).count() == old(self).count() + 1,
    {
        let ghost before = self.plugins@;
        self.plugins.push(plugin);
        proof {
            vstd::seq::axiom_seq_push_len(before, plugin);
        }
    }

    /// The registered plugins, in registration order.
    pub fn plugins(&self) -> (r: &[Box<dyn Plugin>])
        ensures
            r@ == self.entries(),
            r@.len() == self.count(),
    {
        self.plugins.as_slice()
    }

    /// Tell every plugin that the playing track changed.
    pub fn notify_track(&self, track: &TrackMeta) {
        for i in 0..self.plugins.len() {
            self.plugins[i].on_track_change(track);
        }
    }

    /// Tell every plugin that the theme changed.
    pub fn notify_theme(&self, theme_id: &str) {
        for i in 0..self.plugins.len() {
            self.plugins[i].on_theme_change(theme_id);
        }
    }

    /// Tell every plugin that the dock layout changed.
    pub fn notify_layout(&self, layout_json: &str) {
        for i in 0..self.plugins.len() {
            self.plugins[i].on_layout_change(layout_json);
        }
    }

    /// Tell every plugin that the auth state changed.
    pub fn notify_auth(&self, logged_in: bool, username: &str) {
        for i in 0..self.plugins.len() {
            self.plugins[i].on_auth_change(logged_in, username);
        }
    }

    /// The menu entries the first `n` registered plugins declare, in
    /// registration order.
    pub open spec fn menus(&self, n: int) -> Seq<(Seq<char>, Seq<char>, Seq<char>)>
        decreases n,
    {
        if n <= 0 {
            Seq::empty()
        } else {
            self.menus(n - 1) + self.entries()[n - 1].spec_menu_items()
        }
    }

    /// Aggregate menu contributions from all plugins: each plugin's entries,
    /// in registration order.
    pub fn menu_items(&self) -> (r: Vec<MenuItem>)
        ensures
            menu_view(r@) == self.menus(self.count() as int),
    {
        let mut items: Vec<MenuItem> = Vec::new();
        let n = self.plugins.len();
        assert(menu_view(items@) =~= self.menus(0));
        for i in 0..n
            invariant
                n == self.count(),
                menu_view(items@) == self.menus(i as int),
        {
            let p = &self.plugins[i];
            let mut more = p.menu_items();
            let ghost before = items@;
            let ghost added = more@;
            items.append(&mut more);
            assert(menu_view(items@) =~= menu_view(before) + menu_view(added));
        }
        items
    }
}

/// A vector of one item.
fn vec_of_one<T>(x: T) -> (v: Vec<T>)
    ensures
        v@.len() == 1,
        v@[0] == x,
{
    let mut v: Vec<T> = Vec::new();
    v.push(x);
    v
}

/// Built-in plugin: declares the app menu entry.
pub struct SystemPlugin;

impl Plugin for SystemPlugin {
    open spec fn spec_id(&self) -> Seq<char> {
        "system"@
    }

    open spec fn spec_menu_items(&self) -> Seq<(Seq<char>, Seq<char>, Seq<char>)> {
        seq![("about"@, "About Breezer"@, Seq::<char>::empty())]
    }

    fn id(&self) -> (r: &'static str)
        ensures
            r@ == "system"@,
    {
        "system"
    }

    fn name(&self) -> (r: &'static str)
        ensures
            r@ == "Breezer System"@,
    {
        "Breezer System"
    }

    /// The application's own version.
    fn version(&self) -> (r: &'static str)
        ensures
            r@ == "0.1.0"@,
    {
        "0.1.0"
    }

    fn description(&self) -> (r: &'static str)
        ensures
            r@ == "Built-in system plugin (app menu)."@,
    {
        "Built-in system plugin (app menu)."
    }

    /// The "About" entry of the app menu.
    fn menu_items(&self) -> (items: Vec<MenuItem>)
        ensures
            items@.len() == 1,
            items@[0].id@ == "about"@,
            items@[0].label@ == "About Breezer"@,
            items@[0].hint@ == Seq::<char>::empty(),
    {
        let mut items: Vec<MenuItem> = Vec::new();
        items.push(MenuItem::new("about", "About Breezer"));
        assert(menu_view(items@) =~= seq![("about"@, "About Breezer"@, Seq::<char>::empty())]);
        items
    }
}

} // verus!
