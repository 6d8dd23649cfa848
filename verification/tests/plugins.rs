use breezer::plugin_api::{MenuItem, Plugin, TrackMeta};
use breezer::plugins::{PluginRegistry, SystemPlugin};
use std::sync::atomic::{AtomicUsize, Ordering};
use std::sync::Arc;

#[test]
fn menu_item_new() {
    let m = MenuItem::new("about", "About Breezer");
    assert_eq!((m.id.as_str(), m.label.as_str(), m.hint.as_str()), ("about", "About Breezer", ""));
}

#[test]
fn system_plugin() {
    let p = SystemPlugin;
    assert_eq!(p.id(), "system");
    assert_eq!(p.name(), "Breezer System");
    assert_eq!(p.description(), "Built-in system plugin (app menu).");
    assert_eq!(p.menu_items(), vec![MenuItem::new("about", "About Breezer")]);
}

struct Counting(Arc<AtomicUsize>);

impl Plugin for Counting {
    fn id(&self) -> &'static str {
        "counting"
    }
    fn name(&self) -> &'static str {
        "Counting"
    }
    fn version(&self) -> &'static str {
        "1.0.0"
    }
    fn on_track_change(&self, _track: &TrackMeta) {
        self.0.fetch_add(1, Ordering::SeqCst);
    }
    fn on_auth_change(&self, _logged_in: bool, _username: &str) {
        self.0.fetch_add(10, Ordering::SeqCst);
    }
    fn menu_items(&self) -> Vec<MenuItem> {
        Vec::new()
    }
}

#[test]
fn registry_dispatches_and_aggregates() {
    let hits = Arc::new(AtomicUsize::new(0));
    let mut reg = PluginRegistry::with_system();
    reg.register(Box::new(Counting(hits.clone())));
    assert_eq!(reg.plugins().len(), 2);
    let t = TrackMeta { id: 1, title: "t".into(), artist: "a".into(), album: "b".into() };
    reg.notify_track(&t);
    reg.notify_auth(true, "me");
    reg.notify_theme("breezer-dark");
    reg.notify_layout("{}");
    assert_eq!(hits.load(Ordering::SeqCst), 11);
    assert_eq!(reg.menu_items(), vec![MenuItem::new("about", "About Breezer")]);
    assert!(PluginRegistry::new().menu_items().is_empty());
    assert!(PluginRegistry::new().plugins().is_empty());
    assert_eq!(reg.plugins()[0].id(), "system");
    assert_eq!(reg.plugins()[1].id(), "counting");
    // Default hooks of the trait do nothing and describe nothing.
    assert_eq!(Counting(hits.clone()).description(), "");
    assert!(Counting(hits).menu_items().is_empty());
}
