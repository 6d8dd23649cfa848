use breezer::services::ThemeOverrides;
use breezer::config::{apply_color_overrides, PaletteColors, 
    builtin_ids, density_default, editable_token, hex_rgb_or_default, parse_hex, place_panel,
    time_format_default, BuiltinTheme, LayoutProfile, PaletteToken,
};

fn layout(left: &str, right: &str) -> LayoutProfile {
    LayoutProfile {
        left: left.to_string(),
        right: right.to_string(),
        bottom: "player".to_string(),
        density: "comfortable".to_string(),
    }
}

#[test]
fn default_layout_and_reset() {
    let d = LayoutProfile::default_layout();
    assert_eq!((d.left.as_str(), d.right.as_str(), d.bottom.as_str(), d.density.as_str()), ("sidebar", "", "player", "comfortable"));
    let mut l = layout("queue", "sidebar");
    l.density = "compact".to_string();
    l.reset();
    assert_eq!((l.left.as_str(), l.right.as_str(), l.density.as_str()), ("sidebar", "", "comfortable"));
    let e = LayoutProfile::default();
    assert_eq!((e.left.as_str(), e.right.as_str(), e.bottom.as_str(), e.density.as_str()), ("", "", "", ""));
}

#[test]
fn drop_swaps_when_panel_is_in_other_slot() {
    let mut l = layout("sidebar", "queue");
    l.set_panel("queue", "left");
    assert_eq!((l.left.as_str(), l.right.as_str()), ("queue", "sidebar"));
}

#[test]
fn drop_moves_displaced_to_free_slot_or_hides_it() {
    let mut l = layout("sidebar", "");
    l.set_panel("queue", "left");
    assert_eq!((l.left.as_str(), l.right.as_str()), ("queue", "sidebar"));
    let mut l = layout("sidebar", "lyrics");
    l.set_panel("queue", "left");
    assert_eq!((l.left.as_str(), l.right.as_str()), ("queue", "lyrics"));
}

#[test]
fn drop_ignores_unknown_panels_targets_and_no_moves() {
    let mut l = layout("sidebar", "");
    l.set_panel("player", "left");
    l.set_panel("queue", "bottom");
    l.set_panel("sidebar", "left");
    assert_eq!((l.left.as_str(), l.right.as_str()), ("sidebar", ""));
    l.set_panel("sidebar", "right");
    assert_eq!((l.left.as_str(), l.right.as_str()), ("", "sidebar"));
}

#[test]
fn drop_never_shows_a_panel_twice() {
    let panels = ["sidebar", "queue", "", "lyrics"];
    for a in panels {
        for b in panels {
            if !a.is_empty() && a == b {
                continue;
            }
            for p in ["sidebar", "queue"] {
                for t in ["left", "right"] {
                    let mut l = layout(a, b);
                    l.set_panel(p, t);
                    assert!(l.left.is_empty() || l.left != l.right);
                    assert_eq!(if t == "left" { &l.left } else { &l.right }, p);
                }
            }
        }
    }
}

#[test]
fn toggle_queue_flips_visibility() {
    let mut l = layout("sidebar", "");
    l.toggle_queue();
    assert_eq!(l.right, "queue");
    l.toggle_queue();
    assert_eq!(l.right, "");
    let mut l = layout("queue", "sidebar");
    l.toggle_queue();
    assert_eq!((l.left.as_str(), l.right.as_str()), ("", "sidebar"));
}

#[test]
fn place_panel_direct() {
    let mut t = "a".to_string();
    let mut o = "".to_string();
    place_panel(&mut t, &mut o, "queue");
    assert_eq!((t.as_str(), o.as_str()), ("queue", "a"));
}

#[test]
fn defaults() {
    assert_eq!(density_default(), "comfortable");
    assert_eq!(time_format_default(), "24h");
}

#[test]
fn themes() {
    assert_eq!(builtin_ids(), vec!["breezer-dark", "breezer-light", "breezer-amoled"]);
    assert_eq!(BuiltinTheme::from_id("breezer-light"), BuiltinTheme::Light);
    assert_eq!(BuiltinTheme::from_id("breezer-amoled"), BuiltinTheme::Amoled);
    assert_eq!(BuiltinTheme::from_id("whatever"), BuiltinTheme::Dark);
    assert_eq!(BuiltinTheme::Light.id(), "breezer-light");
}

#[test]
fn palette_tokens() {
    assert_eq!(PaletteToken::from_key("on-primary"), Some(PaletteToken::OnPrimary));
    assert_eq!(PaletteToken::from_key("on_primary"), Some(PaletteToken::OnPrimary));
    assert_eq!(PaletteToken::from_key("text-secondary"), Some(PaletteToken::TextSecondary));
    assert_eq!(PaletteToken::from_key("spacing"), Some(PaletteToken::Spacing));
    assert_eq!(PaletteToken::from_key("font"), None);
    assert!(editable_token("radius"));
    assert!(editable_token("on-primary"));
    assert!(!editable_token("on_primary"));
}

#[test]
fn hex_colors() {
    assert_eq!(parse_hex("#a238ff"), Some((0xa2, 0x38, 0xff)));
    assert_eq!(parse_hex("  ##0F1012  "), Some((15, 16, 18)));
    assert_eq!(parse_hex("#a238ff80"), Some((0xa2, 0x38, 0xff)));
    assert_eq!(parse_hex("+abcde"), None);
    assert_eq!(parse_hex("#a238ffzz"), None);
    assert_eq!(parse_hex("#aaaaa\u{e9}a"), None);
    assert_eq!(parse_hex("#A238FF"), Some((0xa2, 0x38, 0xff)));
    assert_eq!(parse_hex("#a238f"), None);
    assert_eq!(parse_hex("#zz38ff"), None);
    assert_eq!(parse_hex("#a238f\u{e9}"), None);
    assert_eq!(parse_hex(""), None);
    assert_eq!(hex_rgb_or_default("nope"), (15, 16, 18));
    assert_eq!(hex_rgb_or_default("#ffffff"), (255, 255, 255));
}

fn black_palette() -> PaletteColors {
    let b = || "#000000".to_string();
    PaletteColors {
        bg: b(),
        surface: b(),
        surface2: b(),
        primary: b(),
        on_primary: b(),
        accent: b(),
        text: b(),
        text_secondary: b(),
        error: b(),
    }
}

#[test]
fn color_overrides_take_the_last_value_of_each_token() {
    let mut o = ThemeOverrides::from_pairs(vec![
        ("on_primary".to_string(), "#111111".to_string()),
        ("bg".to_string(), "#222222".to_string()),
        ("radius".to_string(), "4".to_string()),
        ("nope".to_string(), "#abcdef".to_string()),
    ]);
    o.set("on-primary".to_string(), "#333333".to_string());
    let mut c = black_palette();
    apply_color_overrides(&mut c, &o);
    assert_eq!(c.on_primary, "#333333");
    assert_eq!(c.bg, "#222222");
    assert_eq!(c.surface, "#000000");
    assert_eq!(c.text_secondary, "#000000");
    assert_eq!(hex_rgb_or_default(&c.bg), (0x22, 0x22, 0x22));
}
