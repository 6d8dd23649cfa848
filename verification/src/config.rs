//! Dock-layout profiles, theme selection and palette tokens.
//!
//! Persistence (reading and writing `config.json` / `layout.json` in the
//! configuration directory) is done by the application; this module holds
//! the rules.

use crate::services::ThemeOverrides;
use crate::text::{chars_of, str_eq, trim, trim_chars};
use vstd::prelude::*;

verus! {

/// The density a layout gets when none is given.
pub fn density_default() -> (s: String)
    ensures
        s@ == "comfortable"@,
{
    "comfortable".to_owned()
}

/// The clock format the configuration gets when none is given.
pub fn time_format_default() -> (s: String)
    ensures
        s@ == "24h"@,
{
    "24h".to_owned()
}

/// Dock layout: which panel occupies which slot.
#[derive(Debug)]
pub struct LayoutProfile {
    /// Panel id in the LEFT slot ("sidebar", "queue", or "" - hidden).
    pub left: String,
    /// Panel id in the RIGHT slot.
    pub right: String,
    /// Panel id in the BOTTOM slot ("player", "queue", or "").
    pub bottom: String,
    /// Density: "compact" | "comfortable" | "spacious".
    pub density: String,
}

/// The panels that can be docked left or right.
pub open spec fn is_dockable(panel: Seq<char>) -> bool {
    panel == "sidebar"@ || panel == "queue"@
}

/// Where a drag & drop leaves `(target, other)` when `panel` is dropped on
/// `target`: nothing changes if it is already there; if the panel lived in
/// `other`, or `other` is free, the displaced occupant moves to `other`;
/// otherwise the displaced occupant is hidden.
pub open spec fn placed(target: Seq<char>, other: Seq<char>, panel: Seq<char>) -> (Seq<char>, Seq<char>) {
    if target == panel {
        (target, other)
    } else if other == panel || other.len() == 0 {
        (panel, target)
    } else {
        (panel, other)
    }
}

/// The `(left, right)` slots after dropping `panel` on `target`.
pub open spec fn docked(left: Seq<char>, right: Seq<char>, panel: Seq<char>, target: Seq<char>) -> (Seq<char>, Seq<char>) {
    if !is_dockable(panel) {
        (left, right)
    } else if target == "left"@ {
        placed(left, right, panel)
    } else if target == "right"@ {
        let (r, l) = placed(right, left, panel);
        (l, r)
    } else {
        (left, right)
    }
}

/// Whether the queue panel is shown in a side slot.
pub open spec fn queue_shown(left: Seq<char>, right: Seq<char>) -> bool {
    left == "queue"@ || right == "queue"@
}

/// Drag & drop law: dropping a dockable panel on a side slot puts it there,
/// and a panel never ends up in both side slots when it was not there before.
pub proof fn lemma_drop_places_panel_once(left: Seq<char>, right: Seq<char>, panel: Seq<char>, target: Seq<char>)
    requires
        left.len() == 0 || left != right,
    ensures
        ({
            let (l, r) = docked(left, right, panel, target);
            &&& l.len() == 0 || l != r
            &&& is_dockable(panel) && target == "left"@ ==> l == panel
            &&& is_dockable(panel) && target == "right"@ ==> r == panel
        }),
{
    if is_dockable(panel) {
        reveal_strlit("sidebar");
        reveal_strlit("queue");
        reveal_strlit("left");
        reveal_strlit("right");
        assert(panel.len() > 0);
        assert("left"@ != "right"@) by {
            assert("left"@[0] != "right"@[0]);
        }
    }
}

/// Toggle law: unless the queue sits in both side slots, toggling the queue
/// panel flips whether it is shown.
pub proof fn lemma_toggle_flips_queue(left: Seq<char>, right: Seq<char>)
    requires
        !(left == "queue"@ && right == "queue"@),
    ensures
        ({
            let (l, r) = if right == "queue"@ {
                (left, Seq::<char>::empty())
            } else if left == "queue"@ {
                (Seq::<char>::empty(), right)
            } else {
                (left, "queue"@)
            };
            queue_shown(l, r) == !queue_shown(left, right)
        }),
{
    reveal_strlit("queue");
    assert("queue"@.len() > 0);
}

/// Place `panel` into the `target` slot; `other` is the opposite slot.
pub fn place_panel(target: &mut String, other: &mut String, panel: &str)
    ensures
        (final(target)@, final(other)@) == placed(old(target)@, old(other)@, panel@),
{
    if str_eq(target.as_str(), panel) {
        return;
    }
    let displaced = target.clone();
    *target = panel.to_owned();
    if str_eq(other.as_str(), panel) || other.as_str().is_empty() {
        *other = displaced;
    }
}

impl LayoutProfile {
    /// The layout the application starts with.
    pub open spec fn is_default_layout(&self) -> bool {
        &&& self.left@ == "sidebar"@
        &&& self.right@ == Seq::<char>::empty()
        &&& self.bottom@ == "player"@
        &&& self.density@ == "comfortable"@
    }

    /// The sidebar on the left, the player at the bottom, nothing on the
    /// right, comfortable density.
    pub fn default_layout() -> (l: Self)
        ensures
            l.is_default_layout(),
    {
        LayoutProfile {
            left: "sidebar".to_owned(),
            right: String::new(),
            bottom: "player".to_owned(),
            density: "comfortable".to_owned(),
        }
    }

    /// Apply a drag & drop: place `panel` into `target` slot ("left"|"right").
    /// If the panel currently lives in the other slot, the two slots swap; if
    /// the panel is hidden, it takes the target slot and the displaced
    /// occupant moves to the other slot if free, otherwise is hidden. Other
    /// panels and other targets are ignored.
    pub fn set_panel(&mut self, panel: &str, target: &str)
        ensures
            final(self).bottom == old(self).bottom,
            final(self).density == old(self).density,
            (final(self).left@, final(self).right@) == docked(old(self).left@, old(self).right@, panel@, target@),
    {
        if !(str_eq(panel, "sidebar") || str_eq(panel, "queue")) {
            return;
        }
        if str_eq(target, "left") {
            place_panel(&mut self.left, &mut self.right, panel);
        } else if str_eq(target, "right") {
            place_panel(&mut self.right, &mut self.left, panel);
        }
    }

    /// Toggle the queue panel visibility (dock to right <-> hidden).
    pub fn toggle_queue(&mut self)
        ensures
            final(self).bottom == old(self).bottom,
            final(self).density == old(self).density,
            if old(self).right@ == "queue"@ {
                final(self).right@ == Seq::<char>::empty() && final(self).left == old(self).left
            } else if old(self).left@ == "queue"@ {
                final(self).left@ == Seq::<char>::empty() && final(self).right == old(self).right
            } else {
                final(self).right@ == "queue"@ && final(self).left == old(self).left
            },
    {
        if str_eq(self.right.as_str(), "queue") {
            self.right = String::new();
        } else if str_eq(self.left.as_str(), "queue") {
            self.left = String::new();
        } else {
            self.right = "queue".to_owned();
        }
    }

    /// Reset to the default layout.
    pub fn reset(&mut self)
        ensures
            final(self).is_default_layout(),
    {
        *self = Self::default_layout();
    }
}

/// `LayoutProfile::default()`: every slot empty, no density.
impl Default for LayoutProfile {
    fn default() -> (l: Self)
        ensures
            l.left@ == Seq::<char>::empty(),
            l.right@ == Seq::<char>::empty(),
            l.bottom@ == Seq::<char>::empty(),
            l.density@ == Seq::<char>::empty(),
    {
        LayoutProfile { left: String::new(), right: String::new(), bottom: String::new(), density: String::new() }
    }
}

impl Clone for LayoutProfile {
    fn clone(&self) -> (c: Self)
        ensures
            c == *self,
    {
        LayoutProfile {
            left: self.left.clone(),
            right: self.right.clone(),
            bottom: self.bottom.clone(),
            density: self.density.clone(),
        }
    }
}


// ---------------------------------------------------------------------------
// Themes and palette tokens
// ---------------------------------------------------------------------------

/// The themes embedded in the application.
#[derive(Debug, Clone, Copy, PartialEq, Eq, Structural)]
pub enum BuiltinTheme {
    Dark,
    Light,
    Amoled,
}

impl BuiltinTheme {
    /// The built-in theme an id loads: `breezer-light` and `breezer-amoled`
    /// by name, anything else the dark theme.
    pub fn from_id(id: &str) -> (t: BuiltinTheme)
        ensures
            t == (if id@ == "breezer-light"@ {
                BuiltinTheme::Light
            } else if id@ == "breezer-amoled"@ {
                BuiltinTheme::Amoled
            } else {
                BuiltinTheme::Dark
            }),
    {
        if str_eq(id, "breezer-light") {
            BuiltinTheme::Light
        } else if str_eq(id, "breezer-amoled") {
            BuiltinTheme::Amoled
        } else {
            BuiltinTheme::Dark
        }
    }

    /// The id of the theme.
    pub fn id(&self) -> (s: &'static str)
        ensures
            s@ == (match *self {
                BuiltinTheme::Dark => "breezer-dark"@,
                BuiltinTheme::Light => "breezer-light"@,
                BuiltinTheme::Amoled => "breezer-amoled"@,
            }),
    {
        match self {
            BuiltinTheme::Dark => "breezer-dark",
            BuiltinTheme::Light => "breezer-light",
            BuiltinTheme::Amoled => "breezer-amoled",
        }
    }
}

/// Available built-in theme ids.
pub fn builtin_ids() -> (ids: Vec<&'static str>)
    ensures
        ids@.len() == 3,
        ids@[0]@ == "breezer-dark"@,
        ids@[1]@ == "breezer-light"@,
        ids@[2]@ == "breezer-amoled"@,
{
    let mut ids: Vec<&'static str> = Vec::new();
    ids.push("breezer-dark");
    ids.push("breezer-light");
    ids.push("breezer-amoled");
    ids
}

/// A color or size token of a theme palette.
#[derive(Debug, Clone, Copy, PartialEq, Eq, Structural)]
pub enum PaletteToken {
    Bg,
    Surface,
    Surface2,
    Primary,
    OnPrimary,
    Accent,
    Text,
    TextSecondary,
    Error,
    Radius,
    Spacing,
}

/// The palette token an override key names (snake or kebab case for the
/// two-word tokens).
pub open spec fn token_of(key: Seq<char>) -> Option<PaletteToken> {
    if key == "bg"@ {
        Some(PaletteToken::Bg)
    } else if key == "surface"@ {
        Some(PaletteToken::Surface)
    } else if key == "surface2"@ {
        Some(PaletteToken::Surface2)
    } else if key == "primary"@ {
        Some(PaletteToken::Primary)
    } else if key == "on_primary"@ || key == "on-primary"@ {
        Some(PaletteToken::OnPrimary)
    } else if key == "accent"@ {
        Some(PaletteToken::Accent)
    } else if key == "text"@ {
        Some(PaletteToken::Text)
    } else if key == "text_secondary"@ || key == "text-secondary"@ {
        Some(PaletteToken::TextSecondary)
    } else if key == "error"@ {
        Some(PaletteToken::Error)
    } else if key == "radius"@ {
        Some(PaletteToken::Radius)
    } else if key == "spacing"@ {
        Some(PaletteToken::Spacing)
    } else {
        None
    }
}

/// Law: each override key names the palette entry of the same name (the
/// two-word entries in snake or kebab case), and no other key names one.
pub proof fn lemma_override_keys()
    ensures
        token_of("bg"@) == Some(PaletteToken::Bg),
        token_of("surface"@) == Some(PaletteToken::Surface),
        token_of("surface2"@) == Some(PaletteToken::Surface2),
        token_of("primary"@) == Some(PaletteToken::Primary),
        token_of("on_primary"@) == Some(PaletteToken::OnPrimary),
        token_of("on-primary"@) == Some(PaletteToken::OnPrimary),
        token_of("accent"@) == Some(PaletteToken::Accent),
        token_of("text"@) == Some(PaletteToken::Text),
        token_of("text_secondary"@) == Some(PaletteToken::TextSecondary),
        token_of("text-secondary"@) == Some(PaletteToken::TextSecondary),
        token_of("error"@) == Some(PaletteToken::Error),
        token_of("radius"@) == Some(PaletteToken::Radius),
        token_of("spacing"@) == Some(PaletteToken::Spacing),
        forall|k: Seq<char>|
            #![trigger token_of(k)]
            token_of(k) is Some ==> k == "bg"@ || k == "surface"@ || k == "surface2"@ || k == "primary"@
                || k == "on_primary"@ || k == "on-primary"@ || k == "accent"@ || k == "text"@ || k
                == "text_secondary"@ || k == "text-secondary"@ || k == "error"@ || k == "radius"@ || k
                == "spacing"@,
{
    reveal_strlit("bg");
    reveal_strlit("surface");
    reveal_strlit("surface2");
    reveal_strlit("primary");
    reveal_strlit("on_primary");
    reveal_strlit("on-primary");
    reveal_strlit("accent");
    reveal_strlit("text");
    reveal_strlit("text_secondary");
    reveal_strlit("text-secondary");
    reveal_strlit("error");
    reveal_strlit("radius");
    reveal_strlit("spacing");
    assert("surface2"@ != "surface"@) by {
        assert("surface2"@.len() != "surface"@.len());
    }
    assert("surface"@ != "bg"@) by {
        assert("surface"@.len() != "bg"@.len());
    }
    assert("surface2"@ != "bg"@) by {
        assert("surface2"@.len() != "bg"@.len());
    }
    assert("primary"@ != "bg"@ && "primary"@ != "surface"@ && "primary"@ != "surface2"@) by {
        assert("primary"@[0] != "bg"@[0] && "primary"@[0] != "surface"@[0] && "primary"@[0] != "surface2"@[0]);
    }
    assert("on_primary"@ != "bg"@ && "on_primary"@ != "surface"@ && "on_primary"@ != "surface2"@
        && "on_primary"@ != "primary"@) by {
        assert("on_primary"@[0] != "bg"@[0] && "on_primary"@[0] != "surface"@[0] && "on_primary"@[0]
            != "surface2"@[0] && "on_primary"@[0] != "primary"@[0]);
    }
    assert("on-primary"@ != "bg"@ && "on-primary"@ != "surface"@ && "on-primary"@ != "surface2"@
        && "on-primary"@ != "primary"@) by {
        assert("on-primary"@[0] != "bg"@[0] && "on-primary"@[0] != "surface"@[0] && "on-primary"@[0]
            != "surface2"@[0] && "on-primary"@[0] != "primary"@[0]);
    }
    assert("accent"@ != "bg"@ && "accent"@ != "surface"@ && "accent"@ != "surface2"@ && "accent"@ != "primary"@
        && "accent"@ != "on_primary"@ && "accent"@ != "on-primary"@) by {
        assert("accent"@[0] != "bg"@[0] && "accent"@[0] != "surface"@[0] && "accent"@[0] != "surface2"@[0]
            && "accent"@[0] != "primary"@[0] && "accent"@[0] != "on_primary"@[0] && "accent"@[0]
            != "on-primary"@[0]);
    }
    assert("text"@ != "bg"@ && "text"@ != "surface"@ && "text"@ != "surface2"@ && "text"@ != "primary"@
        && "text"@ != "on_primary"@ && "text"@ != "on-primary"@ && "text"@ != "accent"@) by {
        assert("text"@[0] != "bg"@[0] && "text"@[0] != "surface"@[0] && "text"@[0] != "surface2"@[0]
            && "text"@[0] != "primary"@[0] && "text"@[0] != "on_primary"@[0] && "text"@[0] != "on-primary"@[0]
            && "text"@[0] != "accent"@[0]);
    }
    assert("text_secondary"@ != "text"@ && "text-secondary"@ != "text"@ && "text_secondary"@ != "bg"@
        && "text-secondary"@ != "bg"@) by {
        assert("text_secondary"@.len() != "text"@.len() && "text-secondary"@.len() != "text"@.len());
        assert("text_secondary"@.len() != "bg"@.len() && "text-secondary"@.len() != "bg"@.len());
    }
    assert("text_secondary"@ != "surface"@ && "text_secondary"@ != "surface2"@ && "text_secondary"@ != "primary"@
        && "text_secondary"@ != "on_primary"@ && "text_secondary"@ != "on-primary"@ && "text_secondary"@
        != "accent"@) by {
        assert("text_secondary"@[0] != "surface"@[0] && "text_secondary"@[0] != "surface2"@[0]
            && "text_secondary"@[0] != "primary"@[0] && "text_secondary"@[0] != "on_primary"@[0]
            && "text_secondary"@[0] != "on-primary"@[0] && "text_secondary"@[0] != "accent"@[0]);
    }
    assert("text-secondary"@ != "surface"@ && "text-secondary"@ != "surface2"@ && "text-secondary"@ != "primary"@
        && "text-secondary"@ != "on_primary"@ && "text-secondary"@ != "on-primary"@ && "text-secondary"@
        != "accent"@ && "text-secondary"@ != "text_secondary"@) by {
        assert("text-secondary"@[0] != "surface"@[0] && "text-secondary"@[0] != "surface2"@[0]
            && "text-secondary"@[0] != "primary"@[0] && "text-secondary"@[0] != "on_primary"@[0]
            && "text-secondary"@[0] != "on-primary"@[0] && "text-secondary"@[0] != "accent"@[0]);
        assert("text-secondary"@[4] != "text_secondary"@[4]);
    }
    assert("error"@[0] != "bg"@[0] && "error"@[0] != "surface"@[0] && "error"@[0] != "surface2"@[0]
        && "error"@[0] != "primary"@[0] && "error"@[0] != "on_primary"@[0] && "error"@[0] != "on-primary"@[0]
        && "error"@[0] != "accent"@[0] && "error"@[0] != "text"@[0] && "error"@[0] != "text_secondary"@[0]
        && "error"@[0] != "text-secondary"@[0]);
    assert("radius"@[0] != "bg"@[0] && "radius"@[0] != "surface"@[0] && "radius"@[0] != "surface2"@[0]
        && "radius"@[0] != "on_primary"@[0] && "radius"@[0] != "on-primary"@[0] && "radius"@[0] != "accent"@[0]
        && "radius"@[0] != "text"@[0] && "radius"@[0] != "text_secondary"@[0] && "radius"@[0]
        != "text-secondary"@[0] && "radius"@[0] != "error"@[0]);
    assert("radius"@ != "primary"@) by {
        assert("radius"@.len() != "primary"@.len());
    }
    assert("spacing"@[0] != "bg"@[0] && "spacing"@[0] != "on_primary"@[0] && "spacing"@[0] != "on-primary"@[0]
        && "spacing"@[0] != "accent"@[0] && "spacing"@[0] != "text"@[0] && "spacing"@[0] != "text_secondary"@[0]
        && "spacing"@[0] != "text-secondary"@[0] && "spacing"@[0] != "error"@[0] && "spacing"@[0]
        != "radius"@[0] && "spacing"@[0] != "primary"@[0]);
    assert("spacing"@ != "surface"@ && "spacing"@ != "surface2"@) by {
        assert("spacing"@[1] != "surface"@[1] && "spacing"@[1] != "surface2"@[1]);
    }
}

impl PaletteToken {
    /// The token that a user override key sets, `None` for unknown keys
    /// (which overrides ignore).
    pub fn from_key(key: &str) -> (t: Option<PaletteToken>)
        ensures
            t == token_of(key@),
    {
        if str_eq(key, "bg") {
            Some(PaletteToken::Bg)
        } else if str_eq(key, "surface") {
            Some(PaletteToken::Surface)
        } else if str_eq(key, "surface2") {
            Some(PaletteToken::Surface2)
        } else if str_eq(key, "primary") {
            Some(PaletteToken::Primary)
        } else if str_eq(key, "on_primary") || str_eq(key, "on-primary") {
            Some(PaletteToken::OnPrimary)
        } else if str_eq(key, "accent") {
            Some(PaletteToken::Accent)
        } else if str_eq(key, "text") {
            Some(PaletteToken::Text)
        } else if str_eq(key, "text_secondary") || str_eq(key, "text-secondary") {
            Some(PaletteToken::TextSecondary)
        } else if str_eq(key, "error") {
            Some(PaletteToken::Error)
        } else if str_eq(key, "radius") {
            Some(PaletteToken::Radius)
        } else if str_eq(key, "spacing") {
            Some(PaletteToken::Spacing)
        } else {
            None
        }
    }
}

/// The color entries of a theme palette, as hex texts (`#rrggbb`); the
/// palette's sizes (radius, spacing) are floats and kept by the application.
#[derive(Debug, Clone)]
pub struct PaletteColors {
    pub bg: String,
    pub surface: String,
    pub surface2: String,
    pub primary: String,
    pub on_primary: String,
    pub accent: String,
    pub text: String,
    pub text_secondary: String,
    pub error: String,
}

/// Whether a token names a color (not a size).
pub open spec fn is_color_token(t: PaletteToken) -> bool {
    !(t == PaletteToken::Radius || t == PaletteToken::Spacing)
}

/// The text of the color entry that `t` names (empty for the sizes).
pub open spec fn color_of(c: PaletteColors, t: PaletteToken) -> Seq<char> {
    match t {
        PaletteToken::Bg => c.bg@,
        PaletteToken::Surface => c.surface@,
        PaletteToken::Surface2 => c.surface2@,
        PaletteToken::Primary => c.primary@,
        PaletteToken::OnPrimary => c.on_primary@,
        PaletteToken::Accent => c.accent@,
        PaletteToken::Text => c.text@,
        PaletteToken::TextSecondary => c.text_secondary@,
        PaletteToken::Error => c.error@,
        PaletteToken::Radius => Seq::empty(),
        PaletteToken::Spacing => Seq::empty(),
    }
}

/// The value of the last override whose key names `t`, if any (later pairs
/// win: `on_primary` and `on-primary` both name one token).
pub open spec fn override_for(pairs: Seq<(Seq<char>, Seq<char>)>, t: PaletteToken) -> Option<Seq<char>>
    decreases pairs.len(),
{
    if pairs.len() == 0 {
        None
    } else if token_of(pairs.last().0) == Some(t) {
        Some(pairs.last().1)
    } else {
        override_for(pairs.drop_last(), t)
    }
}

/// A color entry after the overrides: the last override of its token, or the
/// entry unchanged.
pub open spec fn overridden(entry: Seq<char>, pairs: Seq<(Seq<char>, Seq<char>)>, t: PaletteToken) -> Seq<char> {
    match override_for(pairs, t) {
        Some(v) => v,
        None => entry,
    }
}

/// Apply user overrides (token -> value) on top of the palette's colors, in
/// the overrides' order; keys that name no color are ignored.
pub fn apply_color_overrides(colors: &mut PaletteColors, overrides: &ThemeOverrides)
    ensures
        forall|t: PaletteToken|
            is_color_token(t) ==> color_of(*final(colors), t) == overridden(
                color_of(*old(colors), t),
                overrides.pairs(),
                t,
            ),
        final(colors).bg@ == overridden(old(colors).bg@, overrides.pairs(), PaletteToken::Bg),
        final(colors).surface@ == overridden(old(colors).surface@, overrides.pairs(), PaletteToken::Surface),
        final(colors).surface2@ == overridden(old(colors).surface2@, overrides.pairs(), PaletteToken::Surface2),
        final(colors).primary@ == overridden(old(colors).primary@, overrides.pairs(), PaletteToken::Primary),
        final(colors).on_primary@ == overridden(old(colors).on_primary@, overrides.pairs(), PaletteToken::OnPrimary),
        final(colors).accent@ == overridden(old(colors).accent@, overrides.pairs(), PaletteToken::Accent),
        final(colors).text@ == overridden(old(colors).text@, overrides.pairs(), PaletteToken::Text),
        final(colors).text_secondary@ == overridden(old(colors).text_secondary@, overrides.pairs(), PaletteToken::TextSecondary),
        final(colors).error@ == overridden(old(colors).error@, overrides.pairs(), PaletteToken::Error),
{
    let entries = overrides.entries();
    let ghost pairs = overrides.pairs();
    let ghost start = *colors;
    for i in 0..entries.len()
        invariant
            crate::i18n::table_view(entries@) == pairs,
            forall|t: PaletteToken|
                #![trigger color_of(*colors, t)]
                is_color_token(t) ==> color_of(*colors, t) == overridden(
                    color_of(start, t),
                    pairs.take(i as int),
                    t,
                ),
    {
        let key = entries[i].0.as_str();
        let value = entries[i].1.clone();
        let ghost before = *colors;
        assert(pairs[i as int] == (key@, value@));
        assert(pairs.take(i + 1).drop_last() =~= pairs.take(i as int));
        assert(pairs.take(i + 1).last() == pairs[i as int]);
        match PaletteToken::from_key(key) {
            Some(PaletteToken::Bg) => colors.bg = value,
            Some(PaletteToken::Surface) => colors.surface = value,
            Some(PaletteToken::Surface2) => colors.surface2 = value,
            Some(PaletteToken::Primary) => colors.primary = value,
            Some(PaletteToken::OnPrimary) => colors.on_primary = value,
            Some(PaletteToken::Accent) => colors.accent = value,
            Some(PaletteToken::Text) => colors.text = value,
            Some(PaletteToken::TextSecondary) => colors.text_secondary = value,
            Some(PaletteToken::Error) => colors.error = value,
            _ => {},
        }
        assert forall|t: PaletteToken| is_color_token(t) implies color_of(*colors, t) == overridden(
            color_of(start, t),
            pairs.take(i + 1),
            t,
        ) by {
            if token_of(key@) == Some(t) {
                assert(color_of(*colors, t) == value@);
            } else {
                assert(color_of(*colors, t) == color_of(before, t));
            }
        }
    }
    assert(pairs.take(entries@.len() as int) =~= pairs);
    assert(color_of(*colors, PaletteToken::Bg) == overridden(color_of(start, PaletteToken::Bg), pairs, PaletteToken::Bg));
    assert(color_of(*colors, PaletteToken::Surface) == overridden(color_of(start, PaletteToken::Surface), pairs, PaletteToken::Surface));
    assert(color_of(*colors, PaletteToken::Surface2) == overridden(color_of(start, PaletteToken::Surface2), pairs, PaletteToken::Surface2));
    assert(color_of(*colors, PaletteToken::Primary) == overridden(color_of(start, PaletteToken::Primary), pairs, PaletteToken::Primary));
    assert(color_of(*colors, PaletteToken::OnPrimary) == overridden(color_of(start, PaletteToken::OnPrimary), pairs, PaletteToken::OnPrimary));
    assert(color_of(*colors, PaletteToken::Accent) == overridden(color_of(start, PaletteToken::Accent), pairs, PaletteToken::Accent));
    assert(color_of(*colors, PaletteToken::Text) == overridden(color_of(start, PaletteToken::Text), pairs, PaletteToken::Text));
    assert(color_of(*colors, PaletteToken::TextSecondary) == overridden(color_of(start, PaletteToken::TextSecondary), pairs, PaletteToken::TextSecondary));
    assert(color_of(*colors, PaletteToken::Error) == overridden(color_of(start, PaletteToken::Error), pairs, PaletteToken::Error));
}

/// The tokens the theme editor may override (the theme manifest's spelling).
pub open spec fn is_editable_token(key: Seq<char>) -> bool {
    key == "bg"@ || key == "surface"@ || key == "surface2"@ || key == "primary"@
        || key == "on-primary"@ || key == "accent"@ || key == "text"@ || key == "text-secondary"@
        || key == "error"@ || key == "radius"@ || key == "spacing"@
}

/// Whether the theme editor accepts an override of `key`.
pub fn editable_token(key: &str) -> (b: bool)
    ensures
        b == is_editable_token(key@),
{
    str_eq(key, "bg") || str_eq(key, "surface") || str_eq(key, "surface2") || str_eq(key, "primary")
        || str_eq(key, "on-primary") || str_eq(key, "accent") || str_eq(key, "text")
        || str_eq(key, "text-secondary") || str_eq(key, "error") || str_eq(key, "radius")
        || str_eq(key, "spacing")
}

// ---------------------------------------------------------------------------
// Hex colors
// ---------------------------------------------------------------------------

/// `s` without its leading `#` characters.
pub open spec fn strip_hashes(s: Seq<char>) -> Seq<char>
    decreases s.len(),
{
    if s.len() > 0 && s[0] == '#' {
        strip_hashes(s.drop_first())
    } else {
        s
    }
}

/// The value of a hexadecimal digit (either case), or -1.
pub open spec fn hex_value_of(c: char) -> int {
    if '0' <= c && c <= '9' {
        c as int - '0' as int
    } else if 'a' <= c && c <= 'f' {
        c as int - 'a' as int + 10
    } else if 'A' <= c && c <= 'F' {
        c as int - 'A' as int + 10
    } else {
        -1
    }
}

/// Whether every character is a hexadecimal digit.
pub open spec fn all_hex(d: Seq<char>) -> bool {
    forall|i: int| 0 <= i < d.len() ==> hex_value_of(#[trigger] d[i]) >= 0
}

/// The number that hexadecimal digits spell.
pub open spec fn hex_number(d: Seq<char>) -> int
    decreases d.len(),
{
    if d.len() == 0 {
        0
    } else {
        hex_number(d.drop_last()) * 16 + hex_value_of(d.last())
    }
}

/// The `#rrggbb` / `#rrggbbaa` text after trimming and removing the leading
/// `#`s.
pub open spec fn hex_body(s: Seq<char>) -> Seq<char> {
    strip_hashes(trim(s))
}

/// The rgb triple of `#rrggbb` (or `#rrggbbaa`, alpha ignored): the body must
/// be exactly six or eight hexadecimal digits; anything else is `None`.
pub open spec fn hex_rgb(s: Seq<char>) -> Option<(u8, u8, u8)> {
    let h = hex_body(s);
    if (h.len() == 6 || h.len() == 8) && all_hex(h) {
        let v = hex_number(h.take(6));
        Some((((v / 65536) % 256) as u8, ((v / 256) % 256) as u8, (v % 256) as u8))
    } else {
        None
    }
}

fn hex_digit_value(c: char) -> (v: i32)
    ensures
        v == hex_value_of(c),
{
    if '0' <= c && c <= '9' {
        (c as u32 - '0' as u32) as i32
    } else if 'a' <= c && c <= 'f' {
        (c as u32 - 'a' as u32 + 10) as i32
    } else if 'A' <= c && c <= 'F' {
        (c as u32 - 'A' as u32 + 10) as i32
    } else {
        -1
    }
}

/// Convert `#rrggbb` (or `#rrggbbaa`) to an rgb tuple; `None` on parse
/// failure.
pub fn parse_hex(s: &str) -> (r: Option<(u8, u8, u8)>)
    ensures
        r == hex_rgb(s@),
{
    let all = chars_of(s);
    let trimmed = trim_chars(all.as_slice());
    let n = trimmed.len();
    let mut start: usize = 0;
    assert(trimmed@.skip(0) =~= trimmed@);
    while start < n && trimmed[start] == '#'
        invariant
            n == trimmed@.len(),
            start <= n,
            strip_hashes(trimmed@.skip(start as int)) == strip_hashes(trimmed@),
        decreases n - start,
    {
        assert(trimmed@.skip(start as int).drop_first() =~= trimmed@.skip(start + 1));
        start += 1;
    }
    let mut body: Vec<char> = Vec::with_capacity(n - start);
    for i in start..n
        invariant
            n == trimmed@.len(),
            start <= n,
            body@ =~= trimmed@.subrange(start as int, i as int),
    {
        body.push(trimmed[i]);
    }
    assert(body@ =~= trimmed@.skip(start as int));
    let ghost h = hex_body(s@);
    assert(body@ == h);
    let len = body.len();
    if len != 6 && len != 8 {
        return None;
    }
    let mut k: usize = 0;
    while k < len
        invariant
            body@ == h,
            h == hex_body(s@),
            len == h.len(),
            k <= len,
            forall|j: int| 0 <= j < k ==> hex_value_of(#[trigger] h[j]) >= 0,
        decreases len - k,
    {
        if hex_digit_value(body[k]) < 0 {
            assert(!all_hex(h));
            return None;
        }
        k += 1;
    }
    assert(all_hex(h));
    let ghost d = h.take(6);
    let mut v: u32 = 0;
    let mut k: usize = 0;
    while k < 6
        invariant
            body@ == h,
            h == hex_body(s@),
            d == h.take(6),
            h.len() >= 6,
            all_hex(h),
            k <= 6,
            v as int == hex_number(d.subrange(0, k as int)),
            v < pow16(k as int),
        decreases 6 - k,
    {
        let x = hex_digit_value(body[k]);
        assert(hex_value_of(h[k as int]) >= 0);
        let ghost prev = d.subrange(0, k as int);
        let ghost next = d.subrange(0, k + 1);
        assert(next.drop_last() =~= prev);
        assert(next.last() == body@[k as int]);
        proof {
            lemma_pow16_step(k as int);
        }
        v = v * 16 + x as u32;
        k += 1;
    }
    assert(d.subrange(0, 6) =~= d);
    let r = (((v / 65536) % 256) as u8, ((v / 256) % 256) as u8, (v % 256) as u8);
    Some(r)
}

/// `16^n` for the digit counts of a color.
pub open spec fn pow16(n: int) -> int
    decreases n,
{
    if n <= 0 {
        1
    } else {
        16 * pow16(n - 1)
    }
}

proof fn lemma_pow16_step(n: int)
    requires
        0 <= n <= 5,
    ensures
        pow16(n + 1) == 16 * pow16(n),
        pow16(n) <= 1048576,
{
    reveal_with_fuel(pow16, 7);
}

/// The color a palette entry shows: its rgb triple, or the dark background
/// `(15, 16, 18)` when it does not parse.
pub fn hex_rgb_or_default(s: &str) -> (rgb: (u8, u8, u8))
    ensures
        rgb == (match hex_rgb(s@) {
            Some(c) => c,
            None => (15u8, 16u8, 18u8),
        }),
{
    match parse_hex(s) {
        Some(c) => c,
        None => (15, 16, 18),
    }
}

} // verus!
