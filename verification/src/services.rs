//! The decisions of the application's services loop: how each user command
//! changes the settings, the dock layout and the player modes, and what the
//! application must then do (save, notify plugins, update the window...).
//!
//! The application runs the loop: it performs each [`Effect`] and feeds the
//! outcome of network work back (login, search).

use crate::api::{opt_view, AuthSession};
use crate::config::{is_editable_token, editable_token, LayoutProfile};
use crate::i18n::{args_view, substitute, I18n, Lang};
use crate::player::decrypt::{blowfish_key_for, decrypt_audio_stream, decrypt_stream};
use crate::player::queue::RepeatMode;
use crate::text::{chars_of, str_eq, trim, trim_chars};
use vstd::prelude::*;

verus! {

// ---------------------------------------------------------------------------
// Theme overrides
// ---------------------------------------------------------------------------

/// User overrides of palette tokens (token -> value), each token once.
pub struct ThemeOverrides {
    entries: Vec<(String, String)>,
}

/// The first value of `key` in a list of pairs.
pub open spec fn lookup(pairs: Seq<(Seq<char>, Seq<char>)>, key: Seq<char>) -> Option<Seq<char>> {
    crate::i18n::lookup(pairs, key)
}

/// Whether no key occurs twice.
pub open spec fn distinct_keys(pairs: Seq<(Seq<char>, Seq<char>)>) -> bool {
    forall|i: int, j: int| 0 <= i < j < pairs.len() ==> pairs[i].0 != pairs[j].0
}

proof fn lemma_lookup_index(pairs: Seq<(Seq<char>, Seq<char>)>, key: Seq<char>)
    requires
        distinct_keys(pairs),
    ensures
        forall|i: int| 0 <= i < pairs.len() && pairs[i].0 == key ==> lookup(pairs, key) == Some(pairs[i].1),
        (forall|i: int| 0 <= i < pairs.len() ==> pairs[i].0 != key) ==> lookup(pairs, key) is None,
    decreases pairs.len(),
{
    if pairs.len() > 0 {
        let rest = pairs.drop_first();
        assert(distinct_keys(rest)) by {
            assert forall|i: int, j: int| 0 <= i < j < rest.len() implies rest[i].0 != rest[j].0 by {
                assert(rest[i] == pairs[i + 1] && rest[j] == pairs[j + 1]);
            }
        }
        lemma_lookup_index(rest, key);
        assert forall|i: int| 0 <= i < pairs.len() && pairs[i].0 == key implies lookup(pairs, key) == Some(pairs[i].1) by {
            if i > 0 {
                assert(rest[i - 1] == pairs[i]);
            }
        }
        if forall|i: int| 0 <= i < pairs.len() ==> pairs[i].0 != key {
            assert forall|i: int| 0 <= i < rest.len() implies rest[i].0 != key by {
                assert(rest[i] == pairs[i + 1]);
            }
        }
    }
}

/// The pairs after writing `value` under `key`: the pair of `key` takes the
/// new value in place, or a new pair is appended.
pub open spec fn set_pair(pairs: Seq<(Seq<char>, Seq<char>)>, key: Seq<char>, value: Seq<char>) -> Seq<(Seq<char>, Seq<char>)> {
    if exists|i: int| 0 <= i < pairs.len() && pairs[i].0 == key {
        pairs.update(choose|i: int| 0 <= i < pairs.len() && pairs[i].0 == key, (key, value))
    } else {
        pairs.push((key, value))
    }
}

/// The pairs after writing each of `writes` in order, from none.
pub open spec fn set_all(writes: Seq<(Seq<char>, Seq<char>)>) -> Seq<(Seq<char>, Seq<char>)>
    decreases writes.len(),
{
    if writes.len() == 0 {
        seq![]
    } else {
        set_pair(set_all(writes.drop_last()), writes.last().0, writes.last().1)
    }
}

impl ThemeOverrides {
    /// The overrides as (token, value) pairs.
    pub closed spec fn pairs(&self) -> Seq<(Seq<char>, Seq<char>)> {
        crate::i18n::table_view(self.entries@)
    }

    /// The value a token is overridden with.
    pub open spec fn value_of(&self, key: Seq<char>) -> Option<Seq<char>> {
        lookup(self.pairs(), key)
    }

    #[verifier::type_invariant]
    closed spec fn keys_once(&self) -> bool {
        distinct_keys(crate::i18n::table_view(self.entries@))
    }

    /// No overrides.
    pub fn new() -> (o: Self)
        ensures
            forall|k: Seq<char>| o.value_of(k) is None,
            o.pairs().len() == 0,
            o.pairs() == Seq::<(Seq<char>, Seq<char>)>::empty(),
    {
        let o = ThemeOverrides { entries: Vec::new() };
        assert(o.pairs() =~= seq![]);
        o
    }

    fn find(&self, key: &str) -> (r: Option<usize>)
        ensures
            match r {
                Some(i) => i < self.pairs().len() && self.pairs()[i as int].0 == key@,
                None => forall|i: int| 0 <= i < self.pairs().len() ==> self.pairs()[i].0 != key@,
            },
    {
        for i in 0..self.entries.len()
            invariant
                forall|j: int| 0 <= j < i ==> self.pairs()[j].0 != key@,
        {
            if str_eq(self.entries[i].0.as_str(), key) {
                return Some(i);
            }
        }
        None
    }

    /// The value a token is overridden with, if any.
    pub fn get(&self, key: &str) -> (r: Option<String>)
        ensures
            opt_view(r) == self.value_of(key@),
    {
        proof {
            use_type_invariant(self);
            lemma_lookup_index(self.pairs(), key@);
        }
        match self.find(key) {
            Some(i) => Some(self.entries[i].1.clone()),
            None => None,
        }
    }

    /// Override `key` with `value`; other tokens keep their values.
    pub fn set(&mut self, key: String, value: String)
        ensures
            final(self).value_of(key@) == Some(value@),
            forall|k: Seq<char>| k != key@ ==> final(self).value_of(k) == old(self).value_of(k),
            final(self).pairs() == set_pair(old(self).pairs(), key@, value@),
            distinct_keys(final(self).pairs()),
    {
        proof {
            use_type_invariant(&*self);
        }
        let ghost old_pairs = self.pairs();
        let found = self.find(key.as_str());
        let ghost kv = key@;
        let ghost vv = value@;
        let mut entries: Vec<(String, String)> = Vec::new();
        std::mem::swap(&mut entries, &mut self.entries);
        assert(crate::i18n::table_view(entries@) == old_pairs);
        let ghost mut at: int = 0;
        match found {
            Some(i) => {
                entries.set(i, (key, value));
                assert(crate::i18n::table_view(entries@) =~= old_pairs.update(i as int, (kv, vv)));
                proof {
                    let j = choose|j: int| 0 <= j < old_pairs.len() && old_pairs[j].0 == kv;
                    assert(j == i);
                }
                proof {
                    at = i as int;
                }
            },
            None => {
                entries.push((key, value));
                assert(crate::i18n::table_view(entries@) =~= old_pairs.push((kv, vv)));
                proof {
                    at = old_pairs.len() as int;
                }
            },
        }
        let ghost new_pairs = crate::i18n::table_view(entries@);
        assert(0 <= at < new_pairs.len() && new_pairs[at] == (kv, vv));
        assert(distinct_keys(new_pairs));
        self.entries = entries;
        proof {
            lemma_lookup_index(old_pairs, kv);
            lemma_lookup_index(new_pairs, kv);
            assert forall|k: Seq<char>| k != kv implies lookup(new_pairs, k) == lookup(old_pairs, k) by {
                lemma_lookup_index(old_pairs, k);
                lemma_lookup_index(new_pairs, k);
                if exists|j: int| 0 <= j < old_pairs.len() && old_pairs[j].0 == k {
                    let j = choose|j: int| 0 <= j < old_pairs.len() && old_pairs[j].0 == k;
                    assert(new_pairs[j] == old_pairs[j]);
                } else {
                    assert forall|j: int| 0 <= j < new_pairs.len() implies new_pairs[j].0 != k by {
                        if j < old_pairs.len() {
                            assert(new_pairs[j].0 == old_pairs[j].0 || new_pairs[j].0 == kv);
                        }
                    }
                }
            }
        }
    }

    /// Drop the override of `key`; other tokens keep their values.
    pub fn remove(&mut self, key: &str)
        ensures
            final(self).value_of(key@) is None,
            forall|k: Seq<char>| k != key@ ==> final(self).value_of(k) == old(self).value_of(k),
            distinct_keys(final(self).pairs()),
    {
        proof {
            use_type_invariant(&*self);
        }
        let ghost old_pairs = self.pairs();
        let ghost kv = key@;
        if let Some(i) = self.find(key) {
            let mut entries: Vec<(String, String)> = Vec::new();
        std::mem::swap(&mut entries, &mut self.entries);
            assert(crate::i18n::table_view(entries@) == old_pairs);
            entries.remove(i);
            let ghost new_pairs = crate::i18n::table_view(entries@);
            assert(new_pairs =~= old_pairs.remove(i as int));
            assert(distinct_keys(new_pairs)) by {
                assert forall|a: int, b: int| 0 <= a < b < new_pairs.len() implies new_pairs[a].0 != new_pairs[b].0 by {
                    let oa = if a < i { a } else { a + 1 };
                    let ob = if b < i { b } else { b + 1 };
                    assert(new_pairs[a] == old_pairs[oa] && new_pairs[b] == old_pairs[ob]);
                }
            }
            self.entries = entries;
            proof {
                lemma_lookup_index(old_pairs, kv);
                lemma_lookup_index(new_pairs, kv);
                assert forall|j: int| 0 <= j < new_pairs.len() implies new_pairs[j].0 != kv by {
                    let oj = if j < i { j } else { j + 1 };
                    assert(new_pairs[j] == old_pairs[oj]);
                }
                assert forall|k: Seq<char>| k != kv implies lookup(new_pairs, k) == lookup(old_pairs, k) by {
                    lemma_lookup_index(old_pairs, k);
                    lemma_lookup_index(new_pairs, k);
                    if exists|j: int| 0 <= j < old_pairs.len() && old_pairs[j].0 == k {
                        let j = choose|j: int| 0 <= j < old_pairs.len() && old_pairs[j].0 == k;
                        let nj = if j < i { j } else { j - 1 };
                        assert(j != i);
                        assert(new_pairs[nj] == old_pairs[j]);
                    } else {
                        assert forall|j: int| 0 <= j < new_pairs.len() implies new_pairs[j].0 != k by {
                            let oj = if j < i { j } else { j + 1 };
                            assert(new_pairs[j] == old_pairs[oj]);
                        }
                    }
                }
            }
        } else {
            proof {
                lemma_lookup_index(old_pairs, kv);
            }
        }
    }

    /// Drop every override.
    pub fn clear(&mut self)
        ensures
            forall|k: Seq<char>| final(self).value_of(k) is None,
            final(self).pairs().len() == 0,
            final(self).pairs() == Seq::<(Seq<char>, Seq<char>)>::empty(),
    {
        self.entries = Vec::new();
        assert(self.pairs() =~= seq![]);
    }

    /// The overrides, in the order they were first set.
    pub fn entries(&self) -> (r: &Vec<(String, String)>)
        ensures
            crate::i18n::table_view(r@) == self.pairs(),
    {
        &self.entries
    }

    /// Overrides read from stored pairs; a token given twice keeps its last
    /// value.
    pub fn from_pairs(pairs: Vec<(String, String)>) -> (o: Self)
        ensures
            forall|k: Seq<char>| o.value_of(k) == last_value(crate::i18n::table_view(pairs@), k),
            o.pairs() == set_all(crate::i18n::table_view(pairs@)),
            distinct_keys(o.pairs()),
    {
        let mut o = ThemeOverrides::new();
        let n = pairs.len();
        let ghost all = crate::i18n::table_view(pairs@);
        assert(all.take(0) =~= Seq::<(Seq<char>, Seq<char>)>::empty());
        for i in 0..n
            invariant
                n == pairs@.len(),
                all == crate::i18n::table_view(pairs@),
                forall|k: Seq<char>| o.value_of(k) == last_value(all.take(i as int), k),
                o.pairs() == set_all(all.take(i as int)),
                distinct_keys(o.pairs()),
        {
            let key = pairs[i].0.clone();
            let value = pairs[i].1.clone();
            let ghost before = all.take(i as int);
            assert(all.take(i + 1) =~= before.push(all[i as int]));
            assert(all[i as int] == (key@, value@));
            o.set(key, value);
            assert forall|k: Seq<char>| o.value_of(k) == last_value(all.take(i + 1), k) by {
                assert(all.take(i + 1).drop_last() =~= before);
            }
            assert(all.take(i + 1).drop_last() =~= before);
        }
        assert(all.take(n as int) =~= all);
        o
    }
}

/// The value the last pair with `key` gives, if any.
pub open spec fn last_value(pairs: Seq<(Seq<char>, Seq<char>)>, key: Seq<char>) -> Option<Seq<char>>
    decreases pairs.len(),
{
    if pairs.len() == 0 {
        None
    } else if pairs.last().0 == key {
        Some(pairs.last().1)
    } else {
        last_value(pairs.drop_last(), key)
    }
}


// ---------------------------------------------------------------------------
// Settings
// ---------------------------------------------------------------------------

/// The persistent settings that the services loop reads and changes (the
/// application stores them, with the volume and zoom, in `config.json`).
pub struct Settings {
    /// Deezer session cookie (secret, stored locally).
    pub arl: Option<String>,
    /// Cached API token derived from the ARL.
    pub api_token: Option<String>,
    pub username: Option<String>,
    pub theme_id: String,
    pub language: String,
    /// Clock display: "24h" | "12h".
    pub time_format: String,
    /// First-launch onboarding wizard completed.
    pub onboarding_done: bool,
    /// User color overrides on top of the active theme.
    pub theme_overrides: ThemeOverrides,
}

impl Settings {
    /// Language helper for the current settings.
    pub fn i18n(&self) -> (r: I18n)
        ensures
            r.language() == (if self.language@ == "fr"@ { Lang::Fr } else { Lang::En }),
            r.table() == crate::i18n::parse_table(crate::i18n::source_of(r.language())),
    {
        I18n::from_code(self.language.as_str())
    }
}

impl Default for Settings {
    /// No account, the dark theme, English, a 24-hour clock, onboarding to do
    /// and no overrides.
    fn default() -> (s: Self)
        ensures
            s.arl is None,
            s.api_token is None,
            s.username is None,
            s.theme_id@ == "breezer-dark"@,
            s.language@ == "en"@,
            s.time_format@ == "24h"@,
            !s.onboarding_done,
            forall|k: Seq<char>| s.theme_overrides.value_of(k) is None,
    {
        Settings {
            arl: None,
            api_token: None,
            username: None,
            theme_id: "breezer-dark".to_owned(),
            language: "en".to_owned(),
            time_format: crate::config::time_format_default(),
            onboarding_done: false,
            theme_overrides: ThemeOverrides::new(),
        }
    }
}

// ---------------------------------------------------------------------------
// The services loop
// ---------------------------------------------------------------------------

/// What the application does after a command.
pub enum Effect {
    /// Show a status message.
    Status(String),
    /// Switch the window to a view with a title.
    View { view: String, title: String },
    /// Fetch the user's playlists.
    FetchPlaylists,
    /// Show the dock layout's slots in the window.
    ShowLayout,
    /// Save the dock layout.
    SaveLayout,
    /// Tell the plugins the layout changed (with its JSON snapshot).
    NotifyLayout,
    /// Save the settings.
    SaveSettings,
    /// Rebuild the palette from the theme id and overrides and show it.
    ShowTheme,
    /// Tell the plugins the theme changed.
    NotifyTheme(String),
    /// Switch the window's language.
    ShowLanguage(String),
    /// Show the shuffle state.
    ShowShuffle(bool),
    /// Show the repeat mode (0 off, 1 all, 2 one).
    ShowRepeat(i32),
    /// Open the Deezer login page in the browser.
    OpenLoginPage,
    /// Validate this ARL against the gateway.
    Authenticate(String),
    /// Tell the plugins the auth state changed.
    NotifyAuth { logged_in: bool, username: String },
    /// Show the auth state (0 none, 1 expired, 2 connected) and user name.
    ShowAuth { state: i32, username: String },
    /// Show a failed login.
    AuthFailed(String),
    /// Hide the onboarding wizard.
    OnboardingDone,
    /// Download the encrypted stream of a track.
    FetchStream(u64),
    /// Play decrypted MP3 bytes.
    PlayAudio(Vec<u8>),
    /// Show whether the player is playing.
    ShowPlaying(bool),
    /// Show the track under the queue's cursor as the playing track.
    ShowQueuedTrack,
    /// Tell the plugins the playing track changed (the queue's current one).
    NotifyTrack,
    /// Show the track list the application holds (search, chart, playlist).
    ShowResults,
    /// Show the recently played shelf the application holds.
    ShowRecents,
    /// Play or pause the loaded stream.
    TogglePlayer,
    /// Show whether the player is playing, as the player reports it.
    ShowPlayerState,
    /// Show that an update is downloaded and ready to install.
    ShowUpdateReady(String),
    /// Show a text in the version area of the window.
    ShowVersionStatus(String),
    /// Restart the application (a new version is installed).
    Restart,
}

/// The cached title of playlist `id`, from `(id, title)` pairs (the first
/// entry with that id).
pub fn cached_title(cache: &Vec<(String, String)>, id: &str) -> (r: Option<String>)
    ensures
        opt_view(r) == lookup(crate::i18n::table_view(cache@), id@),
{
    crate::i18n::lookup_in(cache, id)
}

/// The position of the card with track `id` in a list of cards (by their
/// ids), the first one when several match.
pub fn card_position(ids: &[u64], id: u64) -> (r: Option<usize>)
    ensures
        match r {
            Some(i) => i < ids@.len() && ids@[i as int] == id && forall|j: int| 0 <= j < i ==> ids@[j] != id,
            None => forall|j: int| 0 <= j < ids@.len() ==> ids@[j] != id,
        },
{
    for i in 0..ids.len()
        invariant
            forall|j: int| 0 <= j < i ==> ids@[j] != id,
    {
        if ids[i] == id {
            return Some(i);
        }
    }
    None
}

/// The Blowfish key of a track's stream: derived from its decimal id.
pub open spec fn track_stream_key(track_id: u64) -> Seq<u8> {
    blowfish_key_for(vstd::utf8::encode_utf8(crate::media::decimal(track_id as nat)))
}

/// Whether an effect shows this status text.
pub open spec fn is_status(e: Effect, text: Seq<char>) -> bool {
    e matches Effect::Status(m) && m@ == text
}

/// The title of a view: its navigation label, or the view's own name.
pub open spec fn view_title(i18n: I18n, view: Seq<char>) -> Seq<char> {
    if view == "home"@ {
        i18n.translate("nav.home"@)
    } else if view == "explore"@ {
        i18n.translate("nav.explore"@)
    } else if view == "favorites"@ {
        i18n.translate("nav.favorites"@)
    } else if view == "playlists"@ {
        i18n.translate("nav.playlists"@)
    } else if view == "settings"@ {
        i18n.translate("nav.settings"@)
    } else {
        view
    }
}

/// What `str::to_uppercase` returns for a text (Unicode upper-case mapping).
pub uninterp spec fn to_uppercase(s: Seq<char>) -> Seq<char>;

/// `str::to_uppercase` (std).
#[verifier::external_body]
fn uppercase(s: &str) -> (r: String)
    ensures
        r@ == to_uppercase(s@),
{
    s.to_uppercase()
}

/// The state of the services loop besides the network clients and the
/// player: settings, dock layout, player modes and translations.
pub struct Services {
    pub settings: Settings,
    pub layout: LayoutProfile,
    pub shuffle_on: bool,
    pub repeat: RepeatMode,
    pub i18n: I18n,
}

/// Everything but the dock layout is as before.
pub open spec fn only_layout_changed(before: Services, after: Services) -> bool {
    &&& after.settings == before.settings
    &&& after.shuffle_on == before.shuffle_on
    &&& after.repeat == before.repeat
    &&& after.i18n == before.i18n
}

/// Layout, player modes and translations are as before.
pub open spec fn only_settings_changed(before: Services, after: Services) -> bool {
    &&& after.layout == before.layout
    &&& after.shuffle_on == before.shuffle_on
    &&& after.repeat == before.repeat
    &&& after.i18n == before.i18n
}

/// One `(name, value)` argument of a message.
fn arg1<'a>(name: &'a str, value: &'a str) -> (r: Vec<(&'a str, &'a str)>)
    ensures
        args_view(r@) == seq![(name@, value@)],
{
    let mut v: Vec<(&'a str, &'a str)> = Vec::new();
    v.push((name, value));
    assert(args_view(v@) =~= seq![(name@, value@)]);
    v
}

impl Services {
    /// The loop's state at start-up: shuffle off, repeat off, translations of
    /// the configured language.
    pub fn new(settings: Settings, layout: LayoutProfile) -> (s: Self)
        ensures
            s.settings == settings,
            s.layout == layout,
            !s.shuffle_on,
            s.repeat == RepeatMode::Off,
            s.i18n.language() == (if settings.language@ == "fr"@ { Lang::Fr } else { Lang::En }),
    {
        let i18n = settings.i18n();
        Services { settings, layout, shuffle_on: false, repeat: RepeatMode::Off, i18n }
    }

    /// Open a view; entering the playlists view fetches the playlists when
    /// none are cached and the user is signed in.
    pub fn view(&self, view: &str, playlists_cached: bool, signed_in: bool) -> (effects: Vec<Effect>)
        ensures
            effects@.len() >= 1,
            effects@[0] matches Effect::View { view: v, title: t } && v@ == view@ && t@ == view_title(
                self.i18n,
                view@,
            ),
            effects@.len() == (if view@ == "playlists"@ && !playlists_cached && signed_in { 2int } else { 1int }),
            effects@.len() == 2 ==> effects@[1] is FetchPlaylists,
    {
        let title = if str_eq(view, "home") {
            self.i18n.t("nav.home")
        } else if str_eq(view, "explore") {
            self.i18n.t("nav.explore")
        } else if str_eq(view, "favorites") {
            self.i18n.t("nav.favorites")
        } else if str_eq(view, "playlists") {
            self.i18n.t("nav.playlists")
        } else if str_eq(view, "settings") {
            self.i18n.t("nav.settings")
        } else {
            view.to_owned()
        };
        let mut effects: Vec<Effect> = Vec::new();
        effects.push(Effect::View { view: view.to_owned(), title });
        if str_eq(view, "playlists") && !playlists_cached && signed_in {
            effects.push(Effect::FetchPlaylists);
        }
        effects
    }

    /// Drag & drop of a panel onto a slot: the layout is saved, the plugins
    /// told and the window updated.
    pub fn dock(&mut self, panel: &str, target: &str) -> (effects: Vec<Effect>)
        ensures
            (final(self).layout.left@, final(self).layout.right@) == crate::config::docked(
                old(self).layout.left@,
                old(self).layout.right@,
                panel@,
                target@,
            ),
            final(self).layout.bottom == old(self).layout.bottom,
            final(self).layout.density == old(self).layout.density,
            only_layout_changed(*old(self), *final(self)),
            effects@.len() == 3,
            effects@[0] is SaveLayout,
            effects@[1] is NotifyLayout,
            effects@[2] is ShowLayout,
    {
        self.layout.set_panel(panel, target);
        layout_changed()
    }

    /// Toggle the queue panel: the layout is saved, the plugins told and the
    /// window updated.
    pub fn toggle_right(&mut self) -> (effects: Vec<Effect>)
        ensures
            final(self).layout.bottom == old(self).layout.bottom,
            if old(self).layout.right@ == "queue"@ {
                final(self).layout.right@ == Seq::<char>::empty() && final(self).layout.left == old(self).layout.left
            } else if old(self).layout.left@ == "queue"@ {
                final(self).layout.left@ == Seq::<char>::empty() && final(self).layout.right == old(self).layout.right
            } else {
                final(self).layout.right@ == "queue"@ && final(self).layout.left == old(self).layout.left
            },
            final(self).layout.density == old(self).layout.density,
            only_layout_changed(*old(self), *final(self)),
            effects@.len() == 3,
            effects@[0] is SaveLayout,
            effects@[1] is NotifyLayout,
            effects@[2] is ShowLayout,
    {
        self.layout.toggle_queue();
        layout_changed()
    }

    /// Reset the layout: saved, plugins told, window updated.
    pub fn reset_layout(&mut self) -> (effects: Vec<Effect>)
        ensures
            final(self).layout.is_default_layout(),
            only_layout_changed(*old(self), *final(self)),
            effects@.len() == 3,
            effects@[0] is SaveLayout,
            effects@[1] is NotifyLayout,
            effects@[2] is ShowLayout,
    {
        self.layout.reset();
        layout_changed()
    }

    /// Save the layout on request, and say so.
    pub fn save_layout(&self) -> (effects: Vec<Effect>)
        ensures
            effects@.len() == 2,
            effects@[0] is SaveLayout,
            is_status(effects@[1], self.i18n.translate("layout.saved"@)),
    {
        let mut effects: Vec<Effect> = Vec::new();
        effects.push(Effect::SaveLayout);
        effects.push(Effect::Status(self.i18n.t("layout.saved")));
        effects
    }

    /// Switch to another theme: saved, plugins told, palette shown.
    pub fn theme(&mut self, id: String) -> (effects: Vec<Effect>)
        ensures
            final(self).settings == (Settings { theme_id: id, ..old(self).settings }),
            only_settings_changed(*old(self), *final(self)),
            effects@.len() == 3,
            effects@[0] is SaveSettings,
            effects@[1] matches Effect::NotifyTheme(t) && t@ == id@,
            effects@[2] is ShowTheme,
    {
        let notified = id.clone();
        self.settings.theme_id = id;
        let mut effects: Vec<Effect> = Vec::new();
        effects.push(Effect::SaveSettings);
        effects.push(Effect::NotifyTheme(notified));
        effects.push(Effect::ShowTheme);
        effects
    }

    /// Override a palette token from the theme editor: unknown tokens are
    /// ignored; a blank value drops the override, any other value sets it.
    pub fn theme_override(&mut self, token: String, value: String) -> (effects: Vec<Effect>)
        ensures
            !is_editable_token(token@) ==> effects@.len() == 0 && final(self).settings.theme_overrides
                == old(self).settings.theme_overrides,
            is_editable_token(token@) ==> {
                &&& final(self).settings.theme_overrides.value_of(token@) == (if trim(value@).len() == 0 {
                    None
                } else {
                    Some(value@)
                })
                &&& forall|k: Seq<char>| k != token@ ==> final(self).settings.theme_overrides.value_of(k)
                    == old(self).settings.theme_overrides.value_of(k)
                &&& effects@.len() == 2
                &&& effects@[0] is SaveSettings
                &&& effects@[1] is ShowTheme
            },
            final(self).settings == (Settings {
                theme_overrides: final(self).settings.theme_overrides,
                ..old(self).settings
            }),
            only_settings_changed(*old(self), *final(self)),
    {
        let mut effects: Vec<Effect> = Vec::new();
        if !editable_token(token.as_str()) {
            return effects;
        }
        let chars = chars_of(value.as_str());
        let trimmed = trim_chars(chars.as_slice());
        if trimmed.len() == 0 {
            self.settings.theme_overrides.remove(token.as_str());
        } else {
            self.settings.theme_overrides.set(token, value);
        }
        effects.push(Effect::SaveSettings);
        effects.push(Effect::ShowTheme);
        effects
    }

    /// Drop every override: saved, palette shown.
    pub fn reset_theme_overrides(&mut self) -> (effects: Vec<Effect>)
        ensures
            forall|k: Seq<char>| final(self).settings.theme_overrides.value_of(k) is None,
            final(self).settings == (Settings {
                theme_overrides: final(self).settings.theme_overrides,
                ..old(self).settings
            }),
            only_settings_changed(*old(self), *final(self)),
            effects@.len() == 2,
            effects@[0] is SaveSettings,
            effects@[1] is ShowTheme,
    {
        self.settings.theme_overrides.clear();
        let mut effects: Vec<Effect> = Vec::new();
        effects.push(Effect::SaveSettings);
        effects.push(Effect::ShowTheme);
        effects
    }

    /// Switch the language: saved, window switched, and a confirmation in the
    /// new language naming the code in upper case.
    pub fn language(&mut self, code: String) -> (effects: Vec<Effect>)
        ensures
            final(self).settings == (Settings { language: code, ..old(self).settings }),
            final(self).i18n.language() == (if code@ == "fr"@ { Lang::Fr } else { Lang::En }),
            final(self).i18n.table() == crate::i18n::parse_table(crate::i18n::source_of(final(self).i18n.language())),
            final(self).layout == old(self).layout,
            final(self).shuffle_on == old(self).shuffle_on,
            final(self).repeat == old(self).repeat,
            effects@.len() == 3,
            effects@[0] is SaveSettings,
            effects@[1] matches Effect::ShowLanguage(c) && c@ == code@,
            is_status(
                effects@[2],
                substitute(final(self).i18n.translate("language.applied"@), seq![("language"@, to_uppercase(code@))]),
            ),
    {
        let shown = code.clone();
        self.i18n = I18n::from_code(code.as_str());
        let upper = uppercase(code.as_str());
        let args = arg1("language", upper.as_str());
        let msg = self.i18n.t_args("language.applied", args.as_slice());
        self.settings.language = code;
        let mut effects: Vec<Effect> = Vec::new();
        effects.push(Effect::SaveSettings);
        effects.push(Effect::ShowLanguage(shown));
        effects.push(Effect::Status(msg));
        effects
    }

    /// The theme editor is not a dialog yet: say the theme is applied.
    pub fn open_theme_editor(&self) -> (effects: Vec<Effect>)
        ensures
            effects@.len() == 1,
            is_status(effects@[0], self.i18n.translate("theme.applied"@)),
    {
        let mut effects: Vec<Effect> = Vec::new();
        effects.push(Effect::Status(self.i18n.t("theme.applied")));
        effects
    }

    /// Finish the onboarding: only once connected (login is mandatory);
    /// otherwise open the login page and ask to connect first.
    pub fn finish_onboarding(&mut self) -> (effects: Vec<Effect>)
        ensures
            old(self).settings.arl is Some ==> final(self).settings.onboarding_done && effects@.len() == 2
                && effects@[0] is SaveSettings && effects@[1] is OnboardingDone,
            old(self).settings.arl is None ==> final(self).settings.onboarding_done
                == old(self).settings.onboarding_done && effects@.len() == 2 && effects@[0] is OpenLoginPage
                && is_status(effects@[1], old(self).i18n.translate("auth.connect.first"@)),
            final(self).settings == (Settings {
                onboarding_done: final(self).settings.onboarding_done,
                ..old(self).settings
            }),
            only_settings_changed(*old(self), *final(self)),
    {
        let mut effects: Vec<Effect> = Vec::new();
        if self.settings.arl.is_some() {
            self.settings.onboarding_done = true;
            effects.push(Effect::SaveSettings);
            effects.push(Effect::OnboardingDone);
        } else {
            effects.push(Effect::OpenLoginPage);
            effects.push(Effect::Status(self.i18n.t("auth.connect.first")));
        }
        effects
    }

    /// Choose the clock format: only `24h` and `12h` are accepted (and saved).
    pub fn time_format(&mut self, fmt: String) -> (effects: Vec<Effect>)
        ensures
            (fmt@ == "24h"@ || fmt@ == "12h"@) ==> final(self).settings == (Settings {
                time_format: fmt,
                ..old(self).settings
            }) && effects@.len() == 1 && effects@[0] is SaveSettings,
            !(fmt@ == "24h"@ || fmt@ == "12h"@) ==> final(self).settings == old(self).settings && effects@.len()
                == 0,
            only_settings_changed(*old(self), *final(self)),
    {
        let mut effects: Vec<Effect> = Vec::new();
        if str_eq(fmt.as_str(), "24h") || str_eq(fmt.as_str(), "12h") {
            self.settings.time_format = fmt;
            effects.push(Effect::SaveSettings);
        }
        effects
    }

    /// Toggle shuffle.
    pub fn shuffle(&mut self) -> (effects: Vec<Effect>)
        ensures
            final(self).shuffle_on == !old(self).shuffle_on,
            final(self).repeat == old(self).repeat,
            final(self).settings == old(self).settings,
            final(self).layout == old(self).layout,
            final(self).i18n == old(self).i18n,
            effects@.len() == 1,
            effects@[0] matches Effect::ShowShuffle(b) && b == final(self).shuffle_on,
    {
        self.shuffle_on = !self.shuffle_on;
        let mut effects: Vec<Effect> = Vec::new();
        effects.push(Effect::ShowShuffle(self.shuffle_on));
        effects
    }

    /// Cycle the repeat mode (off -> all -> one -> off).
    pub fn repeat(&mut self) -> (effects: Vec<Effect>)
        ensures
            final(self).repeat == (match old(self).repeat {
                RepeatMode::Off => RepeatMode::All,
                RepeatMode::All => RepeatMode::One,
                RepeatMode::One => RepeatMode::Off,
            }),
            final(self).shuffle_on == old(self).shuffle_on,
            final(self).settings == old(self).settings,
            final(self).layout == old(self).layout,
            final(self).i18n == old(self).i18n,
            effects@.len() == 1,
            effects@[0] matches Effect::ShowRepeat(n) && n == (match final(self).repeat {
                RepeatMode::Off => 0i32,
                RepeatMode::All => 1i32,
                RepeatMode::One => 2i32,
            }),
    {
        self.repeat = self.repeat.cycle();
        let mut effects: Vec<Effect> = Vec::new();
        effects.push(Effect::ShowRepeat(self.repeat.as_i32()));
        effects
    }

    /// The Connect button: a blank ARL opens the login page and asks to paste
    /// one; otherwise the ARL goes to the gateway.
    pub fn connect(&self, arl: String) -> (effects: Vec<Effect>)
        ensures
            trim(arl@).len() == 0 ==> effects@.len() == 2 && effects@[0] is OpenLoginPage && is_status(
                effects@[1],
                self.i18n.translate("auth.paste.arl"@),
            ),
            trim(arl@).len() != 0 ==> effects@.len() == 2 && is_status(
                effects@[0],
                self.i18n.translate("auth.connecting"@),
            ) && (effects@[1] matches Effect::Authenticate(a) && a@ == arl@),
    {
        let chars = chars_of(arl.as_str());
        let trimmed = trim_chars(chars.as_slice());
        let mut effects: Vec<Effect> = Vec::new();
        if trimmed.len() == 0 {
            effects.push(Effect::OpenLoginPage);
            effects.push(Effect::Status(self.i18n.t("auth.paste.arl")));
        } else {
            effects.push(Effect::Status(self.i18n.t("auth.connecting")));
            effects.push(Effect::Authenticate(arl));
        }
        effects
    }

    /// A login succeeded: the credentials are saved, the plugins told, the
    /// window shows the user, and a first login completes the onboarding.
    pub fn login_succeeded(&mut self, arl: String, session: &AuthSession) -> (effects: Vec<Effect>)
        ensures
            opt_view(final(self).settings.arl) == Some(arl@),
            opt_view(final(self).settings.api_token) == Some(session.api_token@),
            opt_view(final(self).settings.username) == Some(session.username@),
            final(self).settings.onboarding_done,
            final(self).settings == (Settings {
                arl: final(self).settings.arl,
                api_token: final(self).settings.api_token,
                username: final(self).settings.username,
                onboarding_done: true,
                ..old(self).settings
            }),
            only_settings_changed(*old(self), *final(self)),
            effects@.len() == (if old(self).settings.onboarding_done { 4int } else { 6int }),
            effects@[0] is SaveSettings,
            effects@[1] matches Effect::NotifyAuth { logged_in, username } && logged_in && username@
                == session.username@,
            effects@[2] matches Effect::ShowAuth { state, username } && state == 2 && username@
                == session.username@,
            is_status(
                effects@[3],
                substitute(old(self).i18n.translate("auth.success"@), seq![("username"@, session.username@)]),
            ),
            !old(self).settings.onboarding_done ==> effects@[4] is SaveSettings && effects@[5] is OnboardingDone,
    {
        self.settings.arl = Some(arl);
        self.settings.api_token = Some(session.api_token.clone());
        self.settings.username = Some(session.username.clone());
        let mut effects: Vec<Effect> = Vec::new();
        effects.push(Effect::SaveSettings);
        effects.push(Effect::NotifyAuth { logged_in: true, username: session.username.clone() });
        effects.push(Effect::ShowAuth { state: 2, username: session.username.clone() });
        let args = arg1("username", session.username.as_str());
        effects.push(Effect::Status(self.i18n.t_args("auth.success", args.as_slice())));
        if !self.settings.onboarding_done {
            self.settings.onboarding_done = true;
            effects.push(Effect::SaveSettings);
            effects.push(Effect::OnboardingDone);
        }
        effects
    }

    /// A login failed.
    pub fn login_failed(&self) -> (effects: Vec<Effect>)
        ensures
            effects@.len() == 1,
            effects@[0] matches Effect::AuthFailed(m) && m@ == self.i18n.translate("auth.failed"@),
    {
        let mut effects: Vec<Effect> = Vec::new();
        effects.push(Effect::AuthFailed(self.i18n.t("auth.failed")));
        effects
    }

    /// The stored ARL was valid at start-up: the onboarding is done and the
    /// window shows the user.
    pub fn session_restored(&mut self, username: String) -> (effects: Vec<Effect>)
        ensures
            final(self).settings == (Settings { onboarding_done: true, ..old(self).settings }),
            only_settings_changed(*old(self), *final(self)),
            effects@.len() == (if old(self).settings.onboarding_done { 2int } else { 3int }),
            !old(self).settings.onboarding_done ==> effects@[0] is SaveSettings,
            effects@[effects@.len() - 2] is OnboardingDone,
            effects@[effects@.len() - 1] matches Effect::ShowAuth { state, username: u } && state == 2 && u@
                == username@,
    {
        let mut effects: Vec<Effect> = Vec::new();
        if !self.settings.onboarding_done {
            self.settings.onboarding_done = true;
            effects.push(Effect::SaveSettings);
        }
        effects.push(Effect::OnboardingDone);
        effects.push(Effect::ShowAuth { state: 2, username });
        effects
    }

    /// The stored ARL is no longer valid.
    pub fn session_expired(&self) -> (effects: Vec<Effect>)
        ensures
            effects@.len() == 1,
            effects@[0] matches Effect::ShowAuth { state, username } && state == 1 && username@.len() == 0,
    {
        let mut effects: Vec<Effect> = Vec::new();
        effects.push(Effect::ShowAuth { state: 1, username: String::new() });
        effects
    }

    /// Search results arrived: the count (or "no results") is shown, and
    /// results open the explore view.
    pub fn search_finished(&self, query: &str, count: u64) -> (effects: Vec<Effect>)
        ensures
            count == 0 ==> effects@.len() == 1 && is_status(effects@[0], self.i18n.translate("search.empty"@)),
            count > 0 ==> effects@.len() == 2 && is_status(
                effects@[0],
                substitute(
                    self.i18n.translate("search.results"@),
                    seq![("count"@, crate::media::decimal(count as nat)), ("query"@, query@)],
                ),
            ) && (effects@[1] matches Effect::View { view: v, title: t } && v@ == "explore"@ && t@
                == self.i18n.translate("nav.explore"@)),
    {
        let mut effects: Vec<Effect> = Vec::new();
        if count == 0 {
            effects.push(Effect::Status(self.i18n.t("search.empty")));
        } else {
            let mut digits: Vec<char> = Vec::new();
            crate::media::push_decimal(&mut digits, count);
            assert(digits@ =~= crate::media::decimal(count as nat));
            let number = crate::text::string_from_chars(digits.as_slice());
            let mut args: Vec<(&str, &str)> = Vec::new();
            args.push(("count", number.as_str()));
            args.push(("query", query));
            assert(args_view(args@) =~= seq![("count"@, crate::media::decimal(count as nat)), ("query"@, query@)]);
            effects.push(Effect::Status(self.i18n.t_args("search.results", args.as_slice())));
            effects.push(Effect::View { view: "explore".to_owned(), title: self.i18n.t("nav.explore") });
        }
        effects
    }

    /// A search failed: its error is shown.
    pub fn search_failed(&self, error: &str) -> (effects: Vec<Effect>)
        ensures
            effects@.len() == 1,
            is_status(effects@[0], substitute(self.i18n.translate("search.error"@), seq![("error"@, error@)])),
    {
        let args = arg1("error", error);
        let mut effects: Vec<Effect> = Vec::new();
        effects.push(Effect::Status(self.i18n.t_args("search.error", args.as_slice())));
        effects
    }
}

impl Services {
    /// A track was queued at the cursor to be played: it is shown and the
    /// plugins told; it streams when an account is connected, otherwise the
    /// user is asked to connect.
    pub fn play_queued(&self, signed_in: bool, has_device: bool, track_id: u64) -> (effects: Vec<Effect>)
        ensures
            effects@.len() >= 3,
            effects@[0] is ShowQueuedTrack,
            effects@[1] is NotifyTrack,
            !signed_in ==> effects@.len() == 3 && is_status(
                effects@[2],
                self.i18n.translate("player.auth.required"@),
            ),
            signed_in && !has_device ==> effects@.len() == 3 && is_status(
                effects@[2],
                self.i18n.translate("player.no.device"@),
            ),
            signed_in && has_device ==> effects@.len() == 4 && is_status(
                effects@[2],
                self.i18n.translate("player.streaming"@),
            ) && (effects@[3] matches Effect::FetchStream(id) && id == track_id),
    {
        let mut effects: Vec<Effect> = Vec::new();
        effects.push(Effect::ShowQueuedTrack);
        effects.push(Effect::NotifyTrack);
        if !signed_in {
            effects.push(Effect::Status(self.i18n.t("player.auth.required")));
        } else {
            let mut more = self.start_streaming(has_device, track_id);
            effects.append(&mut more);
        }
        effects
    }

    /// A search starts: say so.
    pub fn search_started(&self) -> (effects: Vec<Effect>)
        ensures
            effects@.len() == 1,
            is_status(effects@[0], self.i18n.translate("search.loading"@)),
    {
        let mut effects: Vec<Effect> = Vec::new();
        effects.push(Effect::Status(self.i18n.t("search.loading")));
        effects
    }

    /// Fetching the user's playlists failed with `error`.
    pub fn playlists_failed(&self, error: &str) -> (effects: Vec<Effect>)
        ensures
            effects@.len() == 1,
            is_status(effects@[0], substitute(self.i18n.translate("playlists.error"@), seq![("error"@, error@)])),
    {
        let args = arg1("error", error);
        let mut effects: Vec<Effect> = Vec::new();
        effects.push(Effect::Status(self.i18n.t_args("playlists.error", args.as_slice())));
        effects
    }

    /// The tracks of a selected playlist arrived (`count` of them): the
    /// playlist view opens under the playlist's cached title (the playlists
    /// label when it is not cached), the tracks are shown and counted.
    pub fn playlist_opened(&self, cached_title: Option<String>, count: u64) -> (effects: Vec<Effect>)
        ensures
            effects@.len() == 3,
            effects@[0] matches Effect::View { view: v, title: t } && v@ == "playlist-detail"@ && t@ == (
            match cached_title {
                Some(c) => c@,
                None => self.i18n.translate("nav.playlists"@),
            }),
            effects@[1] is ShowResults,
            is_status(
                effects@[2],
                substitute(
                    self.i18n.translate("playlist.tracks"@),
                    seq![("count"@, crate::media::decimal(count as nat))],
                ),
            ),
    {
        let title = match cached_title {
            Some(c) => c,
            None => self.i18n.t("nav.playlists"),
        };
        let mut digits: Vec<char> = Vec::new();
        crate::media::push_decimal(&mut digits, count);
        assert(digits@ =~= crate::media::decimal(count as nat));
        let number = crate::text::string_from_chars(digits.as_slice());
        let args = arg1("count", number.as_str());
        let mut effects: Vec<Effect> = Vec::new();
        effects.push(Effect::View { view: "playlist-detail".to_owned(), title });
        effects.push(Effect::ShowResults);
        effects.push(Effect::Status(self.i18n.t_args("playlist.tracks", args.as_slice())));
        effects
    }

    /// The tracks of a selected playlist could not be fetched.
    pub fn playlist_failed(&self, error: &str) -> (effects: Vec<Effect>)
        ensures
            effects@.len() == 1,
            is_status(
                effects@[0],
                substitute(self.i18n.translate("playlist.tracks.error"@), seq![("error"@, error@)]),
            ),
    {
        let args = arg1("error", error);
        let mut effects: Vec<Effect> = Vec::new();
        effects.push(Effect::Status(self.i18n.t_args("playlist.tracks.error", args.as_slice())));
        effects
    }

    /// The play/pause button: with nothing loaded, the queue's current track
    /// (if any) is streamed; otherwise the player toggles. The player's state
    /// is shown either way.
    pub fn toggle(&self, loaded: bool, current: Option<u64>, has_device: bool) -> (effects: Vec<Effect>)
        ensures
            effects@.len() >= 1,
            effects@.last() is ShowPlayerState,
            loaded ==> effects@.len() == 2 && effects@[0] is TogglePlayer,
            !loaded && current is None ==> effects@.len() == 1,
            !loaded && !has_device && current is Some ==> effects@.len() == 2 && is_status(
                effects@[0],
                self.i18n.translate("player.no.device"@),
            ),
            !loaded && has_device && current is Some ==> effects@.len() == 3 && is_status(
                effects@[0],
                self.i18n.translate("player.streaming"@),
            ) && (effects@[1] matches Effect::FetchStream(id) && current == Some(id)),
    {
        let mut effects: Vec<Effect> = Vec::new();
        if loaded {
            effects.push(Effect::TogglePlayer);
        } else {
            match current {
                Some(id) => {
                    let mut more = self.start_streaming(has_device, id);
                    effects.append(&mut more);
                },
                None => {},
            }
        }
        effects.push(Effect::ShowPlayerState);
        effects
    }

    /// The outcome of installing a downloaded update: installed (ready, then
    /// restart), nothing to install, or the error.
    pub fn update_installed(&self, outcome: Result<bool, String>) -> (effects: Vec<Effect>)
        ensures
            outcome == Ok::<bool, String>(true) ==> effects@.len() == 2 && is_status(
                effects@[0],
                self.i18n.translate("update.ready"@),
            ) && effects@[1] is Restart,
            outcome == Ok::<bool, String>(false) ==> effects@.len() == 1 && is_status(
                effects@[0],
                self.i18n.translate("update.none"@),
            ),
            outcome matches Err(e) ==> effects@.len() == 1 && is_status(
                effects@[0],
                substitute(self.i18n.translate("update.install.failed"@), seq![("error"@, e@)]),
            ),
    {
        let mut effects: Vec<Effect> = Vec::new();
        match outcome {
            Ok(true) => {
                effects.push(Effect::Status(self.i18n.t("update.ready")));
                effects.push(Effect::Restart);
            },
            Ok(false) => effects.push(Effect::Status(self.i18n.t("update.none"))),
            Err(e) => {
                let args = arg1("error", e.as_str());
                effects.push(Effect::Status(self.i18n.t_args("update.install.failed", args.as_slice())));
            },
        }
        effects
    }

    /// No newer release: say the application is up to date.
    pub fn update_none(&self) -> (effects: Vec<Effect>)
        ensures
            effects@.len() == 1,
            effects@[0] matches Effect::ShowVersionStatus(m) && m@ == self.i18n.translate("update.none"@),
    {
        let mut effects: Vec<Effect> = Vec::new();
        effects.push(Effect::ShowVersionStatus(self.i18n.t("update.none")));
        effects
    }

    /// A newer release (`version`, as `major.minor.patch`) was found and its
    /// download attempted: ready to install (with the downloaded version),
    /// no build for this platform (the release is announced), or the error.
    pub fn update_prepared(&self, version: &str, prepared: Result<Option<String>, String>) -> (effects: Vec<Effect>)
        ensures
            effects@.len() == 1,
            prepared matches Ok(Some(v)) ==> (effects@[0] matches Effect::ShowUpdateReady(r) && r@ == v@),
            prepared matches Ok(None) ==> (effects@[0] matches Effect::ShowVersionStatus(m) && m@ == substitute(
                self.i18n.translate("update.available"@),
                seq![("version"@, seq!['v'] + version@)],
            )),
            prepared matches Err(e) ==> is_status(
                effects@[0],
                substitute(self.i18n.translate("update.download.failed"@), seq![("error"@, e@)]),
            ),
    {
        let mut effects: Vec<Effect> = Vec::new();
        match prepared {
            Ok(Some(v)) => effects.push(Effect::ShowUpdateReady(v)),
            Ok(None) => {
                let shown = crate::text::concat2("v", version);
                proof {
                    reveal_strlit("v");
                    assert("v"@ =~= seq!['v']);
                }
                assert(shown@ == seq!['v'] + version@);
                let args = arg1("version", shown.as_str());
                effects.push(Effect::ShowVersionStatus(self.i18n.t_args("update.available", args.as_slice())));
            },
            Err(e) => {
                let args = arg1("error", e.as_str());
                effects.push(Effect::Status(self.i18n.t_args("update.download.failed", args.as_slice())));
            },
        }
        effects
    }

    /// The chart tracks seeded the home page: they are shown and the status
    /// is cleared.
    pub fn chart_loaded(&self) -> (effects: Vec<Effect>)
        ensures
            effects@.len() == 2,
            effects@[0] is ShowResults,
            is_status(effects@[1], Seq::<char>::empty()),
    {
        let mut effects: Vec<Effect> = Vec::new();
        effects.push(Effect::ShowResults);
        effects.push(Effect::Status(String::new()));
        effects
    }

    /// The listening history arrived (`count` tracks): the shelf is shown
    /// when it is not empty.
    pub fn recents_loaded(&self, count: u64) -> (effects: Vec<Effect>)
        ensures
            count == 0 ==> effects@.len() == 0,
            count > 0 ==> effects@.len() == 1 && effects@[0] is ShowRecents,
    {
        let mut effects: Vec<Effect> = Vec::new();
        if count > 0 {
            effects.push(Effect::ShowRecents);
        }
        effects
    }

    /// The queue moved (a step back, a step forward or an automatic advance):
    /// the track it landed on is shown and streamed; at the end of the queue
    /// (no track) the player shows it stopped.
    pub fn play_moved(&self, track_id: Option<u64>, has_device: bool) -> (effects: Vec<Effect>)
        ensures
            track_id is None ==> effects@.len() == 1 && (effects@[0] matches Effect::ShowPlaying(p) && !p),
            track_id matches Some(id) ==> effects@.len() >= 2 && effects@[0] is ShowQueuedTrack && (!has_device
                ==> effects@.len() == 2 && is_status(effects@[1], self.i18n.translate("player.no.device"@)))
                && (has_device ==> effects@.len() == 3 && is_status(
                effects@[1],
                self.i18n.translate("player.streaming"@),
            ) && (effects@[2] matches Effect::FetchStream(f) && f == id)),
    {
        let mut effects: Vec<Effect> = Vec::new();
        match track_id {
            None => effects.push(Effect::ShowPlaying(false)),
            Some(id) => {
                effects.push(Effect::ShowQueuedTrack);
                let mut more = self.start_streaming(has_device, id);
                effects.append(&mut more);
            },
        }
        effects
    }

    /// Start streaming a track: without an audio device, say so; otherwise
    /// say the stream is loading and download it.
    pub fn start_streaming(&self, has_device: bool, track_id: u64) -> (effects: Vec<Effect>)
        ensures
            !has_device ==> effects@.len() == 1 && is_status(effects@[0], self.i18n.translate("player.no.device"@)),
            has_device ==> effects@.len() == 2 && is_status(effects@[0], self.i18n.translate("player.streaming"@))
                && (effects@[1] matches Effect::FetchStream(id) && id == track_id),
    {
        let mut effects: Vec<Effect> = Vec::new();
        if !has_device {
            effects.push(Effect::Status(self.i18n.t("player.no.device")));
        } else {
            effects.push(Effect::Status(self.i18n.t("player.streaming")));
            effects.push(Effect::FetchStream(track_id));
        }
        effects
    }

    /// The encrypted stream of a track arrived, or its download failed with
    /// `error`: a failure is shown; the bytes are decrypted (the track id's
    /// Blowfish key, every third chunk) and played.
    pub fn stream_fetched(&self, track_id: u64, fetched: Result<Vec<u8>, String>) -> (effects: Vec<Effect>)
        ensures
            effects@.len() == 1,
            fetched matches Err(e) ==> is_status(
                effects@[0],
                substitute(self.i18n.translate("player.stream.error"@), seq![("error"@, e@)]),
            ),
            fetched matches Ok(bytes) ==> (effects@[0] matches Effect::PlayAudio(audio) && audio@
                == decrypt_stream(track_stream_key(track_id), bytes@, 0)),
    {
        let mut effects: Vec<Effect> = Vec::new();
        match fetched {
            Err(e) => {
                let args = arg1("error", e.as_str());
                effects.push(Effect::Status(self.i18n.t_args("player.stream.error", args.as_slice())));
            },
            Ok(bytes) => {
                let mut digits: Vec<char> = Vec::new();
                crate::media::push_decimal(&mut digits, track_id);
                assert(digits@ =~= crate::media::decimal(track_id as nat));
                let id_text = crate::text::string_from_chars(digits.as_slice());
                match decrypt_audio_stream(id_text.as_str(), bytes.as_slice()) {
                    Ok(audio) => effects.push(Effect::PlayAudio(audio)),
                    Err(e) => {
                        let msg = e.message();
                        let args = arg1("error", msg.as_str());
                        effects.push(Effect::Status(self.i18n.t_args("player.stream.error", args.as_slice())));
                    },
                }
            },
        }
        effects
    }

    /// The player took the decrypted stream, or refused it with `error`.
    pub fn playback_started(&self, started: Result<(), String>) -> (effects: Vec<Effect>)
        ensures
            effects@.len() == 1,
            started is Ok ==> (effects@[0] matches Effect::ShowPlaying(p) && p),
            started matches Err(e) ==> is_status(
                effects@[0],
                substitute(self.i18n.translate("player.stream.error"@), seq![("error"@, e@)]),
            ),
    {
        let mut effects: Vec<Effect> = Vec::new();
        match started {
            Ok(()) => effects.push(Effect::ShowPlaying(true)),
            Err(e) => {
                let args = arg1("error", e.as_str());
                effects.push(Effect::Status(self.i18n.t_args("player.stream.error", args.as_slice())));
            },
        }
        effects
    }
}

/// After a layout change: save, notify the plugins, update the window.
fn layout_changed() -> (effects: Vec<Effect>)
    ensures
        effects@.len() == 3,
        effects@[0] is SaveLayout,
        effects@[1] is NotifyLayout,
        effects@[2] is ShowLayout,
{
    let mut effects: Vec<Effect> = Vec::new();
    effects.push(Effect::SaveLayout);
    effects.push(Effect::NotifyLayout);
    effects.push(Effect::ShowLayout);
    effects
}

} // verus!
