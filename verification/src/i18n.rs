//! Minimal i18n for strings produced by the application (status messages,
//! errors...). Translations are embedded JSON objects of key -> text.

use crate::text::{chars_of, replace_all, replace_all_chars, str_eq, string_from_chars};
use vstd::prelude::*;

verus! {

/// English translations.
pub const EN: &'static str = r#"{
  "search.prompt": "Search for a track, an artist or an album",
  "search.loading": "Searching...",
  "search.empty": "No results",
  "search.results": "{count} results for \"{query}\"",
  "search.error": "Search failed: {error}",
  "nav.home": "Home",
  "nav.explore": "Explore",
  "nav.favorites": "Favorites",
  "nav.playlists": "Playlists",
  "nav.settings": "Settings",
  "auth.paste.arl": "Paste your Deezer ARL to connect",
  "auth.connecting": "Connecting...",
  "auth.success": "Connected as {username}",
  "auth.failed": "Connection refused: the ARL is invalid or expired",
  "auth.connect.first": "Connect your Deezer account first",
  "playlists.error": "Could not load your playlists: {error}",
  "playlist.tracks": "{count} tracks",
  "playlist.tracks.error": "Could not load the playlist: {error}",
  "player.auth.required": "Connect your Deezer account to play tracks",
  "player.no.device": "No audio output device",
  "player.streaming": "Loading the stream...",
  "player.stream.error": "Playback failed: {error}",
  "layout.saved": "Layout saved",
  "language.applied": "Language: {language}",
  "theme.applied": "Theme applied",
  "update.ready": "Update installed, restarting...",
  "update.none": "Breezer is up to date",
  "update.install.failed": "Could not install the update: {error}",
  "update.available": "Update available: {version}",
  "update.download.failed": "Could not download the update: {error}"
}"#;

/// French translations.
pub const FR: &'static str = r#"{
  "search.prompt": "Rechercher un titre, un artiste ou un album",
  "search.loading": "Recherche...",
  "search.empty": "Aucun r\u00e9sultat",
  "search.results": "{count} r\u00e9sultats pour \u00ab {query} \u00bb",
  "search.error": "\u00c9chec de la recherche : {error}",
  "nav.home": "Accueil",
  "nav.explore": "Explorer",
  "nav.favorites": "Favoris",
  "nav.playlists": "Playlists",
  "nav.settings": "R\u00e9glages",
  "auth.paste.arl": "Collez votre ARL Deezer pour vous connecter",
  "auth.connecting": "Connexion...",
  "auth.success": "Connect\u00e9 en tant que {username}",
  "auth.failed": "Connexion refus\u00e9e : l'ARL est invalide ou expir\u00e9",
  "auth.connect.first": "Connectez d'abord votre compte Deezer",
  "playlists.error": "Impossible de charger vos playlists : {error}",
  "playlist.tracks": "{count} titres",
  "playlist.tracks.error": "Impossible de charger la playlist : {error}",
  "player.auth.required": "Connectez votre compte Deezer pour \u00e9couter",
  "player.no.device": "Aucune sortie audio",
  "player.streaming": "Chargement du flux...",
  "player.stream.error": "\u00c9chec de la lecture : {error}",
  "layout.saved": "Layout enregistr\u00e9",
  "language.applied": "Langue : {language}",
  "theme.applied": "Th\u00e8me appliqu\u00e9",
  "update.ready": "Mise \u00e0 jour install\u00e9e, red\u00e9marrage...",
  "update.none": "Breezer est \u00e0 jour",
  "update.install.failed": "Impossible d'installer la mise \u00e0 jour : {error}",
  "update.available": "Mise \u00e0 jour disponible : {version}",
  "update.download.failed": "Impossible de t\u00e9l\u00e9charger la mise \u00e0 jour : {error}"
}"#;

/// The UI languages.
#[derive(Debug, Clone, Copy, PartialEq, Eq, Structural)]
pub enum Lang {
    En,
    Fr,
}

impl Lang {
    /// `"fr"` selects French; any other code selects English.
    pub fn from_code(code: &str) -> (l: Lang)
        ensures
            l == (if code@ == "fr"@ { Lang::Fr } else { Lang::En }),
    {
        if str_eq(code, "fr") {
            Lang::Fr
        } else {
            Lang::En
        }
    }

    /// The two-letter code of the language.
    pub fn code(&self) -> (c: &'static str)
        ensures
            c@ == (match *self {
                Lang::En => "en"@,
                Lang::Fr => "fr"@,
            }),
    {
        match self {
            Lang::En => "en",
            Lang::Fr => "fr",
        }
    }
}

/// The code of a language selects that language again.
pub proof fn lemma_lang_code_roundtrip(l: Lang)
    ensures
        (if (match l {
            Lang::En => "en"@,
            Lang::Fr => "fr"@,
        }) == "fr"@ {
            Lang::Fr
        } else {
            Lang::En
        }) == l,
{
    reveal_strlit("en");
    reveal_strlit("fr");
    assert("en"@[0] != "fr"@[0]);
}

/// The entries of the JSON object in `raw`, each key with its value when the
/// value is a string, as `serde_json` parses them; `None` when `raw` is not a
/// JSON object.
pub uninterp spec fn json_string_object(raw: Seq<char>) -> Option<Seq<(Seq<char>, Option<Seq<char>>)>>;

/// The views of parsed entries.
pub open spec fn entries_view(e: Seq<(String, Option<String>)>) -> Seq<(Seq<char>, Option<Seq<char>>)> {
    e.map_values(
        |p: (String, Option<String>)|
            (
                p.0@,
                match p.1 {
                    Some(v) => Some(v@),
                    None => None,
                },
            ),
    )
}

/// The views of a translation table.
pub open spec fn table_view(t: Seq<(String, String)>) -> Seq<(Seq<char>, Seq<char>)> {
    t.map_values(|p: (String, String)| (p.0@, p.1@))
}

/// A translation table from parsed entries: a value that is not a string
/// translates to its own key.
pub open spec fn table_of(entries: Seq<(Seq<char>, Option<Seq<char>>)>) -> Seq<(Seq<char>, Seq<char>)> {
    entries.map_values(
        |e: (Seq<char>, Option<Seq<char>>)|
            (
                e.0,
                match e.1 {
                    Some(v) => v,
                    None => e.0,
                },
            ),
    )
}

/// The translation table of an embedded JSON text (empty when it does not
/// parse as an object).
pub open spec fn parse_table(raw: Seq<char>) -> Seq<(Seq<char>, Seq<char>)> {
    match json_string_object(raw) {
        Some(e) => table_of(e),
        None => seq![],
    }
}

/// The translation of `key` in `table`, if any (first entry with that key).
pub open spec fn lookup(table: Seq<(Seq<char>, Seq<char>)>, key: Seq<char>) -> Option<Seq<char>>
    decreases table.len(),
{
    if table.len() == 0 {
        None
    } else if table[0].0 == key {
        Some(table[0].1)
    } else {
        lookup(table.drop_first(), key)
    }
}

/// `serde_json::from_str::<Value>` on `raw`, then `as_object` and, for each
/// entry, `as_str` of its value. Keys of a `serde_json::Map` are distinct.
#[verifier::external_body]
fn parse_json_object(raw: &str) -> (r: Option<Vec<(String, Option<String>)>>)
    ensures
        r is None <==> json_string_object(raw@) is None,
        r matches Some(v) ==> json_string_object(raw@) == Some(entries_view(v@)),
        r matches Some(v) ==> forall|i: int, j: int|
            0 <= i < j < v@.len() ==> v@[i].0@ != v@[j].0@,
{
    serde_json::from_str::<serde_json::Value>(raw).ok().and_then(|v| v.as_object().cloned()).map(
        |obj| obj.into_iter().map(|(k, v)| (k, v.as_str().map(|s| s.to_string()))).collect(),
    )
}

/// Build a translation table from parsed JSON entries (a value that is not a
/// string translates to its own key).
pub fn table_from_entries(entries: &Vec<(String, Option<String>)>) -> (t: Vec<(String, String)>)
    ensures
        table_view(t@) == table_of(entries_view(entries@)),
{
    let mut t: Vec<(String, String)> = Vec::with_capacity(entries.len());
    for i in 0..entries.len()
        invariant
            t@.len() == i,
            table_view(t@) =~= table_of(entries_view(entries@)).take(i as int),
    {
        let key = entries[i].0.clone();
        let value = match &entries[i].1 {
            Some(v) => v.clone(),
            None => entries[i].0.clone(),
        };
        let ghost e = entries_view(entries@)[i as int];
        assert(e.0 == key@);
        assert(value@ == (match e.1 {
            Some(v) => v,
            None => e.0,
        }));
        t.push((key, value));
        assert(t@[i as int].0@ == key@);
        assert(table_view(t@)[i as int] == table_of(entries_view(entries@))[i as int]);
        assert(table_view(t@) =~= table_of(entries_view(entries@)).take(i + 1));
    }
    assert(table_of(entries_view(entries@)).take(entries@.len() as int) =~= table_of(entries_view(entries@)));
    t
}

/// The translation table of a JSON text (empty when it does not parse).
pub fn parse(raw: &str) -> (t: Vec<(String, String)>)
    ensures
        table_view(t@) == parse_table(raw@),
{
    match parse_json_object(raw) {
        Some(entries) => table_from_entries(&entries),
        None => {
            let t: Vec<(String, String)> = Vec::new();
            assert(table_view(t@) =~= seq![]);
            t
        },
    }
}

/// Look `key` up in a translation table.
pub(crate) fn lookup_in(table: &Vec<(String, String)>, key: &str) -> (r: Option<String>)
    ensures
        match r {
            Some(s) => lookup(table_view(table@), key@) == Some(s@),
            None => lookup(table_view(table@), key@) is None,
        },
{
    let mut i: usize = 0;
    assert(table_view(table@).skip(0) =~= table_view(table@));
    while i < table.len()
        invariant
            i <= table@.len(),
            lookup(table_view(table@).skip(i as int), key@) == lookup(table_view(table@), key@),
        decreases table@.len() - i,
    {
        assert(table_view(table@).skip(i as int).drop_first() =~= table_view(table@).skip(i + 1));
        if str_eq(table[i].0.as_str(), key) {
            return Some(table[i].1.clone());
        }
        i += 1;
    }
    None
}

/// The embedded translations of a language.
pub open spec fn source_of(lang: Lang) -> Seq<char> {
    match lang {
        Lang::En => EN@,
        Lang::Fr => FR@,
    }
}

/// The placeholder `{name}` of an argument.
pub open spec fn braced(name: Seq<char>) -> Seq<char> {
    seq!['{'] + name + seq!['}']
}

/// `text` with each `{name}` placeholder replaced by its value, argument by
/// argument, in order.
pub open spec fn substitute(text: Seq<char>, args: Seq<(Seq<char>, Seq<char>)>) -> Seq<char>
    decreases args.len(),
{
    if args.len() == 0 {
        text
    } else {
        substitute(replace_all(text, braced(args[0].0), args[0].1), args.drop_first())
    }
}

/// The views of `(name, value)` arguments.
pub open spec fn args_view(args: Seq<(&str, &str)>) -> Seq<(Seq<char>, Seq<char>)> {
    args.map_values(|p: (&str, &str)| (p.0@, p.1@))
}

/// Tiny translation helper. Misses fall back to English, then to the key.
#[derive(Debug, Clone)]
pub struct I18n {
    lang: Lang,
    map: Vec<(String, String)>,
}

impl I18n {
    /// The language of the translations.
    pub closed spec fn language(&self) -> Lang {
        self.lang
    }

    /// The translation table in use.
    pub closed spec fn table(&self) -> Seq<(Seq<char>, Seq<char>)> {
        table_view(self.map@)
    }

    /// What `t` returns for `key`: the translation in this table, else
    /// (outside English) the English one, else the key itself.
    pub open spec fn translate(&self, key: Seq<char>) -> Seq<char> {
        match lookup(self.table(), key) {
            Some(v) => v,
            None => if self.language() == Lang::En {
                key
            } else {
                match lookup(parse_table(EN@), key) {
                    Some(v) => v,
                    None => key,
                }
            },
        }
    }

    pub fn from_code(code: &str) -> (r: Self)
        ensures
            r.language() == (if code@ == "fr"@ { Lang::Fr } else { Lang::En }),
            r.table() == parse_table(source_of(r.language())),
    {
        Self::new(Lang::from_code(code))
    }

    pub fn new(lang: Lang) -> (r: Self)
        ensures
            r.language() == lang,
            r.table() == parse_table(source_of(lang)),
    {
        let raw = match lang {
            Lang::En => EN,
            Lang::Fr => FR,
        };
        let map = parse(raw);
        I18n { lang, map }
    }

    pub fn lang(&self) -> (l: Lang)
        ensures
            l == self.language(),
    {
        self.lang
    }

    /// Translate with naive `{arg}` substitution, e.g.
    /// `t_args("search.results", &[("count", "12"), ("query", "drake")])`.
    pub fn t_args(&self, key: &str, args: &[(&str, &str)]) -> (r: String)
        ensures
            r@ == substitute(self.translate(key@), args_view(args@)),
    {
        let translated = self.t(key);
        let mut out = chars_of(translated.as_str());
        let ghost all = args_view(args@);
        assert(all.skip(0) =~= all);
        for i in 0..args.len()
            invariant
                all == args_view(args@),
                substitute(out@, all.skip(i as int)) == substitute(self.translate(key@), all),
        {
            let name = chars_of(args[i].0);
            let mut pat: Vec<char> = Vec::with_capacity(name.len());
            pat.push('{');
            for j in 0..name.len()
                invariant
                    pat@ =~= seq!['{'] + name@.take(j as int),
            {
                pat.push(name[j]);
            }
            pat.push('}');
            assert(name@.take(name@.len() as int) =~= name@);
            assert(pat@ =~= braced(all[i as int].0));
            let value = chars_of(args[i].1);
            let replaced = replace_all_chars(out.as_slice(), pat.as_slice(), value.as_slice());
            out = replaced;
            assert(all.skip(i as int).drop_first() =~= all.skip(i + 1));
        }
        assert(all.skip(args@.len() as int) =~= seq![]);
        string_from_chars(out.as_slice())
    }

    /// Translate `key`, e.g. `t("search.prompt")`.
    pub fn t(&self, key: &str) -> (r: String)
        ensures
            r@ == self.translate(key@),
    {
        match lookup_in(&self.map, key) {
            Some(v) => v,
            None => {
                if self.lang == Lang::En {
                    key.to_owned()
                } else {
                    let en = parse(EN);
                    match lookup_in(&en, key) {
                        Some(v) => v,
                        None => key.to_owned(),
                    }
                }
            },
        }
    }
}

} // verus!
