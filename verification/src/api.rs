//! Deezer data models, session state and the decisions of the ARL login.
//!
//! The HTTP requests themselves are made by the application, which hands the
//! gateway's reply to [`session_from_reply`] as plain values.

use crate::error::Error;
use crate::text::{byte_len, chars_of, concat2, concat3, string_from_chars, trim, trim_chars};
use vstd::prelude::*;
use vstd::string::StringSliceAdditionalSpecFns;

verus! {

/// Deezer gateway endpoint (authenticated, cookie-based).
pub const GW_LIGHT_URL: &'static str = "https://www.deezer.com/ajax/gw-light.php";

/// Public REST endpoint.
pub const API_BASE: &'static str = "https://api.deezer.com";

/// Real browser User-Agent: Deezer's gateway refuses or reduces responses to
/// non-browser clients.
pub const BROWSER_UA: &'static str = "Mozilla/5.0 (X11; Linux x86_64) AppleWebKit/537.36 (KHTML, like Gecko) Chrome/133.0.0.0 Safari/537.36";

// ---------------------------------------------------------------------------
// Models of the public API
// ---------------------------------------------------------------------------

/// A track as returned by `api.deezer.com/{search,chart}/...`.
#[derive(Debug, Clone)]
pub struct Track {
    pub id: u64,
    pub title: String,
    pub duration: u32,
    pub artist: Artist,
    pub album: Album,
}

#[derive(Debug, Clone)]
pub struct Artist {
    pub name: String,
}

#[derive(Debug, Clone)]
pub struct Album {
    pub title: String,
    pub cover_medium: String,
    pub cover_big: String,
}

impl Default for Artist {
    fn default() -> (a: Self)
        ensures
            a.name@ == Seq::<char>::empty(),
    {
        Artist { name: String::new() }
    }
}

impl Default for Album {
    fn default() -> (a: Self)
        ensures
            a.title@ == Seq::<char>::empty(),
            a.cover_medium@ == Seq::<char>::empty(),
            a.cover_big@ == Seq::<char>::empty(),
    {
        Album { title: String::new(), cover_medium: String::new(), cover_big: String::new() }
    }
}

#[derive(Debug)]
pub struct DzSearchResponse {
    pub data: Vec<Track>,
}

/// A playlist (user playlists endpoint).
#[derive(Debug, Clone)]
pub struct Playlist {
    pub id: u64,
    pub title: String,
    pub picture_medium: String,
    pub nb_tracks: u32,
}

#[derive(Debug)]
pub struct DzPlaylistResponse {
    pub data: Vec<Playlist>,
}

/// A playlist detail (kept for the playlists view).
#[derive(Debug)]
pub struct DzPlaylistDetail {
    pub tracks: DzTrackItems,
}

#[derive(Debug)]
pub struct DzTrackItems {
    pub data: Vec<Track>,
}

/// Cover URL for a Deezer playlist/album picture hash (empty for no hash).
pub fn playlist_cover_url(hash: &str) -> (url: String)
    ensures
        url@ == (if hash@.len() == 0 {
            Seq::<char>::empty()
        } else {
            "https://e-cdns-images.dzcdn.net/images/cover/"@ + hash@ + "/250x250-000000-80-0-0.jpg"@
        }),
{
    if hash.is_empty() {
        String::new()
    } else {
        concat3("https://e-cdns-images.dzcdn.net/images/cover/", hash, "/250x250-000000-80-0-0.jpg")
    }
}

// ---------------------------------------------------------------------------
// Gateway (`gw-light.php`) data
// ---------------------------------------------------------------------------

/// What the gateway's `deezer.getUserData` reply holds, as plain values.
#[derive(Debug, Clone)]
pub struct GatewayReply {
    /// Whether the HTTP status was a success (2xx).
    pub status_ok: bool,
    /// The HTTP status as text, e.g. `403 Forbidden`.
    pub status: String,
    /// The `error` array, if the reply has one: for each entry, its
    /// `message` when that is a string.
    pub errors: Option<Vec<Option<String>>>,
    /// `results.TOKEN`, when a string.
    pub token: Option<String>,
    /// `results.checkForm` (the API token of the session), when a string.
    pub check_form: Option<String>,
    /// `results.USER.USER_ID`, when an integer.
    pub user_id: Option<i64>,
    /// `results.USER.LOGIN`, when a string.
    pub login: Option<String>,
    /// `results.USER.NAME`, when a string.
    pub name: Option<String>,
    /// `results.SESSION_ID`, when a string.
    pub session_id: Option<String>,
}

/// Minimal typed view over `deezer.getUserData` results.
#[derive(Debug, Clone)]
pub struct DzUserData {
    pub token: String,
    pub user_id: i64,
    pub username: String,
}

impl Default for DzUserData {
    fn default() -> (d: Self)
        ensures
            d.token@ == Seq::<char>::empty(),
            d.user_id == 0,
            d.username@ == Seq::<char>::empty(),
    {
        DzUserData { token: String::new(), user_id: 0, username: String::new() }
    }
}

/// The text of an optional string, empty when absent.
pub open spec fn text_or_empty(s: Option<String>) -> Seq<char> {
    match s {
        Some(t) => t@,
        None => Seq::<char>::empty(),
    }
}

/// The user name of a reply: `LOGIN`, else `NAME`, else empty.
pub open spec fn reply_username(reply: GatewayReply) -> Seq<char> {
    match reply.login {
        Some(l) => l@,
        None => text_or_empty(reply.name),
    }
}

/// The user id of a reply, zero when absent.
pub open spec fn reply_user_id(reply: GatewayReply) -> i64 {
    match reply.user_id {
        Some(i) => i,
        None => 0,
    }
}

fn text_of(s: &Option<String>) -> (t: String)
    ensures
        t@ == text_or_empty(*s),
{
    match s {
        Some(v) => v.clone(),
        None => String::new(),
    }
}

impl DzUserData {
    /// Read `results.TOKEN`, `results.USER.USER_ID` and the user name
    /// (`LOGIN`, else `NAME`); absent values are empty or zero. Never fails.
    pub fn from_value(body: &GatewayReply) -> (r: Result<Self, Error>)
        ensures
            r matches Ok(d) && d.token@ == text_or_empty(body.token) && d.user_id == reply_user_id(*body)
                && d.username@ == reply_username(*body),
    {
        let token = text_of(&body.token);
        let user_id = match body.user_id {
            Some(i) => i,
            None => 0,
        };
        let username = match &body.login {
            Some(l) => l.clone(),
            None => text_of(&body.name),
        };
        Ok(DzUserData { token, user_id, username })
    }
}

/// Result of an ARL-based login.
#[derive(Debug, Clone)]
pub struct AuthSession {
    pub api_token: String,
    pub username: String,
    pub user_id: i64,
    /// Gateway session id (SESSION_ID) for authenticated calls.
    pub session_id: String,
}

impl Default for AuthSession {
    fn default() -> (s: Self)
        ensures
            s.api_token@ == Seq::<char>::empty(),
            s.username@ == Seq::<char>::empty(),
            s.user_id == 0,
            s.session_id@ == Seq::<char>::empty(),
    {
        AuthSession { api_token: String::new(), username: String::new(), user_id: 0, session_id: String::new() }
    }
}

/// An ARL as the gateway is sent it: trimmed, and at least 32 bytes long.
pub fn prepare_arl(arl: &str) -> (r: Result<String, Error>)
    ensures
        match r {
            Ok(t) => t@ == trim(arl@) && vstd::utf8::encode_utf8(trim(arl@)).len() >= 32,
            Err(e) => vstd::utf8::encode_utf8(trim(arl@)).len() < 32
                && (e matches Error::Auth(m) && m@ == "ARL looks too short to be valid"@),
        },
{
    let chars = chars_of(arl);
    let trimmed = trim_chars(chars.as_slice());
    let t = string_from_chars(trimmed.as_slice());
    if byte_len(t.as_str()) < 32 {
        return Err(Error::Auth("ARL looks too short to be valid".to_owned()));
    }
    Ok(t)
}

/// How the login ends for a gateway reply: the session, or the message of
/// the authentication error.
pub open spec fn login_outcome(reply: GatewayReply) -> Result<(Seq<char>, Seq<char>, i64, Seq<char>), Seq<char>> {
    if !reply.status_ok {
        Err("gateway returned HTTP "@ + reply.status@)
    } else if reply.errors is Some && reply.errors->0@.len() > 0 {
        Err(match reply.errors->0@[0] {
            Some(m) => m@,
            None => "unknown gateway error"@,
        })
    } else if reply_user_id(reply) == 0 && reply_username(reply).len() == 0 {
        Err("ARL invalid or expired"@)
    } else {
        Ok((text_or_empty(reply.check_form), reply_username(reply), reply_user_id(reply), text_or_empty(reply.session_id)))
    }
}

/// Law: the gateway accepts an account exactly when it has a user id or a
/// user name: a successful reply without error entries and with a nonzero
/// `USER_ID` always gives a session for that id, carrying `checkForm` as its
/// API token and `SESSION_ID` as its session.
pub proof fn lemma_user_id_is_an_account(reply: GatewayReply)
    requires
        reply.status_ok,
        reply.errors is None || reply.errors->0@.len() == 0,
        reply.user_id matches Some(id) && id != 0,
    ensures
        login_outcome(reply) matches Ok((token, user, id, sid)) && Some(id) == reply.user_id
            && token == (match reply.check_form {
            Some(t) => t@,
            None => Seq::<char>::empty(),
        }) && sid == (match reply.session_id {
            Some(t) => t@,
            None => Seq::<char>::empty(),
        }),
{
}

/// Decide the login from the gateway's reply: an HTTP failure, an `error`
/// entry, or an account without id nor name refuse it; otherwise the session
/// carries the API token (`results.checkForm`), the user and the gateway
/// session id.
pub fn session_from_reply(reply: &GatewayReply) -> (r: Result<AuthSession, Error>)
    ensures
        match (r, login_outcome(*reply)) {
            (Ok(s), Ok((token, user, id, sid))) => s.api_token@ == token && s.username@ == user
                && s.user_id == id && s.session_id@ == sid,
            (Err(Error::Auth(m)), Err(msg)) => m@ == msg,
            _ => false,
        },
        reply.status_ok && (reply.errors is None || reply.errors->0@.len() == 0) && (reply.user_id matches Some(
            id,
        ) && id != 0) ==> (r matches Ok(s) && Some(s.user_id) == reply.user_id),
{
    if !reply.status_ok {
        return Err(Error::Auth(concat2("gateway returned HTTP ", reply.status.as_str())));
    }
    if let Some(errs) = &reply.errors {
        if errs.len() > 0 {
            let msg = match &errs[0] {
                Some(m) => m.clone(),
                None => "unknown gateway error".to_owned(),
            };
            return Err(Error::Auth(msg));
        }
    }
    let inner = match DzUserData::from_value(reply) {
        Ok(d) => d,
        Err(e) => {
            return Err(e);
        },
    };
    if inner.user_id == 0 && inner.username.as_str().is_empty() {
        return Err(Error::Auth("ARL invalid or expired".to_owned()));
    }
    Ok(AuthSession {
        api_token: text_of(&reply.check_form),
        username: inner.username,
        user_id: inner.user_id,
        session_id: text_of(&reply.session_id),
    })
}

// ---------------------------------------------------------------------------
// Session state of the API client
// ---------------------------------------------------------------------------

/// The credentials the API client holds.
#[derive(Debug)]
pub struct Session {
    arl: Option<String>,
    api_token: Option<String>,
    session_id: Option<String>,
}

/// The view of an optional string.
pub open spec fn opt_view(s: Option<String>) -> Option<Seq<char>> {
    match s {
        Some(t) => Some(t@),
        None => None,
    }
}

fn clone_opt(s: &Option<String>) -> (r: Option<String>)
    ensures
        opt_view(r) == opt_view(*s),
{
    match s {
        Some(t) => Some(t.clone()),
        None => None,
    }
}

impl Clone for Session {
    fn clone(&self) -> (c: Self)
        ensures
            c.arl_view() == self.arl_view(),
            c.api_token_view() == self.api_token_view(),
            c.session_id_view() == self.session_id_view(),
    {
        Session {
            arl: clone_opt(&self.arl),
            api_token: clone_opt(&self.api_token),
            session_id: clone_opt(&self.session_id),
        }
    }
}

impl Session {
    pub closed spec fn arl_view(&self) -> Option<Seq<char>> {
        opt_view(self.arl)
    }

    pub closed spec fn api_token_view(&self) -> Option<Seq<char>> {
        opt_view(self.api_token)
    }

    pub closed spec fn session_id_view(&self) -> Option<Seq<char>> {
        opt_view(self.session_id)
    }

    /// No credentials.
    pub fn new() -> (s: Self)
        ensures
            s.arl_view() is None,
            s.api_token_view() is None,
            s.session_id_view() is None,
    {
        Session { arl: None, api_token: None, session_id: None }
    }

    /// The credentials stored in the configuration (no gateway session yet).
    pub fn from_config(arl: &Option<String>, api_token: &Option<String>) -> (s: Self)
        ensures
            s.arl_view() == opt_view(*arl),
            s.api_token_view() == opt_view(*api_token),
            s.session_id_view() is None,
    {
        Session { arl: clone_opt(arl), api_token: clone_opt(api_token), session_id: None }
    }

    /// Signed in when an ARL is held.
    pub fn is_authenticated(&self) -> (b: bool)
        ensures
            b == (self.arl_view() is Some),
    {
        self.arl.is_some()
    }

    /// Update the session after a fresh login.
    pub fn set_session(&mut self, arl: String, session: &AuthSession)
        ensures
            final(self).arl_view() == Some(arl@),
            final(self).api_token_view() == Some(session.api_token@),
            final(self).session_id_view() == Some(session.session_id@),
    {
        self.arl = Some(arl);
        self.api_token = Some(session.api_token.clone());
        self.session_id = Some(session.session_id.clone());
    }

    /// The ARL, if any.
    pub fn arl(&self) -> (r: Option<String>)
        ensures
            opt_view(r) == self.arl_view(),
    {
        clone_opt(&self.arl)
    }

    /// The API token, if any.
    pub fn api_token(&self) -> (r: Option<String>)
        ensures
            opt_view(r) == self.api_token_view(),
    {
        clone_opt(&self.api_token)
    }

    /// The gateway session id, if any.
    pub fn session_id(&self) -> (r: Option<String>)
        ensures
            opt_view(r) == self.session_id_view(),
    {
        clone_opt(&self.session_id)
    }
}

} // verus!
