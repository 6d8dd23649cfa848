use breezer::api::{playlist_cover_url, prepare_arl, session_from_reply, DzUserData, GatewayReply, Session, AuthSession};
use breezer::error::Error;

fn reply() -> GatewayReply {
    GatewayReply {
        status_ok: true,
        status: "200 OK".to_string(),
        errors: Some(vec![]),
        token: Some("user-data-token".to_string()),
        check_form: Some("tok".to_string()),
        user_id: Some(42),
        login: Some("alice".to_string()),
        name: Some("Alice A.".to_string()),
        session_id: Some("sid".to_string()),
    }
}

#[test]
fn valid_reply_gives_a_session() {
    let s = session_from_reply(&reply()).unwrap();
    assert_eq!((s.api_token.as_str(), s.username.as_str(), s.user_id, s.session_id.as_str()), ("tok", "alice", 42, "sid"));
}

#[test]
fn api_token_comes_from_check_form() {
    let r = GatewayReply {
        status_ok: true,
        status: "200 OK".to_string(),
        errors: None,
        token: None,
        check_form: Some("tok".to_string()),
        user_id: Some(42),
        login: Some("bob".to_string()),
        name: None,
        session_id: None,
    };
    let s = session_from_reply(&r).unwrap();
    assert_eq!((s.api_token.as_str(), s.user_id, s.username.as_str()), ("tok", 42, "bob"));
    let mut r2 = r.clone();
    r2.check_form = None;
    r2.token = Some("other".to_string());
    assert_eq!(session_from_reply(&r2).unwrap().api_token, "");
}

#[test]
fn http_failure_is_an_auth_error() {
    let mut r = reply();
    r.status_ok = false;
    r.status = "403 Forbidden".to_string();
    assert_eq!(session_from_reply(&r).unwrap_err(), Error::Auth("gateway returned HTTP 403 Forbidden".to_string()));
}

#[test]
fn gateway_error_entries() {
    let mut r = reply();
    r.errors = Some(vec![Some("VALID_TOKEN_REQUIRED".to_string()), None]);
    assert_eq!(session_from_reply(&r).unwrap_err(), Error::Auth("VALID_TOKEN_REQUIRED".to_string()));
    r.errors = Some(vec![None]);
    assert_eq!(session_from_reply(&r).unwrap_err(), Error::Auth("unknown gateway error".to_string()));
}

#[test]
fn anonymous_account_is_refused() {
    let mut r = reply();
    r.user_id = Some(0);
    r.login = None;
    r.name = None;
    assert_eq!(session_from_reply(&r).unwrap_err(), Error::Auth("ARL invalid or expired".to_string()));
    r.name = Some("bob".to_string());
    assert_eq!(session_from_reply(&r).unwrap().username, "bob");
}

#[test]
fn user_data_defaults() {
    let r = GatewayReply {
        status_ok: true,
        status: String::new(),
        errors: None,
        token: None,
        check_form: None,
        user_id: None,
        login: None,
        name: Some("n".to_string()),
        session_id: None,
    };
    let d = DzUserData::from_value(&r).unwrap();
    assert_eq!((d.token.as_str(), d.user_id, d.username.as_str()), ("", 0, "n"));
}

#[test]
fn arl_is_trimmed_and_length_checked() {
    let arl = "a".repeat(40);
    assert_eq!(prepare_arl(&format!("  {arl}\n")).unwrap(), arl);
    assert_eq!(prepare_arl("  short  ").unwrap_err(), Error::Auth("ARL looks too short to be valid".to_string()));
    // 16 two-byte characters are 32 bytes.
    assert!(prepare_arl(&"é".repeat(16)).is_ok());
    assert!(prepare_arl(&"é".repeat(15)).is_err());
}

#[test]
fn cover_urls() {
    assert_eq!(playlist_cover_url(""), "");
    assert_eq!(
        playlist_cover_url("abc"),
        "https://e-cdns-images.dzcdn.net/images/cover/abc/250x250-000000-80-0-0.jpg"
    );
}

#[test]
fn session_state() {
    let mut s = Session::new();
    assert!(!s.is_authenticated());
    let stored = Session::from_config(&Some("arl".to_string()), &None);
    assert!(stored.is_authenticated());
    assert_eq!(stored.arl(), Some("arl".to_string()));
    assert_eq!(stored.session_id(), None);
    let auth = AuthSession { api_token: "t".to_string(), username: "u".to_string(), user_id: 1, session_id: "s".to_string() };
    s.set_session("new".to_string(), &auth);
    assert!(s.is_authenticated());
    assert_eq!((s.arl(), s.api_token(), s.session_id()), (Some("new".to_string()), Some("t".to_string()), Some("s".to_string())));
    let d = AuthSession::default();
    assert_eq!(d.user_id, 0);
}
