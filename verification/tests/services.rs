use breezer::api::AuthSession;
use breezer::config::LayoutProfile;
use breezer::i18n::Lang;
use breezer::player::queue::RepeatMode;
use breezer::player::decrypt::decrypt_audio_stream;
use breezer::services::{cached_title, card_position, Effect, Services, Settings, ThemeOverrides};

fn services() -> Services {
    Services::new(Settings::default(), LayoutProfile::default_layout())
}

fn status(e: &Effect) -> &str {
    match e {
        Effect::Status(m) => m.as_str(),
        _ => panic!("not a status"),
    }
}

#[test]
fn overrides_set_get_remove_clear() {
    let mut o = ThemeOverrides::new();
    assert_eq!(o.get("bg"), None);
    o.set("bg".into(), "#000000".into());
    o.set("text".into(), "#ffffff".into());
    o.set("bg".into(), "#111111".into());
    assert_eq!(o.get("bg"), Some("#111111".into()));
    assert_eq!(o.get("text"), Some("#ffffff".into()));
    assert_eq!(o.entries().len(), 2);
    o.remove("bg");
    assert_eq!(o.get("bg"), None);
    assert_eq!(o.get("text"), Some("#ffffff".into()));
    o.remove("nothing");
    o.clear();
    assert_eq!(o.get("text"), None);
    let p = ThemeOverrides::from_pairs(vec![("a".into(), "1".into()), ("a".into(), "2".into())]);
    assert_eq!(p.get("a"), Some("2".into()));
}

#[test]
fn settings_defaults() {
    let s = Settings::default();
    assert_eq!((s.theme_id.as_str(), s.language.as_str(), s.time_format.as_str()), ("breezer-dark", "en", "24h"));
    assert!(s.arl.is_none() && !s.onboarding_done);
    assert_eq!(s.i18n().lang(), Lang::En);
}

#[test]
fn views_and_playlist_fetch() {
    let s = services();
    let e = s.view("home", false, true);
    assert!(matches!(&e[..], [Effect::View { view, title }] if view == "home" && title == "Home"));
    let e = s.view("playlists", false, true);
    assert!(matches!(&e[..], [Effect::View { .. }, Effect::FetchPlaylists]));
    assert_eq!(s.view("playlists", true, true).len(), 1);
    assert_eq!(s.view("playlists", false, false).len(), 1);
    let e = s.view("custom", false, true);
    assert!(matches!(&e[..], [Effect::View { title, .. }] if title == "custom"));
}

#[test]
fn layout_commands() {
    let mut s = services();
    let e = s.dock("queue", "right");
    assert!(matches!(&e[..], [Effect::SaveLayout, Effect::NotifyLayout, Effect::ShowLayout]));
    assert_eq!(s.layout.right, "queue");
    s.toggle_right();
    assert_eq!(s.layout.right, "");
    s.dock("queue", "left");
    s.reset_layout();
    assert_eq!(s.layout.left, "sidebar");
    let e = s.save_layout();
    assert!(matches!(e[0], Effect::SaveLayout));
    assert_eq!(status(&e[1]), "Layout saved");
}

#[test]
fn theme_commands() {
    let mut s = services();
    let e = s.theme("breezer-light".into());
    assert!(matches!(&e[..], [Effect::SaveSettings, Effect::NotifyTheme(id), Effect::ShowTheme] if id == "breezer-light"));
    assert_eq!(s.settings.theme_id, "breezer-light");
    assert!(s.theme_override("font".into(), "x".into()).is_empty());
    assert_eq!(s.theme_override("on-primary".into(), "#123456".into()).len(), 2);
    assert_eq!(s.settings.theme_overrides.get("on-primary"), Some("#123456".into()));
    s.theme_override("on-primary".into(), "   ".into());
    assert_eq!(s.settings.theme_overrides.get("on-primary"), None);
    s.theme_override("bg".into(), "#000000".into());
    s.reset_theme_overrides();
    assert_eq!(s.settings.theme_overrides.get("bg"), None);
    assert_eq!(status(&s.open_theme_editor()[0]), "Theme applied");
}

#[test]
fn language_command() {
    let mut s = services();
    let e = s.language("fr".into());
    assert_eq!(s.settings.language, "fr");
    assert_eq!(s.i18n.lang(), Lang::Fr);
    assert!(matches!(&e[1], Effect::ShowLanguage(c) if c == "fr"));
    assert_eq!(status(&e[2]), "Langue : FR");
}

#[test]
fn onboarding_requires_login() {
    let mut s = services();
    let e = s.finish_onboarding();
    assert!(matches!(e[0], Effect::OpenLoginPage));
    assert_eq!(status(&e[1]), "Connect your Deezer account first");
    assert!(!s.settings.onboarding_done);
    s.settings.arl = Some("x".repeat(40));
    let e = s.finish_onboarding();
    assert!(matches!(&e[..], [Effect::SaveSettings, Effect::OnboardingDone]));
    assert!(s.settings.onboarding_done);
}

#[test]
fn time_format_shuffle_repeat() {
    let mut s = services();
    assert_eq!(s.time_format("12h".into()).len(), 1);
    assert_eq!(s.settings.time_format, "12h");
    assert!(s.time_format("13h".into()).is_empty());
    assert_eq!(s.settings.time_format, "12h");
    assert!(matches!(s.shuffle()[0], Effect::ShowShuffle(true)));
    assert!(matches!(s.shuffle()[0], Effect::ShowShuffle(false)));
    assert!(matches!(s.repeat()[0], Effect::ShowRepeat(1)));
    assert_eq!(s.repeat, RepeatMode::All);
}

#[test]
fn connect_and_login() {
    let mut s = services();
    let e = s.connect("   ".into());
    assert!(matches!(e[0], Effect::OpenLoginPage));
    assert_eq!(status(&e[1]), "Paste your Deezer ARL to connect");
    let e = s.connect("abc".into());
    assert_eq!(status(&e[0]), "Connecting...");
    assert!(matches!(&e[1], Effect::Authenticate(a) if a == "abc"));
    let session = AuthSession { api_token: "t".into(), username: "alice".into(), user_id: 7, session_id: "s".into() };
    let e = s.login_succeeded("arl".into(), &session);
    assert_eq!(e.len(), 6);
    assert_eq!(status(&e[3]), "Connected as alice");
    assert!(matches!(e[5], Effect::OnboardingDone));
    assert_eq!(s.settings.username.as_deref(), Some("alice"));
    assert_eq!(s.login_succeeded("arl".into(), &session).len(), 4);
    assert!(matches!(&s.login_failed()[0], Effect::AuthFailed(m) if m.starts_with("Connection refused")));
}

#[test]
fn session_restore_and_expiry() {
    let mut s = services();
    let e = s.session_restored("bob".into());
    assert!(matches!(&e[..], [Effect::SaveSettings, Effect::OnboardingDone, Effect::ShowAuth { state: 2, .. }]));
    assert_eq!(s.session_restored("bob".into()).len(), 2);
    assert!(matches!(&s.session_expired()[..], [Effect::ShowAuth { state: 1, username }] if username.is_empty()));
}

#[test]
fn search_outcomes() {
    let s = services();
    assert_eq!(status(&s.search_finished("x", 0)[0]), "No results");
    let e = s.search_finished("drake", 12);
    assert_eq!(status(&e[0]), "12 results for \"drake\"");
    assert!(matches!(&e[1], Effect::View { view, title } if view == "explore" && title == "Explore"));
    assert_eq!(status(&s.search_failed("timeout")[0]), "Search failed: timeout");
}

#[test]
fn streaming_needs_a_device() {
    let s = services();
    let e = s.start_streaming(false, 7);
    assert_eq!(e.len(), 1);
    assert_eq!(status(&e[0]), "No audio output device");
    let e = s.start_streaming(true, 7);
    assert_eq!(e.len(), 2);
    assert_eq!(status(&e[0]), "Loading the stream...");
    assert!(matches!(e[1], Effect::FetchStream(7)));
}

#[test]
fn fetched_stream_is_decrypted_and_played() {
    let s = services();
    let bytes: Vec<u8> = (0..3000u32).map(|i| (i % 251) as u8).collect();
    let e = s.stream_fetched(3135556, Ok(bytes.clone()));
    assert_eq!(e.len(), 1);
    match &e[0] {
        Effect::PlayAudio(audio) => {
            assert_eq!(audio, &decrypt_audio_stream("3135556", &bytes).unwrap());
            assert_ne!(audio[..8], bytes[..8]);
            assert_eq!(audio[2048..], bytes[2048..]);
        }
        _ => panic!("expected PlayAudio"),
    }
    let e = s.stream_fetched(1, Err("timeout".to_string()));
    assert_eq!(status(&e[0]), "Playback failed: timeout");
}

#[test]
fn playback_start_outcome() {
    let s = services();
    assert!(matches!(s.playback_started(Ok(()))[0], Effect::ShowPlaying(true)));
    assert_eq!(status(&s.playback_started(Err("bad mp3".to_string()))[0]), "Playback failed: bad mp3");
}

#[test]
fn play_queued_track() {
    let s = services();
    let e = s.play_queued(false, true, 5);
    assert_eq!(e.len(), 3);
    assert!(matches!(e[0], Effect::ShowQueuedTrack));
    assert!(matches!(e[1], Effect::NotifyTrack));
    assert_eq!(status(&e[2]), "Connect your Deezer account to play tracks");
    let e = s.play_queued(true, true, 5);
    assert_eq!(e.len(), 4);
    assert!(matches!(e[3], Effect::FetchStream(5)));
    assert_eq!(card_position(&[4, 5, 5], 5), Some(1));
    assert_eq!(card_position(&[4, 6], 5), None);
}

#[test]
fn queue_moves_play_or_stop() {
    let s = services();
    let e = s.play_moved(None, true);
    assert_eq!(e.len(), 1);
    assert!(matches!(e[0], Effect::ShowPlaying(false)));
    let e = s.play_moved(Some(9), true);
    assert_eq!(e.len(), 3);
    assert!(matches!(e[0], Effect::ShowQueuedTrack));
    assert!(matches!(e[2], Effect::FetchStream(9)));
    let e = s.play_moved(Some(9), false);
    assert_eq!(status(&e[1]), "No audio output device");
}

#[test]
fn search_and_playlist_steps() {
    let s = services();
    assert_eq!(status(&s.search_started()[0]), "Searching...");
    assert_eq!(status(&s.playlists_failed("boom")[0]), "Could not load your playlists: boom");
    let cache = vec![("1".to_string(), "Mix".to_string()), ("1".to_string(), "Other".to_string())];
    assert_eq!(cached_title(&cache, "1"), Some("Mix".to_string()));
    assert_eq!(cached_title(&cache, "2"), None);
    let e = s.playlist_opened(cached_title(&cache, "2"), 12);
    assert!(matches!(&e[0], Effect::View { view, title } if view == "playlist-detail" && title == "Playlists"));
    assert!(matches!(e[1], Effect::ShowResults));
    assert_eq!(status(&e[2]), "12 tracks");
    assert_eq!(status(&s.playlist_failed("x")[0]), "Could not load the playlist: x");
}

#[test]
fn toggle_streams_or_toggles() {
    let s = services();
    let e = s.toggle(true, Some(3), true);
    assert!(matches!(e[0], Effect::TogglePlayer) && matches!(e[1], Effect::ShowPlayerState) && e.len() == 2);
    let e = s.toggle(false, None, true);
    assert!(e.len() == 1 && matches!(e[0], Effect::ShowPlayerState));
    let e = s.toggle(false, Some(3), true);
    assert_eq!(e.len(), 3);
    assert!(matches!(e[1], Effect::FetchStream(3)));
}

#[test]
fn update_steps() {
    let s = services();
    let e = s.update_installed(Ok(true));
    assert_eq!(status(&e[0]), "Update installed, restarting...");
    assert!(matches!(e[1], Effect::Restart));
    assert_eq!(status(&s.update_installed(Ok(false))[0]), "Breezer is up to date");
    assert_eq!(status(&s.update_installed(Err("disk".into()))[0]), "Could not install the update: disk");
    assert!(matches!(&s.update_none()[0], Effect::ShowVersionStatus(m) if m == "Breezer is up to date"));
    assert!(matches!(&s.update_prepared("0.2.0", Ok(None))[0], Effect::ShowVersionStatus(m) if m == "Update available: v0.2.0"));
    assert!(matches!(&s.update_prepared("0.2.0", Ok(Some("0.2.0".into())))[0], Effect::ShowUpdateReady(v) if v == "0.2.0"));
    assert_eq!(status(&s.update_prepared("0.2.0", Err("net".into()))[0]), "Could not download the update: net");
    let e = s.chart_loaded();
    assert!(matches!(e[0], Effect::ShowResults));
    assert_eq!(status(&e[1]), "");
    assert!(s.recents_loaded(0).is_empty());
    assert!(matches!(s.recents_loaded(2)[0], Effect::ShowRecents));
}
