use breezer::cli::{looks_like_mp3, parse_args, parse_u64, CliAction, IntErrorKind};
use breezer::error::Error;

fn args(a: &[&str]) -> Vec<String> {
    a.iter().map(|s| s.to_string()).collect()
}

#[test]
fn options() {
    assert_eq!(parse_args(&args(&[])).unwrap(), CliAction::Gui);
    assert_eq!(parse_args(&args(&["-V"])).unwrap(), CliAction::Version);
    assert_eq!(parse_args(&args(&["junk", "--help"])).unwrap(), CliAction::Help);
    assert_eq!(parse_args(&args(&["--selftest", "--help"])).unwrap(), CliAction::SelfTest);
    assert_eq!(parse_args(&args(&["--update-check"])).unwrap(), CliAction::UpdateCheck);
    assert_eq!(parse_args(&args(&["--playlists-test"])).unwrap(), CliAction::PlaylistsTest);
    assert_eq!(parse_args(&args(&["--stream-test", "3135556"])).unwrap(), CliAction::StreamTest(3135556));
}

#[test]
fn stream_test_errors() {
    assert_eq!(parse_args(&args(&["--stream-test"])).unwrap_err(), Error::Other("usage: breezer --stream-test <track_id>".into()));
    assert_eq!(parse_args(&args(&["--stream-test", "12a"])).unwrap_err(), Error::Other("invalid track id: invalid digit found in string".into()));
    assert_eq!(parse_args(&args(&["--stream-test", ""])).unwrap_err(), Error::Other("invalid track id: cannot parse integer from empty string".into()));
}

#[test]
fn u64_parsing_matches_std() {
    for s in ["0", "+7", "+", "-1", "", "18446744073709551615", "18446744073709551616", "99999999999999999999x", "12x99999999999999999999", "007"] {
        let ours = parse_u64(s);
        match s.parse::<u64>() {
            Ok(v) => assert_eq!(ours, Ok(v)),
            Err(e) => {
                let kind = match e.kind() {
                    std::num::IntErrorKind::Empty => IntErrorKind::Empty,
                    std::num::IntErrorKind::InvalidDigit => IntErrorKind::InvalidDigit,
                    _ => IntErrorKind::PosOverflow,
                };
                assert_eq!(ours, Err(kind), "{s}");
            }
        }
    }
}

#[test]
fn mp3_headers() {
    assert!(looks_like_mp3(b"ID3\x04"));
    assert!(looks_like_mp3(&[0xFF, 0xFB, 0x90]));
    assert!(!looks_like_mp3(&[0xFF, 0x1B]));
    assert!(!looks_like_mp3(&[0xFF]));
    assert!(!looks_like_mp3(b"RIFF"));
    assert!(!looks_like_mp3(&[]));
}
