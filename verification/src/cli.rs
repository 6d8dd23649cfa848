//! Command-line arguments of the application.

use crate::error::Error;
use crate::text::{chars_of, concat2, str_eq};
use vstd::prelude::*;

verus! {

/// What the command line asks for.
#[derive(Debug, PartialEq, Eq, Structural)]
pub enum CliAction {
    /// `--version` / `-V`: print the version.
    Version,
    /// `--update-check`: check for updates and exit.
    UpdateCheck,
    /// `--selftest`: test the audio output and exit.
    SelfTest,
    /// `--playlists-test`: list the user's playlists and exit.
    PlaylistsTest,
    /// `--stream-test <track_id>`: fetch and decrypt a stream and exit.
    StreamTest(u64),
    /// `--help` / `-h`: print the usage.
    Help,
    /// No option: run the GUI.
    Gui,
}

/// Why an integer did not parse (the `ParseIntError` kinds of `u64`).
#[derive(Debug, Clone, Copy, PartialEq, Eq, Structural)]
pub enum IntErrorKind {
    Empty,
    InvalidDigit,
    PosOverflow,
}

/// Left-to-right reading of decimal digits onto `acc`, as `u64::from_str`
/// does: the first non-digit or the first overflow decides the error.
pub open spec fn read_digits(acc: int, d: Seq<char>) -> Result<int, IntErrorKind>
    decreases d.len(),
{
    if d.len() == 0 {
        Ok(acc)
    } else if !('0' <= d[0] && d[0] <= '9') {
        Err(IntErrorKind::InvalidDigit)
    } else {
        let next = acc * 10 + (d[0] as int - '0' as int);
        if acc * 10 > u64::MAX || next > u64::MAX {
            Err(IntErrorKind::PosOverflow)
        } else {
            read_digits(next, d.drop_first())
        }
    }
}

/// What `s.parse::<u64>()` gives: an optional leading `+`, then digits.
pub open spec fn parse_u64_spec(s: Seq<char>) -> Result<int, IntErrorKind> {
    if s.len() == 0 {
        Err(IntErrorKind::Empty)
    } else if s[0] == '+' && s.len() == 1 {
        Err(IntErrorKind::InvalidDigit)
    } else if s[0] == '+' {
        read_digits(0, s.drop_first())
    } else {
        read_digits(0, s)
    }
}

/// The message of a `ParseIntError` of each kind.
pub open spec fn int_error_text(k: IntErrorKind) -> Seq<char> {
    match k {
        IntErrorKind::Empty => "cannot parse integer from empty string"@,
        IntErrorKind::InvalidDigit => "invalid digit found in string"@,
        IntErrorKind::PosOverflow => "number too large to fit in target type"@,
    }
}

/// Parse a decimal `u64` as `str::parse` does.
pub fn parse_u64(s: &str) -> (r: Result<u64, IntErrorKind>)
    ensures
        match (r, parse_u64_spec(s@)) {
            (Ok(v), Ok(w)) => v == w,
            (Err(e), Err(f)) => e == f,
            _ => false,
        },
{
    let c = chars_of(s);
    let n = c.len();
    if n == 0 {
        return Err(IntErrorKind::Empty);
    }
    let start: usize = if c[0] == '+' { 1 } else { 0 };
    if start == 1 && n == 1 {
        return Err(IntErrorKind::InvalidDigit);
    }
    let ghost digits = if c@[0] == '+' { c@.drop_first() } else { c@ };
    assert(digits =~= c@.skip(start as int));
    assert(parse_u64_spec(s@) == read_digits(0, c@.skip(start as int)));
    let mut acc: u64 = 0;
    let mut i: usize = start;
    while i < n
        invariant
            n == c@.len(),
            c@ == s@,
            start <= 1,
            start <= i <= n,
            parse_u64_spec(s@) == read_digits(0, c@.skip(start as int)),
            read_digits(acc as int, c@.skip(i as int)) == read_digits(0, c@.skip(start as int)),
        decreases n - i,
    {
        let ch = c[i];
        assert(c@.skip(i as int)[0] == ch);
        assert(c@.skip(i as int).drop_first() =~= c@.skip(i + 1));
        if !('0' <= ch && ch <= '9') {
            return Err(IntErrorKind::InvalidDigit);
        }
        let d = (ch as u32 - '0' as u32) as u64;
        if acc > u64::MAX / 10 {
            return Err(IntErrorKind::PosOverflow);
        }
        let times = acc * 10;
        if times > u64::MAX - d {
            return Err(IntErrorKind::PosOverflow);
        }
        acc = times + d;
        i += 1;
    }
    assert(c@.skip(n as int) =~= seq![]);
    Ok(acc)
}

/// The message of a parse error.
pub fn int_error_message(k: IntErrorKind) -> (s: &'static str)
    ensures
        s@ == int_error_text(k),
{
    match k {
        IntErrorKind::Empty => "cannot parse integer from empty string",
        IntErrorKind::InvalidDigit => "invalid digit found in string",
        IntErrorKind::PosOverflow => "number too large to fit in target type",
    }
}

/// The action the first recognised option asks for, reading the arguments
/// (without the program name) in order; unknown arguments are skipped.
pub open spec fn cli_action(args: Seq<Seq<char>>) -> Result<CliAction, Seq<char>>
    decreases args.len(),
{
    if args.len() == 0 {
        Ok(CliAction::Gui)
    } else {
        let a = args[0];
        if a == "--version"@ || a == "-V"@ {
            Ok(CliAction::Version)
        } else if a == "--update-check"@ {
            Ok(CliAction::UpdateCheck)
        } else if a == "--selftest"@ {
            Ok(CliAction::SelfTest)
        } else if a == "--playlists-test"@ {
            Ok(CliAction::PlaylistsTest)
        } else if a == "--stream-test"@ {
            if args.len() < 2 {
                Err("usage: breezer --stream-test <track_id>"@)
            } else {
                match parse_u64_spec(args[1]) {
                    Ok(v) => Ok(CliAction::StreamTest(v as u64)),
                    Err(k) => Err("invalid track id: "@ + int_error_text(k)),
                }
            }
        } else if a == "--help"@ || a == "-h"@ {
            Ok(CliAction::Help)
        } else {
            cli_action(args.drop_first())
        }
    }
}

/// Law: the first recognised option decides the action, whatever follows:
/// `--version`/`-V` asks for the version, `--update-check`, `--selftest`,
/// `--playlists-test` and `--help`/`-h` for their modes, `--stream-test` for
/// the track whose id follows (or the usage error without one); an argument
/// that is none of these is skipped; no argument runs the GUI.
pub proof fn lemma_first_option_decides(args: Seq<Seq<char>>)
    ensures
        cli_action(Seq::<Seq<char>>::empty()) == Ok::<CliAction, Seq<char>>(CliAction::Gui),
        args.len() > 0 && (args[0] == "--version"@ || args[0] == "-V"@) ==> cli_action(args) == Ok::<
            CliAction,
            Seq<char>,
        >(CliAction::Version),
        args.len() > 0 && args[0] == "--update-check"@ ==> cli_action(args) == Ok::<CliAction, Seq<char>>(
            CliAction::UpdateCheck,
        ),
        args.len() > 0 && args[0] == "--selftest"@ ==> cli_action(args) == Ok::<CliAction, Seq<char>>(
            CliAction::SelfTest,
        ),
        args.len() > 0 && args[0] == "--playlists-test"@ ==> cli_action(args) == Ok::<CliAction, Seq<char>>(
            CliAction::PlaylistsTest,
        ),
        args.len() > 0 && (args[0] == "--help"@ || args[0] == "-h"@) ==> cli_action(args) == Ok::<
            CliAction,
            Seq<char>,
        >(CliAction::Help),
        args.len() == 1 && args[0] == "--stream-test"@ ==> cli_action(args) == Err::<CliAction, Seq<char>>(
            "usage: breezer --stream-test <track_id>"@,
        ),
        args.len() >= 2 && args[0] == "--stream-test"@ ==> (match parse_u64_spec(args[1]) {
            Ok(v) => cli_action(args) == Ok::<CliAction, Seq<char>>(CliAction::StreamTest(v as u64)),
            Err(_) => cli_action(args) is Err,
        }),
        args.len() > 0 && !(args[0] == "--version"@ || args[0] == "-V"@ || args[0] == "--update-check"@ || args[0]
            == "--selftest"@ || args[0] == "--playlists-test"@ || args[0] == "--stream-test"@ || args[0]
            == "--help"@ || args[0] == "-h"@) ==> cli_action(args) == cli_action(args.drop_first()),
{
    reveal_strlit("--version");
    reveal_strlit("-V");
    reveal_strlit("--update-check");
    reveal_strlit("--selftest");
    reveal_strlit("--playlists-test");
    reveal_strlit("--stream-test");
    reveal_strlit("--help");
    reveal_strlit("-h");
    assert("--version"@.len() == 9);
    assert("-V"@.len() == 2);
    assert("--update-check"@.len() == 14);
    assert("--selftest"@.len() == 10);
    assert("--playlists-test"@.len() == 16);
    assert("--stream-test"@.len() == 13);
    assert("--help"@.len() == 6);
    assert("-h"@.len() == 2);
    assert("-V"@ != "--version"@);
    assert("--update-check"@ != "--version"@);
    assert("--update-check"@ != "-V"@);
    assert("--selftest"@ != "--version"@);
    assert("--selftest"@ != "-V"@);
    assert("--selftest"@ != "--update-check"@);
    assert("--playlists-test"@ != "--version"@);
    assert("--playlists-test"@ != "-V"@);
    assert("--playlists-test"@ != "--update-check"@);
    assert("--playlists-test"@ != "--selftest"@);
    assert("--stream-test"@ != "--version"@);
    assert("--stream-test"@ != "-V"@);
    assert("--stream-test"@ != "--update-check"@);
    assert("--stream-test"@ != "--selftest"@);
    assert("--stream-test"@ != "--playlists-test"@);
    assert("--help"@ != "--version"@);
    assert("--help"@ != "-V"@);
    assert("--help"@ != "--update-check"@);
    assert("--help"@ != "--selftest"@);
    assert("--help"@ != "--playlists-test"@);
    assert("--help"@ != "--stream-test"@);
    assert("-h"@ != "--version"@);
    assert("-h"@ != "--update-check"@);
    assert("-h"@ != "--selftest"@);
    assert("-h"@ != "--playlists-test"@);
    assert("-h"@ != "--stream-test"@);
    assert("-h"@ != "--help"@);
    assert("-V"@ != "-h"@) by {
        assert("-V"@[1] != "-h"@[1]);
    }
    assert(cli_action(Seq::<Seq<char>>::empty()) == Ok::<CliAction, Seq<char>>(CliAction::Gui));
}

/// The views of the arguments.
pub open spec fn args_view(args: Seq<String>) -> Seq<Seq<char>> {
    args.map_values(|a: String| a@)
}

/// Read the command line (without the program name).
pub fn parse_args(args: &Vec<String>) -> (r: Result<CliAction, Error>)
    ensures
        match (r, cli_action(args_view(args@))) {
            (Ok(a), Ok(b)) => a == b,
            (Err(Error::Other(m)), Err(msg)) => m@ == msg,
            _ => false,
        },
        args@.len() == 0 ==> r == Ok::<CliAction, Error>(CliAction::Gui),
        args@.len() > 0 && (args@[0]@ == "--version"@ || args@[0]@ == "-V"@) ==> r == Ok::<CliAction, Error>(
            CliAction::Version,
        ),
        args@.len() > 0 && args@[0]@ == "--update-check"@ ==> r == Ok::<CliAction, Error>(CliAction::UpdateCheck),
        args@.len() > 0 && args@[0]@ == "--selftest"@ ==> r == Ok::<CliAction, Error>(CliAction::SelfTest),
        args@.len() > 0 && args@[0]@ == "--playlists-test"@ ==> r == Ok::<CliAction, Error>(
            CliAction::PlaylistsTest,
        ),
        args@.len() > 0 && (args@[0]@ == "--help"@ || args@[0]@ == "-h"@) ==> r == Ok::<CliAction, Error>(
            CliAction::Help,
        ),
{
    let r = read_args(args);
    proof {
        lemma_first_option_decides(args_view(args@));
        if args@.len() == 0 {
            assert(args_view(args@) =~= Seq::<Seq<char>>::empty());
        } else {
            assert(args_view(args@)[0] == args@[0]@);
        }
    }
    r
}

/// The action of the arguments, read in order.
fn read_args(args: &Vec<String>) -> (r: Result<CliAction, Error>)
    ensures
        match (r, cli_action(args_view(args@))) {
            (Ok(a), Ok(b)) => a == b,
            (Err(Error::Other(m)), Err(msg)) => m@ == msg,
            _ => false,
        },
{
    let n = args.len();
    let mut i: usize = 0;
    assert(args_view(args@).skip(0) =~= args_view(args@));
    while i < n
        invariant
            n == args@.len(),
            i <= n,
            cli_action(args_view(args@).skip(i as int)) == cli_action(args_view(args@)),
        decreases n - i,
    {
        let ghost rest = args_view(args@).skip(i as int);
        assert(rest[0] == args@[i as int]@);
        assert(rest.drop_first() =~= args_view(args@).skip(i + 1));
        let a = args[i].as_str();
        if str_eq(a, "--version") || str_eq(a, "-V") {
            return Ok(CliAction::Version);
        } else if str_eq(a, "--update-check") {
            return Ok(CliAction::UpdateCheck);
        } else if str_eq(a, "--selftest") {
            return Ok(CliAction::SelfTest);
        } else if str_eq(a, "--playlists-test") {
            return Ok(CliAction::PlaylistsTest);
        } else if str_eq(a, "--stream-test") {
            if i + 1 >= n {
                return Err(Error::Other("usage: breezer --stream-test <track_id>".to_owned()));
            }
            assert(rest[1] == args@[i + 1]@);
            return match parse_u64(args[i + 1].as_str()) {
                Ok(id) => Ok(CliAction::StreamTest(id)),
                Err(k) => Err(Error::Other(concat2("invalid track id: ", int_error_message(k)))),
            };
        } else if str_eq(a, "--help") || str_eq(a, "-h") {
            return Ok(CliAction::Help);
        }
        i += 1;
    }
    Ok(CliAction::Gui)
}

/// Whether decrypted bytes start like an MP3 stream: an `ID3` tag, or an
/// MPEG frame sync (`0xFF` then three set high bits).
pub open spec fn mp3_header(b: Seq<u8>) -> bool {
    let second: u8 = if b.len() >= 2 { b[1] } else { 0u8 };
    (b.len() >= 3 && b[0] == 73 && b[1] == 68 && b[2] == 51) || (b.len() >= 1 && b[0] == 0xFF
        && second & 0xE0u8 == 0xE0u8)
}

/// Check the start of a decrypted stream for an MP3 header.
pub fn looks_like_mp3(b: &[u8]) -> (r: bool)
    ensures
        r == mp3_header(b@),
{
    if b.len() >= 3 && b[0] == 73 && b[1] == 68 && b[2] == 51 {
        return true;
    }
    if b.len() >= 1 && b[0] == 0xFF {
        let second: u8 = if b.len() >= 2 { b[1] } else { 0 };
        let masked: u8 = second & 0xE0;
        assert(second == (if b@.len() >= 2 { b@[1] } else { 0u8 }));
        return masked == 0xE0;
    }
    false
}

} // verus!
