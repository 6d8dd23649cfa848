//! Auto-update decisions: which GitHub release, if any, is newer than the
//! running version. The release feed itself is fetched by the application.

use crate::api::text_or_empty;
use crate::error::Error;
use crate::text::{chars_of, concat2, string_from_chars};
use vstd::prelude::*;

verus! {

/// Current release feed.
pub const RELEASES_URL: &'static str = "https://api.github.com/repos/Breezer-App/breezer/releases/latest";

/// The User-Agent of update checks.
pub const UA: &'static str = "Breezer/0.1 (auto-update)";

#[verifier::external_type_specification]
#[verifier::external_body]
pub struct ExVersion(semver::Version);

/// The fields of a semantic version: major, minor, patch, pre-release and
/// build metadata (as text).
pub type VersionFields = (u64, u64, u64, Seq<char>, Seq<char>);

/// The version that `semver::Version::parse` reads from a text, `None` when
/// the text is not a semantic version.
pub uninterp spec fn semver_parse(text: Seq<char>) -> Option<VersionFields>;

/// Whether `a <= b` in `semver::Version`'s ordering.
pub uninterp spec fn semver_le(a: VersionFields, b: VersionFields) -> bool;

/// A parsed semantic version.
pub struct SemVersion {
    inner: semver::Version,
    major: u64,
    minor: u64,
    patch: u64,
    pre: String,
    build: String,
}

impl View for SemVersion {
    type V = VersionFields;

    closed spec fn view(&self) -> VersionFields {
        (self.major, self.minor, self.patch, self.pre@, self.build@)
    }
}

/// `semver::Version::parse(text)`, its fields read back as plain values; the
/// error becomes its message.
#[verifier::external_body]
fn parse_semver(text: &str) -> (r: Result<SemVersion, String>)
    ensures
        r is Ok <==> semver_parse(text@) is Some,
        r matches Ok(v) ==> semver_parse(text@) == Some(v@),
{
    match semver::Version::parse(text) {
        Ok(v) => Ok(SemVersion {
            major: v.major,
            minor: v.minor,
            patch: v.patch,
            pre: v.pre.as_str().to_string(),
            build: v.build.as_str().to_string(),
            inner: v,
        }),
        Err(e) => Err(e.to_string()),
    }
}

/// Whether `(a.0, a.1, a.2) < (b.0, b.1, b.2)` lexicographically.
pub open spec fn triple_lt(a: VersionFields, b: VersionFields) -> bool {
    a.0 < b.0 || (a.0 == b.0 && (a.1 < b.1 || (a.1 == b.1 && a.2 < b.2)))
}

/// `<=` of `semver::Version` (derived `Ord`: major, minor, patch, then
/// pre-release, where a release ranks above its pre-releases, then build).
#[verifier::external_body]
fn semver_le_exec(a: &SemVersion, b: &SemVersion) -> (r: bool)
    ensures
        r == semver_le(a@, b@),
        triple_lt(a@, b@) ==> r,
        triple_lt(b@, a@) ==> !r,
        a@ == b@ ==> r,
        (a@.0 == b@.0 && a@.1 == b@.1 && a@.2 == b@.2 && a@.3.len() > 0 && b@.3.len() == 0) ==> r,
        (a@.0 == b@.0 && a@.1 == b@.1 && a@.2 == b@.2 && a@.3.len() == 0 && b@.3.len() > 0) ==> !r,
{
    a.inner <= b.inner
}

impl SemVersion {
    /// Parse a semantic version; `None` when the text is not one.
    pub fn parse(text: &str) -> (r: Option<SemVersion>)
        ensures
            match r {
                Some(v) => semver_parse(text@) == Some(v@),
                None => semver_parse(text@) is None,
            },
    {
        match parse_semver(text) {
            Ok(v) => Some(v),
            Err(_) => None,
        }
    }

    /// Whether this version ranks at or below `other`: a smaller
    /// `(major, minor, patch)` ranks lower, and a pre-release ranks below its
    /// release.
    pub fn le(&self, other: &SemVersion) -> (r: bool)
        ensures
            r == semver_le(self@, other@),
            triple_lt(self@, other@) ==> r,
            triple_lt(other@, self@) ==> !r,
            self@ == other@ ==> r,
            (self@.0 == other@.0 && self@.1 == other@.1 && self@.2 == other@.2 && self@.3.len() > 0
                && other@.3.len() == 0) ==> r,
            (self@.0 == other@.0 && self@.1 == other@.1 && self@.2 == other@.2 && self@.3.len() == 0
                && other@.3.len() > 0) ==> !r,
    {
        semver_le_exec(self, other)
    }

    /// The major, minor and patch numbers.
    pub fn numbers(&self) -> (r: (u64, u64, u64))
        ensures
            r == (self@.0, self@.1, self@.2),
    {
        (self.major, self.minor, self.patch)
    }

    /// The version written out: `major.minor.patch[-pre][+build]`.
    pub fn text(&self) -> (s: String)
        ensures
            s@ == version_text(self@),
    {
        let mut out: Vec<char> = Vec::new();
        crate::media::push_decimal(&mut out, self.major);
        out.push('.');
        crate::media::push_decimal(&mut out, self.minor);
        out.push('.');
        crate::media::push_decimal(&mut out, self.patch);
        if !self.pre.as_str().is_empty() {
            out.push('-');
            crate::text::push_str_chars(&mut out, self.pre.as_str());
        }
        if !self.build.as_str().is_empty() {
            out.push('+');
            crate::text::push_str_chars(&mut out, self.build.as_str());
        }
        proof {
            let v = self@;
            assert(out@ =~= version_text(v));
        }
        string_from_chars(out.as_slice())
    }
}

/// `major.minor.patch`, then `-pre` and `+build` when present.
pub open spec fn version_text(v: VersionFields) -> Seq<char> {
    crate::media::decimal(v.0 as nat) + seq!['.'] + crate::media::decimal(v.1 as nat) + seq!['.']
        + crate::media::decimal(v.2 as nat) + (if v.3.len() > 0 { seq!['-'] + v.3 } else { seq![] }) + (
    if v.4.len() > 0 {
        seq!['+'] + v.4
    } else {
        seq![]
    })
}

/// Information about an available update.
pub struct UpdateInfo {
    pub version: SemVersion,
    pub notes: String,
    pub url: String,
}

/// What the release feed says of the latest release, as plain values.
#[derive(Debug, Clone)]
pub struct ReleaseInfo {
    /// `tag_name`, when a string.
    pub tag_name: Option<String>,
    /// `html_url`, when a string.
    pub html_url: Option<String>,
    /// `body` (the release notes), when a string.
    pub body: Option<String>,
}

/// `s` without its leading `v` characters.
pub open spec fn strip_v(s: Seq<char>) -> Seq<char>
    decreases s.len(),
{
    if s.len() > 0 && s[0] == 'v' {
        strip_v(s.drop_first())
    } else {
        s
    }
}

/// A release tag without its `breezer-` prefix, when it has one (releases are
/// tagged `breezer-vX.Y.Z`).
pub open spec fn strip_release_prefix(s: Seq<char>) -> Seq<char> {
    if s.len() >= 8 && s.take(8) == "breezer-"@ {
        s.skip(8)
    } else {
        s
    }
}

/// The version a release tag names: an optional `breezer-` prefix and the
/// leading `v`s dropped (`breezer-v0.2.0` and `v0.2.0` name `0.2.0`).
pub open spec fn release_version(release: ReleaseInfo) -> Option<VersionFields> {
    semver_parse(strip_v(strip_release_prefix(text_or_empty(release.tag_name))))
}

/// The length of the `breezer-` prefix of a tag: 8 when it has it, else 0.
fn release_prefix_len(t: &Vec<char>) -> (k: usize)
    ensures
        k == (if t@.len() >= 8 && t@.take(8) == "breezer-"@ { 8usize } else { 0usize }),
{
    let p = chars_of("breezer-");
    proof {
        reveal_strlit("breezer-");
    }
    assert(p@.len() == 8);
    if t.len() < 8 {
        return 0;
    }
    for i in 0..8
        invariant
            t@.len() >= 8,
            p@ == "breezer-"@,
            p@.len() == 8,
            forall|j: int| 0 <= j < i ==> t@[j] == p@[j],
    {
        if t[i] != p[i] {
            assert(t@.take(8)[i as int] != "breezer-"@[i as int]);
            return 0;
        }
    }
    assert(t@.take(8) =~= "breezer-"@);
    8
}

/// The running version, checked: an error names a package version that is
/// not a semantic version.
pub fn current_version(text: &str) -> (r: Result<SemVersion, Error>)
    ensures
        match r {
            Ok(v) => semver_parse(text@) == Some(v@),
            Err(e) => semver_parse(text@) is None && e is Other,
        },
{
    match parse_semver(text) {
        Ok(v) => Ok(v),
        Err(msg) => Err(Error::Other(concat2("bad package version: ", msg.as_str()))),
    }
}

/// Whether the release feed offers a version newer than `current`: `None`
/// when the tag is not a version or ranks at or below `current`; otherwise
/// the version, the release notes (empty when absent) and the release page
/// (the feed's URL when absent).
pub fn evaluate_release(current: &SemVersion, release: &ReleaseInfo) -> (r: Option<UpdateInfo>)
    ensures
        match release_version(*release) {
            None => r is None,
            Some(latest) => if semver_le(latest, current@) {
                r is None
            } else {
                r matches Some(u) && u.version@ == latest && u.notes@ == text_or_empty(release.body)
                    && u.url@ == (match release.html_url {
                    Some(h) => h@,
                    None => RELEASES_URL@,
                })
            },
        },
{
    let tag_chars = match &release.tag_name {
        Some(t) => chars_of(t.as_str()),
        None => Vec::new(),
    };
    let n = tag_chars.len();
    let mut start: usize = release_prefix_len(&tag_chars);
    assert(tag_chars@.skip(start as int) =~= strip_release_prefix(tag_chars@));
    while start < n && tag_chars[start] == 'v'
        invariant
            n == tag_chars@.len(),
            start <= n,
            strip_v(tag_chars@.skip(start as int)) == strip_v(strip_release_prefix(tag_chars@)),
        decreases n - start,
    {
        assert(tag_chars@.skip(start as int).drop_first() =~= tag_chars@.skip(start + 1));
        start += 1;
    }
    let mut rest: Vec<char> = Vec::with_capacity(n - start);
    for i in start..n
        invariant
            n == tag_chars@.len(),
            start <= n,
            rest@ =~= tag_chars@.subrange(start as int, i as int),
    {
        rest.push(tag_chars[i]);
    }
    assert(rest@ =~= tag_chars@.skip(start as int));
    let tag = string_from_chars(rest.as_slice());
    let latest = match parse_semver(tag.as_str()) {
        Ok(v) => v,
        Err(_) => {
            return None;
        },
    };
    if semver_le_exec(&latest, current) {
        return None;
    }
    let url = match &release.html_url {
        Some(h) => h.clone(),
        None => RELEASES_URL.to_owned(),
    };
    let notes = match &release.body {
        Some(b) => b.clone(),
        None => String::new(),
    };
    Some(UpdateInfo { version: latest, notes, url })
}

} // verus!
