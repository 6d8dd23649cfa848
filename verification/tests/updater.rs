use breezer::error::Error;
use breezer::updater::{current_version, evaluate_release, ReleaseInfo, SemVersion, RELEASES_URL};
use semver::Version;

#[test]
fn semver_compare() {
    assert!(Version::parse("0.2.0").unwrap() > Version::parse("0.1.9").unwrap());
    // Pre-releases sort before the release they precede.
    assert!(Version::parse("0.1.2-beta").unwrap() < Version::parse("0.1.2").unwrap());
}

fn release(tag: Option<&str>, url: Option<&str>, body: Option<&str>) -> ReleaseInfo {
    ReleaseInfo {
        tag_name: tag.map(|s| s.to_string()),
        html_url: url.map(|s| s.to_string()),
        body: body.map(|s| s.to_string()),
    }
}

#[test]
fn sem_version_order_through_the_library() {
    let a = SemVersion::parse("0.2.0").unwrap();
    let b = SemVersion::parse("0.1.9").unwrap();
    assert!(b.le(&a));
    assert!(!a.le(&b));
    let beta = SemVersion::parse("0.1.2-beta").unwrap();
    let rel = SemVersion::parse("0.1.2").unwrap();
    assert!(beta.le(&rel));
    assert!(!rel.le(&beta));
    assert_eq!(rel.numbers(), (0, 1, 2));
    assert_eq!(beta.text(), "0.1.2-beta");
    assert_eq!(SemVersion::parse("1.2.3+build.5").unwrap().text(), "1.2.3+build.5");
    assert!(SemVersion::parse("1.2").is_none());
}

#[test]
fn newer_release_is_offered() {
    let cur = current_version("0.1.0").unwrap();
    let u = evaluate_release(&cur, &release(Some("v0.2.0"), Some("https://example.org/r"), Some("notes")))
        .unwrap();
    assert_eq!(u.version.text(), "0.2.0");
    assert_eq!(u.url, "https://example.org/r");
    assert_eq!(u.notes, "notes");
}

#[test]
fn missing_url_and_notes_get_defaults() {
    let cur = current_version("0.1.0").unwrap();
    let u = evaluate_release(&cur, &release(Some("vv1.0.0"), None, None)).unwrap();
    assert_eq!(u.version.numbers(), (1, 0, 0));
    assert_eq!(u.url, RELEASES_URL);
    assert_eq!(u.notes, "");
}

#[test]
fn same_older_or_unparsable_release_is_not_offered() {
    let cur = current_version("0.1.0").unwrap();
    assert!(evaluate_release(&cur, &release(Some("v0.1.0"), None, None)).is_none());
    assert!(evaluate_release(&cur, &release(Some("0.0.9"), None, None)).is_none());
    assert!(evaluate_release(&cur, &release(Some("0.1.0-rc.1"), None, None)).is_none());
    assert!(evaluate_release(&cur, &release(Some("latest"), None, None)).is_none());
    assert!(evaluate_release(&cur, &release(None, None, None)).is_none());
}

#[test]
fn bad_package_version_is_an_error() {
    match current_version("not-a-version") {
        Err(Error::Other(m)) => assert!(m.starts_with("bad package version: ")),
        _ => panic!("expected an error"),
    }
}

#[test]
fn project_release_tags_are_read() {
    let cur = current_version("0.1.0").unwrap();
    let u = evaluate_release(&cur, &release(Some("breezer-v0.2.0"), Some("u"), Some(""))).unwrap();
    assert_eq!((u.version.text(), u.notes.as_str(), u.url.as_str()), ("0.2.0".to_string(), "", "u"));
    assert_eq!(evaluate_release(&cur, &release(Some("breezer-0.3.0"), None, None)).unwrap().version.text(), "0.3.0");
    assert!(evaluate_release(&cur, &release(Some("breezer-v0.1.0"), None, None)).is_none());
    assert!(evaluate_release(&cur, &release(Some("breezerv0.2.0"), None, None)).is_none());
}
