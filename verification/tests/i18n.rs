use breezer::i18n::{parse, table_from_entries, I18n, Lang, EN, FR};

#[test]
fn lang_codes() {
    assert_eq!(Lang::from_code("fr"), Lang::Fr);
    assert_eq!(Lang::from_code("en"), Lang::En);
    assert_eq!(Lang::from_code("de"), Lang::En);
    assert_eq!(Lang::from_code("FR"), Lang::En);
    assert_eq!(Lang::En.code(), "en");
    assert_eq!(Lang::Fr.code(), "fr");
    assert_eq!(Lang::from_code(Lang::Fr.code()), Lang::Fr);
}

#[test]
fn translations_and_fallbacks() {
    let en = I18n::from_code("en");
    assert_eq!(en.lang(), Lang::En);
    assert_eq!(en.t("nav.home"), "Home");
    assert_eq!(en.t("no.such.key"), "no.such.key");
    let fr = I18n::new(Lang::Fr);
    assert_eq!(fr.lang(), Lang::Fr);
    assert_eq!(fr.t("nav.home"), "Accueil");
    assert_eq!(fr.t("no.such.key"), "no.such.key");
}

#[test]
fn french_falls_back_to_english() {
    let fr = I18n::new(Lang::Fr);
    // Every English key has a French translation.
    let en_table = parse(EN);
    let fr_table = parse(FR);
    assert_eq!(en_table.len(), fr_table.len());
    for (k, _) in &en_table {
        assert!(fr_table.iter().any(|(fk, _)| fk == k));
        assert_ne!(fr.t(k), *k);
    }
}

#[test]
fn arguments_are_substituted() {
    let en = I18n::new(Lang::En);
    assert_eq!(en.t_args("search.results", &[("count", "12"), ("query", "drake")]), "12 results for \"drake\"");
    assert_eq!(en.t_args("auth.success", &[("username", "alice")]), "Connected as alice");
    // Unknown placeholders stay, unknown keys substitute in the key itself.
    assert_eq!(en.t_args("nav.home", &[("x", "y")]), "Home");
    assert_eq!(en.t_args("{a}{a}-{b}", &[("a", "1"), ("b", "{a}")]), "11-{a}");
}

#[test]
fn table_from_entries_uses_key_for_non_strings() {
    let entries = vec![("a".to_string(), Some("x".to_string())), ("b".to_string(), None)];
    let t = table_from_entries(&entries);
    assert_eq!(t, vec![("a".to_string(), "x".to_string()), ("b".to_string(), "b".to_string())]);
}

#[test]
fn parse_rejects_non_objects() {
    assert!(parse("[1, 2]").is_empty());
    assert!(parse("not json").is_empty());
    assert_eq!(parse(r#"{"k": 3}"#), vec![("k".to_string(), "k".to_string())]);
}
