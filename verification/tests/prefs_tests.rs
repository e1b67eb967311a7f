use harnex::prefs::parse_value;
use harnex::theme::parse_preference;

#[test]
fn parses_theme_system() {
    let yaml = "ui-theme:\n  preference: system\npet:\n  visible: true\n";
    assert_eq!(
        parse_value(yaml, "ui-theme", "preference").as_deref(),
        Some("system")
    );
}

#[test]
fn parses_theme_dark() {
    let yaml = "ui-theme:\n  preference: 'dark'\n";
    assert_eq!(
        parse_value(yaml, "ui-theme", "preference").as_deref(),
        Some("dark")
    );
}

#[test]
fn parses_locale_zh() {
    let yaml = "locale:\n  preference: zh\n";
    assert_eq!(
        parse_value(yaml, "locale", "preference").as_deref(),
        Some("zh")
    );
}

#[test]
fn prefs_ignores_other_sections() {
    let yaml = "pet:\n  preference: 160\nlocale:\n  preference: en\n";
    assert_eq!(
        parse_value(yaml, "locale", "preference").as_deref(),
        Some("en")
    );
}

#[test]
fn prefs_missing_returns_none() {
    assert_eq!(
        parse_value("pet:\n  visible: true\n", "ui-theme", "preference"),
        None
    );
}

#[test]
fn parses_system() {
    let yaml = "ui-theme:\n  preference: system\npet:\n  visible: true\n";
    assert_eq!(parse_preference(yaml).as_deref(), Some("system"));
}

#[test]
fn parses_dark() {
    let yaml = "ui-theme:\n  preference: 'dark'\n";
    assert_eq!(parse_preference(yaml).as_deref(), Some("dark"));
}

#[test]
fn theme_ignores_other_sections() {
    let yaml = "pet:\n  preference: 160\nui-theme:\n  preference: light\n";
    assert_eq!(parse_preference(yaml).as_deref(), Some("light"));
}

#[test]
fn theme_missing_returns_none() {
    assert_eq!(parse_preference("pet:\n  visible: true\n"), None);
}

#[test]
fn crlf_lines_and_double_quotes() {
    let yaml = "ui-theme:\r\n  preference: \"light\"\r\n";
    assert_eq!(parse_preference(yaml).as_deref(), Some("light"));
}

#[test]
fn empty_value_is_skipped_for_a_later_one() {
    let yaml = "ui-theme:\n  preference: ''\n  preference: dark\n";
    assert_eq!(parse_preference(yaml).as_deref(), Some("dark"));
}

#[test]
fn blank_lines_keep_the_section_open() {
    let yaml = "ui-theme:\n\n  other: 1\n\n  preference: dark\n";
    assert_eq!(parse_preference(yaml).as_deref(), Some("dark"));
}

#[test]
fn top_level_key_alone_is_not_an_entry() {
    let yaml = "preference: dark\nui-theme:\n  preference:   \n";
    assert_eq!(parse_preference(yaml), None);
}

#[test]
fn section_prefix_match_opens_the_section() {
    // `ui-theme-x:` starts with `ui-theme` but not with `ui-theme:`.
    let yaml = "ui-theme-x:\n  preference: dark\n";
    assert_eq!(parse_preference(yaml), None);
    let yaml = "ui-theme: {}\n  preference: dark\n";
    assert_eq!(parse_preference(yaml).as_deref(), Some("dark"));
}

#[test]
fn tabs_and_unicode_whitespace_are_trimmed() {
    let yaml = "locale:\n\t\u{3000}preference:\t en \u{a0}\n";
    assert_eq!(parse_value(yaml, "locale", "preference").as_deref(), Some("en"));
}

#[test]
fn empty_text_gives_none() {
    assert_eq!(parse_value("", "locale", "preference"), None);
}

use harnex::prefs::{dsh_home, settings_path, PrefsWatch};
use harnex::theme::ThemeWatch;

#[test]
fn watch_sends_changes_only() {
    let mut w = PrefsWatch::new();
    let (t, l) = w.observe(Some("ui-theme:\n  preference: dark\n"));
    assert_eq!(t.unwrap().preference, "dark");
    assert!(l.is_none());
    let (t, l) = w.observe(Some("ui-theme:\n  preference: dark\n"));
    assert!(t.is_none());
    assert!(l.is_none());
    let (t, l) = w.observe(Some("locale:\n  preference: en\n"));
    assert_eq!(t.unwrap().preference, "system");
    assert_eq!(l.unwrap().preference, "en");
    let (t, l) = w.observe(None);
    assert!(t.is_none());
    assert_eq!(l.unwrap().preference, "");
}

#[test]
fn first_reading_of_nothing_sends_nothing() {
    let mut w = PrefsWatch::new();
    let (t, l) = w.observe(None);
    assert!(t.is_none() && l.is_none());
    let mut tw = ThemeWatch::new();
    assert!(tw.observe(Some("pet:\n  visible: true\n")).is_none());
    assert_eq!(tw.observe(Some("ui-theme:\n  preference: light\n")).unwrap().preference, "light");
    assert_eq!(tw.observe(None).unwrap().preference, "system");
}

#[test]
fn dsh_home_prefers_the_variable() {
    assert_eq!(
        dsh_home(Some("/srv/dsh".to_string()), Some("/u".to_string()), None).as_deref(),
        Some("/srv/dsh")
    );
    let home = dsh_home(Some("  ".to_string()), None, Some("/home/a".to_string())).unwrap();
    assert!(home.starts_with("/home/a"));
    assert!(home.ends_with(".dsh"));
    assert_eq!(home.len(), "/home/a".len() + 1 + ".dsh".len());
    assert_eq!(dsh_home(None, None, None), None);
}

#[test]
fn settings_file_is_inside_the_home() {
    let p = settings_path(Some("/home/a/.dsh".to_string())).unwrap();
    assert!(p.starts_with("/home/a/.dsh"));
    assert!(p.ends_with("settings.yaml"));
    assert_eq!(settings_path(None), None);
}

#[test]
fn inserted_blank_lines_change_nothing() {
    let cases = [
        ("ui-theme:\n", "pet:\n  preference: 1\n"),
        ("", "ui-theme:\n  preference: dark\n"),
        ("ui-theme:\n", "  preference: dark\n"),
        ("pet:\n", "ui-theme:\n  preference: 'x'\n"),
    ];
    for (c1, c2) in cases {
        for w in ["", " ", "\t \t", "   \r"] {
            let with_blank = format!("{c1}{w}\n{c2}");
            let without = format!("{c1}{c2}");
            assert_eq!(
                parse_value(&with_blank, "ui-theme", "preference"),
                parse_value(&without, "ui-theme", "preference"),
            );
        }
    }
}

#[test]
fn joining_adds_no_separator_where_none_is_needed() {
    assert_eq!(dsh_home(None, Some(String::new()), None).as_deref(), Some(".dsh"));
    assert_eq!(settings_path(Some("/h/".to_string())).as_deref(), Some("/h/settings.yaml"));
}
