use scrollock::foreground::config::{ForegroundConfig, ForegroundMode};
use scrollock::foreground::filter::{AutoscrollDecision, ForegroundApp, ForegroundSourceKind};
use scrollock::foreground::matcher::{decide, normalize};


fn app_with_class(class: &str) -> ForegroundApp {
    ForegroundApp {
        app_id: None,
        class: Some(class.to_owned()),
        resource_class: None,
        title: None,
        pid: None,
        source: ForegroundSourceKind::Unknown,
    }
}

fn denylist(entries: &[&str]) -> ForegroundConfig {
    ForegroundConfig {
        enabled: true,
        mode: ForegroundMode::Denylist,
        deny_apps: entries.iter().map(|s| (*s).to_owned()).collect(),
        ..ForegroundConfig::default()
    }
}

fn allowlist(entries: &[&str]) -> ForegroundConfig {
    ForegroundConfig {
        enabled: true,
        mode: ForegroundMode::Allowlist,
        allow_apps: entries.iter().map(|s| (*s).to_owned()).collect(),
        ..ForegroundConfig::default()
    }
}

#[test]
fn normalize_lowercases_trims_and_drops_desktop_suffix() {
    assert_eq!(normalize("  Firefox.desktop "), "firefox");
    assert_eq!(normalize("Org.Mozilla.Firefox"), "org.mozilla.firefox");
}

#[test]
fn denylist_match_is_case_insensitive() {
    let cfg = denylist(&["FireFox"]);
    assert_eq!(
        decide(&app_with_class("firefox"), &cfg),
        AutoscrollDecision::Disabled
    );
}

#[test]
fn denylist_non_match_stays_enabled() {
    let cfg = denylist(&["firefox"]);
    assert_eq!(
        decide(&app_with_class("code"), &cfg),
        AutoscrollDecision::Enabled
    );
}

#[test]
fn allowlist_only_enables_listed_apps() {
    let cfg = allowlist(&["code"]);
    assert_eq!(
        decide(&app_with_class("code"), &cfg),
        AutoscrollDecision::Enabled
    );
    assert_eq!(
        decide(&app_with_class("firefox"), &cfg),
        AutoscrollDecision::Disabled
    );
}

#[test]
fn desktop_suffix_ignored_on_both_sides() {
    let cfg = denylist(&["firefox.desktop"]);
    assert_eq!(
        decide(&app_with_class("firefox"), &cfg),
        AutoscrollDecision::Disabled
    );
}

#[test]
fn title_ignored_unless_match_title() {
    let app = ForegroundApp {
        app_id: None,
        class: Some("code".to_owned()),
        resource_class: None,
        title: Some("firefox".to_owned()),
        pid: None,
        source: ForegroundSourceKind::Unknown,
    };

    let cfg = denylist(&["firefox"]);
    assert_eq!(decide(&app, &cfg), AutoscrollDecision::Enabled);

    let cfg_title = ForegroundConfig {
        match_title: true,
        ..denylist(&["firefox"])
    };
    assert_eq!(decide(&app, &cfg_title), AutoscrollDecision::Disabled);
}

#[test]
fn matches_app_id_and_resource_class_fields() {
    let app = ForegroundApp {
        app_id: Some("org.mozilla.firefox".to_owned()),
        class: None,
        resource_class: Some("Navigator".to_owned()),
        title: None,
        pid: None,
        source: ForegroundSourceKind::Unknown,
    };
    assert_eq!(
        decide(&app, &denylist(&["org.mozilla.firefox"])),
        AutoscrollDecision::Disabled
    );
    assert_eq!(
        decide(&app, &denylist(&["navigator"])),
        AutoscrollDecision::Disabled
    );
}

#[test]
fn one_suffix_is_dropped_in_any_case() {
    assert_eq!(normalize("a.desktop.desktop"), "a.desktop");
    assert_eq!(normalize("A.Desktop"), "a");
    assert_eq!(normalize(" B.DESKTOP\t"), "b");
    for class in ["firefox.DESKTOP", "FireFox.desktop", "FIREFOX"] {
        for entry in ["firefox", "Firefox.Desktop", "FIREFOX.DESKTOP"] {
            assert_eq!(
                decide(&app_with_class(class), &denylist(&[entry])),
                AutoscrollDecision::Disabled
            );
        }
    }
    assert_eq!(normalize(".desktop"), "");
    assert_eq!(normalize("  \u{a0}x y\t"), "x y");
    assert_eq!(normalize("ÄB"), "Äb");
}

#[test]
fn empty_lists_match_nothing() {
    assert_eq!(
        decide(&app_with_class("code"), &denylist(&[])),
        AutoscrollDecision::Enabled
    );
    assert_eq!(
        decide(&app_with_class("code"), &allowlist(&[])),
        AutoscrollDecision::Disabled
    );
}

#[test]
fn an_application_without_identity_is_on_no_list() {
    assert_eq!(
        decide(&ForegroundApp::default(), &allowlist(&["", "code"])),
        AutoscrollDecision::Disabled
    );
}
