use scrollock::foreground::config::ForegroundProviderKind as Kind;
use scrollock::foreground::filter::{
    ForegroundApp, ForegroundProvider, ForegroundSnapshot, ForegroundSourceKind,
};
use scrollock::foreground::providers::command::{parse_stdout, snapshot_of_json, snapshot_of_run};
use scrollock::foreground::providers::gnome::{
    app_of_payload, extract_gvariant_string, parse_call_output, parse_monitor_line,
};
use scrollock::foreground::providers::hyprland::{
    hypr_base_dirs, parse_event_line, signature_sockets,
};
use scrollock::foreground::providers::kde::{app_from_class, is_window_id, parse_class_output};
use scrollock::foreground::providers::newest::newest;
use scrollock::foreground::providers::selection::{
    begin_filter_selection, begin_selection, resume_selection, select_provider, Availability,
    ProviderChoice, Selection, Session,
};
use scrollock::foreground::providers::shared::{
    helper_available, name_has_owner, next_backoff, refresh_interval, says_true, wait_step,
    HelperRun, WaitStep,
};
use scrollock::foreground::providers::{
    gnome, hyprland, kde, sway, CommandProvider, GnomeProvider, HyprlandProvider, KdeProvider,
    NoneProvider, SwayProvider,
};
use scrollock::foreground::ForegroundConfig;
use scrollock::json::{parse_text, Json};

#[test]
fn plain_text_is_app_id_and_class() {
    let snap = parse_stdout("org.mozilla.firefox\n");
    match snap {
        ForegroundSnapshot::Known(app) => {
            assert_eq!(app.app_id.as_deref(), Some("org.mozilla.firefox"));
            assert_eq!(app.class.as_deref(), Some("org.mozilla.firefox"));
            assert_eq!(app.source, ForegroundSourceKind::Command);
        }
        other => panic!("expected Known, got {other:?}"),
    }
}

#[test]
fn full_json_is_parsed() {
    let snap = parse_stdout(
        r#"{"app_id":"org.mozilla.firefox","class":"firefox","title":"Mozilla Firefox","pid":12345}"#,
    );
    match snap {
        ForegroundSnapshot::Known(app) => {
            assert_eq!(app.app_id.as_deref(), Some("org.mozilla.firefox"));
            assert_eq!(app.class.as_deref(), Some("firefox"));
            assert_eq!(app.title.as_deref(), Some("Mozilla Firefox"));
            assert_eq!(app.pid, Some(12345));
        }
        other => panic!("expected Known, got {other:?}"),
    }
}

#[test]
fn partial_json_keeps_present_fields() {
    let snap = parse_stdout(r#"{"class":"krita"}"#);
    match snap {
        ForegroundSnapshot::Known(app) => {
            assert_eq!(app.class.as_deref(), Some("krita"));
            assert!(app.app_id.is_none());
            assert!(app.pid.is_none());
        }
        other => panic!("expected Known, got {other:?}"),
    }
}

#[test]
fn empty_stdout_is_unknown() {
    assert!(matches!(
        parse_stdout("   \n"),
        ForegroundSnapshot::Unknown { .. }
    ));
}

#[test]
fn invalid_json_is_unknown() {
    assert!(matches!(
        parse_stdout("{not json"),
        ForegroundSnapshot::Unknown { .. }
    ));
}


#[test]
fn parses_get_focused_tuple() {
    let out = r#"('{"app_id":"org.mozilla.firefox","class":"firefox","title":"X","pid":7}',)"#;
    let app = parse_call_output(out).expect("parsed");
    assert_eq!(app.app_id.as_deref(), Some("org.mozilla.firefox"));
    assert_eq!(app.class.as_deref(), Some("firefox"));
    assert_eq!(app.pid, Some(7));
    assert_eq!(app.source, ForegroundSourceKind::Gnome);
}

#[test]
fn parses_monitor_signal_line() {
    let line = "/org/docloulou/WheeltaniForeground: org.docloulou.WheeltaniForeground.FocusedChanged ('{\"class\":\"code\"}',)";
    let app = parse_monitor_line(line).expect("parsed");
    assert_eq!(app.class.as_deref(), Some("code"));
}

#[test]
fn ignores_unrelated_monitor_lines() {
    let line = "/org/docloulou/WheeltaniForeground: org.freedesktop.DBus.NameAcquired ('x',)";
    assert!(parse_monitor_line(line).is_none());
}

#[test]
fn empty_object_is_no_window() {
    let out = "('{}',)";
    assert!(parse_call_output(out).is_none());
}

#[test]
fn handles_escaped_quotes_in_title() {
    let line = r#"x FocusedChanged ('{"class":"code","title":"it\'s fine"}',)"#;
    let app = parse_monitor_line(line).expect("parsed");
    assert_eq!(app.class.as_deref(), Some("code"));
    assert_eq!(app.title.as_deref(), Some("it's fine"));
}


#[test]
fn parses_activewindow_class_and_title() {
    let app = parse_event_line("activewindow>>firefox,Mozilla Firefox").expect("parsed");
    assert_eq!(app.class.as_deref(), Some("firefox"));
    assert_eq!(app.title.as_deref(), Some("Mozilla Firefox"));
    assert_eq!(app.source, ForegroundSourceKind::Hyprland);
}

#[test]
fn parses_empty_activewindow() {
    let app = parse_event_line("activewindow>>,").expect("parsed");
    assert!(app.class.is_none());
    assert!(app.title.is_none());
}

#[test]
fn title_with_commas_is_kept_whole() {
    let app = parse_event_line("activewindow>>code,main.rs, project, vim").expect("parsed");
    assert_eq!(app.class.as_deref(), Some("code"));
    assert_eq!(app.title.as_deref(), Some("main.rs, project, vim"));
}

#[test]
fn ignores_other_events() {
    assert!(parse_event_line("windowtitlev2>>0x123,Title").is_none());
    assert!(parse_event_line("workspace>>1").is_none());
}


#[test]
fn parses_plain_class() {
    assert_eq!(parse_class_output("firefox\n").as_deref(), Some("firefox"));
}

#[test]
fn parses_desktop_id_class() {
    assert_eq!(
        parse_class_output("org.kde.dolphin\n").as_deref(),
        Some("org.kde.dolphin")
    );
}

#[test]
fn ignores_leading_window_id_line() {
    // If kdotool ever echoes the window id before the class, take the class.
    let out = "{2f4a1c0e-0000-0000-0000-000000000000}\nkonsole\n";
    assert_eq!(parse_class_output(out).as_deref(), Some("konsole"));
}

#[test]
fn empty_output_is_none() {
    assert!(parse_class_output("   \n").is_none());
}

#[test]
fn only_window_id_is_none() {
    assert!(parse_class_output("{2f4a1c0e-aaaa}\n").is_none());
}

#[test]
fn app_from_class_sets_class_and_resource_class() {
    let app = app_from_class("org.kde.dolphin");
    assert_eq!(app.class.as_deref(), Some("org.kde.dolphin"));
    assert_eq!(app.resource_class.as_deref(), Some("org.kde.dolphin"));
    assert!(app.app_id.is_none());
    assert_eq!(app.source, ForegroundSourceKind::Kde);
}

#[test]
fn trims_surrounding_whitespace() {
    assert_eq!(
        parse_class_output("   firefox  \n").as_deref(),
        Some("firefox")
    );
}

#[test]
fn handles_crlf_line_endings() {
    assert_eq!(
        parse_class_output("org.kde.konsole\r\n").as_deref(),
        Some("org.kde.konsole")
    );
}

#[test]
fn ignores_blank_lines_around_class() {
    assert_eq!(
        parse_class_output("\n\n  brave-browser \n\n").as_deref(),
        Some("brave-browser")
    );
}

#[test]
fn picks_last_non_id_line() {
    // Defensive: if kdotool ever emitted several lines, the class is last.
    let out = "{2f4a1c0e-aaaa}\nfirst\nsecond\n";
    assert_eq!(parse_class_output(out).as_deref(), Some("second"));
}

#[test]
fn window_id_among_classes_is_skipped() {
    let out = "konsole\n{2f4a1c0e-bbbb}\n";
    assert_eq!(parse_class_output(out).as_deref(), Some("konsole"));
}

#[test]
fn preserves_dotted_class_unchanged() {
    // Matching/normalization happens later; the provider must not mangle it.
    assert_eq!(
        parse_class_output("org.mozilla.firefox\n").as_deref(),
        Some("org.mozilla.firefox")
    );
}

#[test]
fn is_window_id_recognises_braced_uuid_only() {
    assert!(is_window_id("{2f4a1c0e-0000-0000-0000-000000000000}"));
    assert!(!is_window_id("firefox"));
    assert!(!is_window_id("org.kde.dolphin"));
    assert!(!is_window_id("{not-closed"));
    assert!(!is_window_id("not-opened}"));
}

#[test]
fn app_from_x_app_class_keeps_wm_class() {
    let app = app_from_class("firefox");
    assert_eq!(app.class.as_deref(), Some("firefox"));
    assert_eq!(app.resource_class.as_deref(), Some("firefox"));
    assert!(app.title.is_none());
    assert!(app.pid.is_none());
}

fn exited(success: bool, stdout: &str, stderr: &str) -> HelperRun {
    HelperRun::Exited {
        success,
        status: "exit status: 1".to_owned(),
        stdout: stdout.as_bytes().to_vec(),
        stderr: stderr.as_bytes().to_vec(),
    }
}

fn failed() -> HelperRun {
    HelperRun::Failed {
        error: "not found".to_owned(),
    }
}

fn unknown(reason: &str) -> ForegroundSnapshot {
    ForegroundSnapshot::Unknown {
        reason: reason.to_owned(),
    }
}

fn unsupported(reason: &str) -> ForegroundSnapshot {
    ForegroundSnapshot::Unsupported {
        reason: reason.to_owned(),
    }
}

#[test]
fn none_provider_says_why() {
    assert_eq!(
        NoneProvider::new("because".to_owned()).snapshot(),
        unsupported("because")
    );
}

#[test]
fn helpers_are_waited_for_up_to_their_time() {
    assert_eq!(wait_step(true, 9000, 5000), WaitStep::Collect);
    assert_eq!(wait_step(false, 5000, 5000), WaitStep::Kill);
    assert_eq!(wait_step(false, 4999, 5000), WaitStep::Sleep);
}

#[test]
fn pauses_double_up_to_two_seconds() {
    let mut pause = 250;
    let mut seen = Vec::new();
    for _ in 0..5 {
        seen.push(pause);
        pause = next_backoff(pause);
    }
    assert_eq!(seen, vec![250, 500, 1000, 2000, 2000]);
    assert_eq!(next_backoff(u64::MAX), 2000);
    assert_eq!(refresh_interval(0, 50), 50);
    assert_eq!(refresh_interval(51, 50), 51);
}

#[test]
fn bus_replies_are_read() {
    assert!(says_true("(true,)"));
    assert!(!says_true("(false,)"));
    assert!(name_has_owner(&exited(true, "(true,)\n", "")));
    assert!(!name_has_owner(&exited(false, "(true,)", "")));
    assert!(!name_has_owner(&exited(true, "(false,)", "")));
    assert!(!name_has_owner(&HelperRun::TimedOut));
    assert!(!name_has_owner(&failed()));
    assert!(helper_available(&exited(false, "", "")));
    assert!(!helper_available(&HelperRun::TimedOut));
    assert!(!helper_available(&failed()));
}

#[test]
fn bytes_that_are_no_text_are_replaced() {
    let mut provider = CommandProvider::start(&["x".to_owned()]);
    provider.observe(
        &["x".to_owned()],
        &HelperRun::Exited {
            success: true,
            status: String::new(),
            stdout: vec![b'a', 0xff, b'b', b'\n'],
            stderr: Vec::new(),
        },
    );
    match provider.snapshot() {
        ForegroundSnapshot::Known(app) => assert_eq!(app.app_id.as_deref(), Some("a\u{fffd}b")),
        other => panic!("expected Known, got {other:?}"),
    }
}

#[test]
fn command_runs_are_reported() {
    let command = vec!["x".to_owned()];
    assert_eq!(
        CommandProvider::start(&[]).snapshot(),
        unsupported("foreground.command is empty")
    );
    let mut provider = CommandProvider::start(&command);
    assert_eq!(provider.snapshot(), unknown("command provider starting"));
    provider.observe(&command, &exited(false, "code", ""));
    assert_eq!(
        provider.snapshot(),
        unknown("command exited with exit status: 1")
    );
    provider.observe(&command, &HelperRun::TimedOut);
    assert_eq!(provider.snapshot(), unknown("command timed out (killed)"));
    provider.observe(&command, &failed());
    assert_eq!(provider.snapshot(), unknown("command failed to run: not found"));
    provider.spawn_failed("no threads");
    assert_eq!(
        provider.snapshot(),
        unsupported("failed to spawn command thread: no threads")
    );
    assert_eq!(
        snapshot_of_run(&[], &failed()),
        unsupported("foreground.command is empty")
    );
}

#[test]
fn only_the_first_line_of_the_output_counts() {
    match parse_stdout("\n  first app \nsecond\n") {
        ForegroundSnapshot::Known(app) => {
            assert_eq!(app.app_id.as_deref(), Some("first app"));
            assert!(app.resource_class.is_none());
        }
        other => panic!("expected Known, got {other:?}"),
    }
}

#[test]
fn complaints_about_json_are_passed_on() {
    let message = serde_json::from_str::<serde_json::Value>("{not json")
        .unwrap_err()
        .to_string();
    assert_eq!(
        parse_stdout("{not json"),
        unknown(&format!("invalid JSON from command: {message}"))
    );
    assert_eq!(
        snapshot_of_json(Err("oops".to_owned())),
        unknown("invalid JSON from command: oops")
    );
}

#[test]
fn json_is_read_as_it_is() {
    let json = parse_text(
        r#"{"t":" x ","n":7,"f":1.5,"neg":-1,"b":true,"z":null,"a":[1,"two",{"k":"v"}],"n":8}"#,
    )
    .expect("parsed");
    assert_eq!(json.text_field("t"), Some(" x "));
    assert_eq!(json.u64_field("n"), Some(8));
    assert_eq!(json.u64_field("f"), None);
    assert_eq!(json.u64_field("neg"), None);
    assert_eq!(json.bool_field("b"), Some(true));
    assert_eq!(json.bool_field("t"), None);
    assert!(matches!(json.get("z"), Some(Json::Null)));
    assert!(json.get("missing").is_none());
    let items = json.array_field("a").expect("an array");
    assert_eq!(items.len(), 3);
    assert!(matches!(items[0], Json::Number(Some(1))));
    assert_eq!(items[2].text_field("k"), Some("v"));
    assert!(items[0].get("k").is_none());
}

#[test]
fn fields_are_trimmed_and_pids_are_bounded() {
    match parse_stdout(r#"{"app_id":"  a ","class":"   ","title":5,"pid":4294967296}"#) {
        ForegroundSnapshot::Known(app) => assert_eq!(
            app,
            ForegroundApp {
                app_id: Some("a".to_owned()),
                source: ForegroundSourceKind::Command,
                ..ForegroundApp::default()
            }
        ),
        other => panic!("expected Known, got {other:?}"),
    }
}

#[test]
fn gnome_calls_are_followed() {
    assert!(gnome::is_available(
        &exited(false, "", ""),
        &exited(true, "(true,)", "")
    ));
    assert!(!gnome::is_available(&failed(), &exited(true, "(true,)", "")));
    assert_eq!(
        GnomeProvider::start(&failed()).snapshot(),
        unsupported("gdbus not found (install glib2 / gdbus)")
    );
    let mut provider = GnomeProvider::start(&exited(true, "", ""));
    assert_eq!(provider.snapshot(), unknown("gnome provider starting"));
    provider.observe_first(&exited(false, "", "down"));
    provider.observe_first(&exited(true, "('{}',)", ""));
    assert_eq!(provider.snapshot(), unknown("gnome provider starting"));
    provider.observe_first(&exited(true, r#"('{"class":"code"}',)"#, ""));
    assert!(matches!(provider.snapshot(), ForegroundSnapshot::Known(_)));
    provider.observe_resync(&exited(true, "('{}',)", ""));
    assert!(matches!(provider.snapshot(), ForegroundSnapshot::Known(_)));
    provider.observe_resync(&exited(false, "", "  gone \n"));
    assert_eq!(provider.snapshot(), unknown("gdbus call failed: gone"));
    provider.observe_resync(&HelperRun::TimedOut);
    assert_eq!(provider.snapshot(), unknown("gdbus call timed out"));
    provider.observe_resync(&failed());
    assert_eq!(provider.snapshot(), unknown("failed to run gdbus: not found"));
    assert_eq!(provider.monitor_ended(), 250);
    assert_eq!(provider.monitor_ended(), 500);
    provider.observe_line("noise");
    assert_eq!(provider.snapshot(), unknown("failed to run gdbus: not found"));
    assert_eq!(provider.monitor_ended(), 250);
    provider.observe_line(r#"x FocusedChanged ('{"class":"code"}',)"#);
    assert!(matches!(provider.snapshot(), ForegroundSnapshot::Known(_)));
}

#[test]
fn quoted_texts_are_unescaped() {
    assert_eq!(
        extract_gvariant_string(r"x 'a\'b\\c' 'd'").as_deref(),
        Some(r"a'b\c")
    );
    assert!(extract_gvariant_string("no quotes").is_none());
    assert!(extract_gvariant_string("'open").is_none());
    assert!(extract_gvariant_string(r"'open\").is_none());
    assert_eq!(extract_gvariant_string("''").as_deref(), Some(""));
}

#[test]
fn payloads_without_identity_are_no_window() {
    assert!(app_of_payload(&Json::Object(vec![(
        "title".to_owned(),
        Json::Text("t".to_owned())
    )]))
    .is_none());
    let app = app_of_payload(&Json::Object(vec![(
        "resource_class".to_owned(),
        Json::Text("r".to_owned()),
    )]))
    .expect("identified");
    assert_eq!(app.resource_class.as_deref(), Some("r"));
    assert!(parse_call_output("('not json',)").is_none());
    assert!(parse_call_output("('   ',)").is_none());
}

#[test]
fn kde_runs_are_reported() {
    assert!(kde::is_available(
        &exited(true, "(true,)", ""),
        &exited(false, "", "")
    ));
    assert!(!kde::is_available(&exited(true, "(true,)", ""), &failed()));
    assert_eq!(
        KdeProvider::start(&failed()).snapshot(),
        unsupported("kdotool not found (install kdotool for KDE support)")
    );
    let mut provider = KdeProvider::start(&exited(true, "", ""));
    assert_eq!(provider.snapshot(), unknown("kde provider starting"));
    provider.observe(&exited(true, "{1}\nkonsole\n", ""));
    assert_eq!(
        provider.snapshot(),
        ForegroundSnapshot::Known(app_from_class("konsole"))
    );
    provider.observe(&exited(true, "{1}\n", ""));
    assert_eq!(
        provider.snapshot(),
        unknown("kdotool reported no active window")
    );
    provider.observe(&exited(false, "konsole", ""));
    assert_eq!(
        provider.snapshot(),
        unknown("kdotool exited with exit status: 1")
    );
    provider.observe(&HelperRun::TimedOut);
    assert_eq!(provider.snapshot(), unknown("kdotool timed out (killed)"));
    provider.observe(&failed());
    assert_eq!(provider.snapshot(), unknown("failed to run kdotool: not found"));
    provider.spawn_failed("x");
    assert_eq!(
        provider.snapshot(),
        unsupported("failed to spawn kde thread: x")
    );
}

#[test]
fn hyprland_lines_are_followed() {
    let mut provider = HyprlandProvider::start();
    assert_eq!(provider.snapshot(), unknown("hyprland provider starting"));
    assert_eq!(provider.stream_ended(), 250);
    assert_eq!(provider.stream_ended(), 500);
    provider.observe_line("workspace>>1");
    assert_eq!(provider.stream_ended(), 250);
    assert_eq!(provider.snapshot(), unknown("hyprland provider starting"));
    provider.observe_line("activewindow>>  code  ");
    match provider.snapshot() {
        ForegroundSnapshot::Known(app) => {
            assert_eq!(app.class.as_deref(), Some("code"));
            assert!(app.title.is_none());
        }
        other => panic!("expected Known, got {other:?}"),
    }
    assert_eq!(provider.socket_missing(), 2000);
    assert!(matches!(
        provider.snapshot(),
        ForegroundSnapshot::Unsupported { .. }
    ));
    provider.spawn_failed("x");
    assert_eq!(
        provider.snapshot(),
        unsupported("failed to spawn hyprland thread: x")
    );
    assert!(hyprland::is_available(Some(true)));
    assert!(!hyprland::is_available(Some(false)));
    assert!(!hyprland::is_available(None));
}

#[test]
fn hyprland_sockets_are_looked_for_in_order() {
    assert_eq!(hypr_base_dirs(None), vec!["/tmp/hypr"]);
    assert_eq!(hypr_base_dirs(Some("")), vec!["/tmp/hypr"]);
    let bases = hypr_base_dirs(Some("/run/user/1000"));
    assert_eq!(bases, vec!["/run/user/1000/hypr", "/tmp/hypr"]);
    assert_eq!(
        signature_sockets(&bases, Some("abc")),
        vec![
            "/run/user/1000/hypr/abc/.socket2.sock",
            "/tmp/hypr/abc/.socket2.sock"
        ]
    );
    assert!(signature_sockets(&bases, Some("")).is_empty());
    assert!(signature_sockets(&bases, None).is_empty());
}

#[test]
fn the_newest_socket_is_the_first_of_the_latest() {
    assert_eq!(newest(&[]), None);
    assert_eq!(newest(&[5]), Some(0));
    assert_eq!(newest(&[1, 7, 3, 7]), Some(1));
    assert_eq!(newest(&[-9, -2, -5]), Some(1));
}

#[test]
fn sway_session_is_followed() {
    let mut provider = SwayProvider::start();
    assert_eq!(provider.snapshot(), unknown("sway provider starting"));
    assert_eq!(provider.session_ended(), 250);
    assert_eq!(provider.session_ended(), 500);
    provider.subscribed();
    assert_eq!(provider.session_ended(), 250);
    provider.observe_tree(br#"{"focused":false,"nodes":[]}"#);
    assert_eq!(provider.snapshot(), unknown("no focused window in sway tree"));
    assert!(!provider.observe_event(br#"{"change":"focus","container":{"app_id":"a"}}"#));
    assert!(matches!(provider.snapshot(), ForegroundSnapshot::Known(_)));
    provider.observe_tree(b"garbage");
    assert!(matches!(provider.snapshot(), ForegroundSnapshot::Known(_)));
    assert!(provider.observe_event(br#"{"change":"close"}"#));
    assert!(provider.observe_event(br#"{"change":"focus"}"#));
    assert!(!provider.observe_event(br#"{"change":"title"}"#));
    assert!(!provider.observe_event(br#"{}"#));
    provider.observe_tree(br#"{"nodes":[{"focused":true,"app_id":"b"}]}"#);
    match provider.snapshot() {
        ForegroundSnapshot::Known(app) => assert_eq!(app.app_id.as_deref(), Some("b")),
        other => panic!("expected Known, got {other:?}"),
    }
    assert_eq!(provider.socket_missing(), 2000);
    assert_eq!(provider.snapshot(), unsupported("SWAYSOCK/I3SOCK unset"));
    provider.spawn_failed("x");
    assert_eq!(
        provider.snapshot(),
        unsupported("failed to spawn sway thread: x")
    );
}

#[test]
fn sway_sockets_are_known_by_name() {
    assert!(sway::is_socket_name("sway-ipc.1000.42.sock"));
    assert!(!sway::is_socket_name("sway-ipc.1000.42"));
    assert!(!sway::is_socket_name("x-sway-ipc.sock"));
    assert_eq!(
        sway::advertised_socket(Some("/a"), Some("/b")),
        Some("/a")
    );
    assert_eq!(sway::advertised_socket(Some(""), Some("/b")), Some("/b"));
    assert_eq!(sway::advertised_socket(None, Some("")), None);
    assert!(sway::is_available(Some(true)));
    assert!(!sway::is_available(None));
}

fn config(provider: scrollock::foreground::config::ForegroundProviderKind) -> ForegroundConfig {
    ForegroundConfig {
        enabled: true,
        provider,
        command: vec!["cmd".to_owned()],
        ..ForegroundConfig::default()
    }
}

#[test]
fn explicit_providers_are_selected_as_they_are() {
    let nothing = Availability {
        hyprland: false,
        sway: false,
        gnome: false,
        kde: false,
    };
    let chosen = |kind| select_provider(&config(kind), &nothing);
    assert!(matches!(
        chosen(Kind::NoProvider),
        ProviderChoice::NoProvider { reason } if reason == "provider set to none"
    ));
    assert!(matches!(chosen(Kind::Hyprland), ProviderChoice::Hyprland));
    assert!(matches!(chosen(Kind::Sway), ProviderChoice::Sway));
    assert!(matches!(chosen(Kind::Gnome), ProviderChoice::Gnome));
    assert!(matches!(
        chosen(Kind::Kde),
        ProviderChoice::Kde { refresh_ms: 500 }
    ));
    assert!(matches!(
        chosen(Kind::Command),
        ProviderChoice::Command { command, refresh_ms: 500 } if command == ["cmd"]
    ));
}

#[test]
fn auto_takes_the_first_session_and_asks_no_further() {
    for bits in 0..16u8 {
        for with_command in [true, false] {
            let mut cfg = config(Kind::Auto);
            if !with_command {
                cfg.command.clear();
            }
            let found = Availability {
                hyprland: bits & 1 != 0,
                sway: bits & 2 != 0,
                gnome: bits & 4 != 0,
                kde: bits & 8 != 0,
            };
            let mut step = begin_selection(&cfg);
            let mut looks = 0;
            let choice = loop {
                match step {
                    Selection::Chosen(choice) => break choice,
                    Selection::LookFor(session) => {
                        looks += 1;
                        let there = match session {
                            Session::Hyprland => found.hyprland,
                            Session::Sway => found.sway,
                            Session::Gnome => found.gnome,
                            Session::Kde => found.kde,
                        };
                        step = resume_selection(&cfg, session, there);
                    }
                }
            };
            let expected = select_provider(&cfg, &found);
            assert_eq!(format!("{choice:?}"), format!("{expected:?}"));
            assert_eq!(looks, (bits.trailing_zeros() + 1).min(4));
            let right = match bits.trailing_zeros() {
                0 => matches!(expected, ProviderChoice::Hyprland),
                1 => matches!(expected, ProviderChoice::Sway),
                2 => matches!(expected, ProviderChoice::Gnome),
                3 => matches!(expected, ProviderChoice::Kde { refresh_ms: 500 }),
                _ if with_command => matches!(expected, ProviderChoice::Command { .. }),
                _ => matches!(
                    expected,
                    ProviderChoice::NoProvider { reason }
                        if reason == "no compositor environment detected"
                ),
            };
            assert!(right);
        }
    }
}

#[test]
fn a_filter_that_is_off_needs_no_provider() {
    assert!(matches!(
        begin_filter_selection(&ForegroundConfig::default()),
        Selection::Chosen(ProviderChoice::NoProvider { reason })
            if reason == "foreground filter disabled"
    ));
    let on = config(scrollock::foreground::config::ForegroundProviderKind::Auto);
    assert!(matches!(
        begin_filter_selection(&on),
        Selection::LookFor(Session::Hyprland)
    ));
}

#[test]
fn paths_are_joined_as_the_standard_library_joins_them() {
    for base in ["", "/", "a", "/a/b", "/a/b/", "//", "é"] {
        for instance in ["x", "/abs", "x/", "a/../b", "é"] {
            let expected = std::path::Path::new(base)
                .join(instance)
                .join(".socket2.sock");
            assert_eq!(
                signature_sockets(&[base.to_owned()], Some(instance)),
                vec![expected.to_str().unwrap().to_owned()]
            );
        }
    }
}
