use std::path::PathBuf;
use std::time::Duration;

use scrollock::cli::Args;
use scrollock::config_loader::{ParsedDeviceMatch, ResolvedConfig};
use scrollock::daemon::{
    after_look, after_loop, after_read, after_wait, before_look, before_wait, due_tick,
    emit_actions, keep_looking, poll_timeout_millis, start_plan, AfterLoop, AfterWait, BeforeWait,
    Emission, LoopOutcome, Pipeline, ReadReply, Reconnect, ReconnectMatch, StartNote, StartPlan,
    WaitReply,
};
use scrollock::detect::{candidates, detection_config, detection_report, is_final};
use scrollock::device_discovery::DeviceInfo;
use scrollock::errors::DaemonError;
use scrollock::foreground::config::ForegroundProviderKind;
use scrollock::foreground::filter::{
    AutoscrollDecision, ForegroundApp, ForegroundProvider, ForegroundSnapshot, ForegroundSourceKind,
};
use scrollock::foreground::matcher::decide;
use scrollock::foreground::providers::NoneProvider;
use scrollock::foreground::{ForegroundConfig, ForegroundGate};
use scrollock::indicator::{Indicator, NoopIndicator, OverlayAction, OverlayState};
use scrollock::record::InputRecord;
use scrollock::service::ServiceAction;
use scrollock::startup::{
    first_task, last_task, may_select, parse_selection, resolve_device_path, resolved_task,
    select_device, selection_complaint, selection_prompt, DeviceChoice, DeviceSource, FirstTask,
    LastTask, ResolvedTask,
};
use scrollock::{CoreAction, CoreConfig, EngineState, Mode, MouseButton, WheelTask};


fn resolved_with_match(device_match: Option<ParsedDeviceMatch>) -> ResolvedConfig {
    ResolvedConfig {
        core: CoreConfig::default(),
        device: None,
        device_match,
        grab: true,
        dry_run: false,
        safety_timeout_seconds: None,
        foreground: ForegroundConfig::default(),
    }
}

#[test]
fn poll_timeout_rounds_sub_millisecond_deadlines_up() {
    assert_eq!(poll_timeout_millis(Duration::ZERO.as_nanos()), 0);
    assert_eq!(poll_timeout_millis(Duration::from_micros(1).as_nanos()), 1);
    assert_eq!(poll_timeout_millis(Duration::from_micros(999).as_nanos()), 1);
    assert_eq!(poll_timeout_millis(Duration::from_micros(1_001).as_nanos()), 2);
}

#[test]
fn poll_timeout_saturates_at_poll_limit() {
    assert_eq!(poll_timeout_millis(Duration::from_secs(120).as_nanos()), u16::MAX);
}

#[test]
fn reconnect_match_from_config_copies_device_match() {
    let cfg = resolved_with_match(Some(ParsedDeviceMatch {
        vendor_id: 0x046d,
        product_id: 0xc539,
        name: Some("Logitech USB Receiver".to_owned()),
        phys: Some("usb-0000:00:14.0-2/input0".to_owned()),
    }));

    let rm = ReconnectMatch::from_config(&cfg).expect("device_match present");
    assert_eq!(rm.vendor_id, 0x046d);
    assert_eq!(rm.product_id, 0xc539);
    assert_eq!(rm.human_id(), "046d:c539");

    let criteria = rm.criteria();
    assert_eq!(criteria.vendor_id, 0x046d);
    assert_eq!(criteria.product_id, 0xc539);
    assert_eq!(criteria.name, Some("Logitech USB Receiver"));
    assert_eq!(criteria.phys, Some("usb-0000:00:14.0-2/input0"));
}

#[test]
fn reconnect_match_from_config_is_none_for_legacy_path() {
    let cfg = resolved_with_match(None);
    assert!(ReconnectMatch::from_config(&cfg).is_none());
}

#[test]
fn reconnect_match_human_id_is_zero_padded() {
    let cfg = resolved_with_match(Some(ParsedDeviceMatch {
        vendor_id: 0x1,
        product_id: 0x2bc,
        name: None,
        phys: None,
    }));

    let rm = ReconnectMatch::from_config(&cfg).expect("device_match present");
    assert_eq!(rm.human_id(), "0001:02bc");
    assert_eq!(rm.criteria().name, None);
    assert_eq!(rm.criteria().phys, None);
}

#[test]
fn a_live_device_is_looked_for_on_any_port() {
    let rm = ReconnectMatch::from_device(7, 8, "Mouse");
    assert_eq!(rm.human_id(), "0007:0008");
    assert_eq!(rm.criteria().name, Some("Mouse"));
    assert_eq!(rm.criteria().phys, None);
}

#[test]
fn services_wait_and_people_do_not() {
    assert!(keep_looking(true, u64::MAX));
    assert!(keep_looking(false, 9_999));
    assert!(!keep_looking(false, 10_000));
}

#[test]
fn the_daemon_starts_as_configured() {
    assert_eq!(
        start_plan(true, false, 120),
        StartPlan {
            virtual_mouse: true,
            grab: true,
            note: StartNote::Nothing,
            tick_period_us: 8333,
        }
    );
    assert_eq!(
        start_plan(true, true, 10_000),
        StartPlan {
            virtual_mouse: false,
            grab: false,
            note: StartNote::DryRunSkipsGrab,
            tick_period_us: 100,
        }
    );
    assert_eq!(start_plan(false, true, 1).note, StartNote::NoGrab);
    assert_eq!(start_plan(false, false, 1).tick_period_us, 1_000_000);
}

#[test]
fn the_loop_waits_for_the_next_tick() {
    assert_eq!(
        before_wait(true, None, 0, 8333, 0),
        BeforeWait::Stop(LoopOutcome::Shutdown)
    );
    assert_eq!(
        before_wait(false, Some(2), 2_000_000_000, 8333, 0),
        BeforeWait::Stop(LoopOutcome::Shutdown)
    );
    assert_eq!(
        before_wait(false, Some(2), 1_999_999_999, 8333, 0),
        BeforeWait::Wait { timeout_ms: 9 }
    );
    assert_eq!(
        before_wait(false, None, u128::MAX, 8333, 333_001),
        BeforeWait::Wait { timeout_ms: 8 }
    );
    assert_eq!(
        before_wait(false, None, 0, 8333, 9_000_000),
        BeforeWait::Wait { timeout_ms: 0 }
    );
}

#[test]
fn waits_and_reads_are_interpreted() {
    let ready = |hung_up, readable| WaitReply::Ready { hung_up, readable };
    assert_eq!(after_wait(WaitReply::TimedOut), AfterWait::Tick);
    assert_eq!(after_wait(WaitReply::Interrupted), AfterWait::Again);
    assert_eq!(after_wait(WaitReply::Failed), AfterWait::Fail);
    assert_eq!(
        after_wait(ready(true, true)),
        AfterWait::Stop(LoopOutcome::DeviceLost)
    );
    assert_eq!(after_wait(ready(false, true)), AfterWait::Read);
    assert_eq!(after_wait(ready(false, false)), AfterWait::Tick);
    assert_eq!(after_read(ReadReply::Events), None);
    assert_eq!(after_read(ReadReply::WouldBlock), None);
    assert_eq!(after_read(ReadReply::Failed), Some(LoopOutcome::DeviceLost));
    assert_eq!(after_loop(LoopOutcome::Shutdown), AfterLoop::Finish);
    assert_eq!(after_loop(LoopOutcome::DeviceLost), AfterLoop::Reconnect);
    assert_eq!(before_look(true), Reconnect::Stop);
    assert_eq!(before_look(false), Reconnect::Look);
    assert_eq!(after_look(Some(true)), Reconnect::Use);
    assert_eq!(after_look(Some(false)), Reconnect::Sleep);
    assert_eq!(after_look(None), Reconnect::Sleep);
}

#[test]
fn ticks_are_due_after_their_period() {
    assert_eq!(due_tick(8333, 8_332_999), None);
    assert_eq!(due_tick(8333, 8_333_000), Some(8333));
    assert_eq!(due_tick(8333, 20_000_999), Some(20_000));
    assert_eq!(due_tick(0, 0), Some(0));
    assert_eq!(due_tick(1, u128::MAX), Some(u64::MAX));
}

fn shape(emissions: &[Emission]) -> Vec<String> {
    emissions.iter().map(|e| format!("{e:?}")).collect()
}

#[test]
fn batches_are_sent_before_a_click() {
    let motion = CoreAction::ForwardMotion { dx: 1, dy: 2 };
    let wheel = CoreAction::EmitWheelDetents {
        vertical: 1,
        horizontal: 0,
    };
    let actions = vec![
        motion,
        CoreAction::EnterScrollMode,
        wheel,
        CoreAction::EmitMiddleClick,
        CoreAction::Suppress,
        motion,
        CoreAction::ExitScrollMode,
    ];
    assert_eq!(
        shape(&emit_actions(&actions, false)),
        shape(&[
            Emission::EnterScroll,
            Emission::Batch(vec![motion, wheel]),
            Emission::MiddleClick,
            Emission::ExitScroll,
            Emission::Batch(vec![motion]),
        ])
    );
    assert!(emit_actions(&vec![CoreAction::Suppress], false).is_empty());
    assert_eq!(
        shape(&emit_actions(&vec![CoreAction::EmitMiddleClick], false)),
        shape(&[Emission::MiddleClick])
    );
}

#[test]
fn dry_runs_only_talk() {
    let actions = vec![
        CoreAction::ForwardMotion { dx: 1, dy: 2 },
        CoreAction::EmitMiddleClick,
        CoreAction::EnterScrollMode,
        CoreAction::Suppress,
    ];
    assert_eq!(
        shape(&emit_actions(&actions, true)),
        shape(&[
            Emission::Describe("ForwardMotion(<redacted>)".to_owned()),
            Emission::Describe("EmitMiddleClick".to_owned()),
            Emission::EnterScroll,
        ])
    );
}

struct Fixed(&'static str);

impl ForegroundProvider for Fixed {
    fn snapshot(&self) -> ForegroundSnapshot {
        ForegroundSnapshot::Known(ForegroundApp {
            class: Some(self.0.to_owned()),
            ..ForegroundApp::default()
        })
    }
}

fn pipeline(denied: &str) -> Pipeline {
    let cfg = ForegroundConfig {
        enabled: true,
        deny_apps: vec![denied.to_owned()],
        ..ForegroundConfig::default()
    };
    let core = CoreConfig {
        mode: Mode::HoldProgressive,
        ..CoreConfig::default()
    };
    assert!(core.can_run());
    Pipeline::new(core, ForegroundGate::new(cfg, Box::new(Fixed("firefox"))))
}

fn key(code: u16, value: i32) -> InputRecord {
    InputRecord {
        kind: 1,
        code,
        value,
    }
}

fn forward(button: MouseButton, pressed: bool) -> Vec<CoreAction> {
    vec![CoreAction::ForwardMouseButton { button, pressed }]
}

#[test]
fn a_denied_gesture_passes_through() {
    let mut p = pipeline("firefox");
    assert_eq!(
        p.handle_record(&key(0x112, 1)),
        forward(MouseButton::Middle, true)
    );
    assert_eq!(p.state(), EngineState::Idle);
    assert_eq!(
        p.handle_record(&InputRecord {
            kind: 2,
            code: 1,
            value: 90
        }),
        vec![CoreAction::ForwardMotion { dx: 0, dy: 90 }]
    );
    assert_eq!(
        p.handle_record(&key(0x112, 0)),
        forward(MouseButton::Middle, false)
    );
    let code = ForegroundSnapshot::Known(ForegroundApp {
        class: Some("code".to_owned()),
        ..ForegroundApp::default()
    });
    assert_eq!(
        p.handle_record_with_snapshot(&key(0x112, 1), &code),
        vec![CoreAction::Suppress]
    );
    assert_eq!(p.state(), EngineState::MiddlePending);
}

#[test]
fn an_allowed_gesture_scrolls() {
    let mut p = pipeline("code");
    assert_eq!(p.handle_record(&key(0x112, 1)), vec![CoreAction::Suppress]);
    assert_eq!(
        p.handle_record(&key(0x113, 1)),
        forward(MouseButton::Side, true)
    );
    assert!(p.handle_record(&key(0x112, 2)).is_empty());
    assert_eq!(
        p.handle_record(&InputRecord {
            kind: 2,
            code: 1,
            value: 90
        }),
        vec![CoreAction::Suppress, CoreAction::EnterScrollMode]
    );
    let mut out = Vec::new();
    let task = p.tick(1_000_000, &mut out);
    assert!(matches!(task, WheelTask::Curve { active_units: 80, .. }));
    let speed = scrollock::Binary64 {
        bits: 2.0f64.to_bits(),
    };
    assert!(matches!(
        p.resume_tick(task, speed, &mut out),
        WheelTask::Delta { direction: -1, .. }
    ));
    p.device_lost();
    assert_eq!(p.state(), EngineState::Idle);
    assert_eq!(p.tick(1_000_000, &mut out), WheelTask::Done);
    assert!(out.is_empty());
}

#[test]
fn overlays_come_and_go_with_scroll_mode() {
    let mut overlay = OverlayState::new();
    assert_eq!(overlay.exit_scroll(), OverlayAction::Nothing);
    assert_eq!(overlay.enter_scroll(), OverlayAction::Spawn);
    overlay.spawn_tried(false);
    assert_eq!(overlay.enter_scroll(), OverlayAction::Spawn);
    overlay.spawn_tried(true);
    assert_eq!(overlay.enter_scroll(), OverlayAction::Nothing);
    assert_eq!(overlay.exit_scroll(), OverlayAction::Kill);
    assert_eq!(overlay.exit_scroll(), OverlayAction::Nothing);
    let mut noop = NoopIndicator;
    noop.enter_scroll();
    noop.exit_scroll();
}

fn plain_args() -> Args {
    Args {
        device: None,
        config: None,
        setup: false,
        pin_port: false,
        install_service: false,
        remove_service: false,
        install_udev_rule: false,
        remove_udev_rule: false,
        start: false,
        stop: false,
        restart: false,
        list_devices: false,
        no_grab: false,
        dry_run: false,
        no_interactive: false,
        verbose: 0,
        safety_timeout_seconds: None,
        detect_foreground: false,
    }
}

#[test]
fn verbosity_sets_the_log() {
    let directive = |verbose| {
        Args {
            verbose,
            ..plain_args()
        }
        .log_directive()
    };
    assert_eq!(directive(0), "scrollock=info,scrollock_core=warn");
    assert_eq!(directive(1), "scrollock=debug,scrollock_core=info");
    assert_eq!(directive(2), "scrollock=trace,scrollock_core=trace");
    assert_eq!(directive(255), "scrollock=trace,scrollock_core=trace");
}

#[test]
fn a_call_comes_to_one_task_first() {
    assert_eq!(
        first_task(&plain_args()),
        FirstTask::Resolve { needs_root: false }
    );
    assert_eq!(
        first_task(&Args {
            install_udev_rule: true,
            ..plain_args()
        }),
        FirstTask::Resolve { needs_root: true }
    );
    assert_eq!(
        first_task(&Args {
            list_devices: true,
            ..plain_args()
        }),
        FirstTask::ListDevices
    );
    assert_eq!(
        first_task(&Args {
            remove_udev_rule: true,
            list_devices: true,
            ..plain_args()
        }),
        FirstTask::RemoveUdevRule
    );
    assert_eq!(
        first_task(&Args {
            remove_udev_rule: true,
            stop: true,
            ..plain_args()
        }),
        FirstTask::Service(ServiceAction::Stop)
    );
}

fn some_match() -> Option<ParsedDeviceMatch> {
    Some(ParsedDeviceMatch {
        vendor_id: 1,
        product_id: 2,
        name: None,
        phys: None,
    })
}

#[test]
fn devices_are_saved_on_request_or_when_none_is_known() {
    let known = resolved_with_match(some_match());
    let nothing = resolved_with_match(None);
    let given = || Some(PathBuf::from("/dev/x"));
    assert!(matches!(
        resolved_task(&plain_args(), &known),
        ResolvedTask::UseConfigured
    ));
    assert!(matches!(
        resolved_task(&plain_args(), &nothing),
        ResolvedTask::SaveChosen
    ));
    assert!(matches!(
        resolved_task(
            &Args {
                setup: true,
                ..plain_args()
            },
            &known
        ),
        ResolvedTask::SaveChosen
    ));
    let mut with_device = Args {
        device: given(),
        ..plain_args()
    };
    assert!(matches!(
        resolved_task(&with_device, &known),
        ResolvedTask::UseConfigured
    ));
    with_device.install_service = true;
    match resolved_task(&with_device, &known) {
        ResolvedTask::SaveGiven(path) => assert_eq!(Some(path), given()),
        other => panic!("expected SaveGiven, got {other:?}"),
    }
    with_device.detect_foreground = true;
    assert!(matches!(
        resolved_task(&with_device, &known),
        ResolvedTask::DetectForeground
    ));
}

#[test]
fn a_call_comes_to_one_task_last() {
    let setup = Args {
        setup: true,
        ..plain_args()
    };
    assert_eq!(last_task(&plain_args(), true), LastTask::RunDaemon);
    assert_eq!(last_task(&setup, true), LastTask::Nothing);
    assert_eq!(
        last_task(
            &Args {
                install_service: true,
                ..setup
            },
            true
        ),
        LastTask::InstallService
    );
    assert_eq!(
        last_task(
            &Args {
                install_udev_rule: true,
                install_service: true,
                ..plain_args()
            },
            false
        ),
        LastTask::InstallUdevRule
    );
}

#[test]
fn the_device_is_found_where_it_was_named() {
    let mut args = plain_args();
    args.no_interactive = true;
    let mut cfg = resolved_with_match(None);
    assert!(matches!(
        resolve_device_path(&args, &cfg),
        Err(DaemonError::NoDevice)
    ));
    cfg.device = Some(PathBuf::from("/dev/cfg"));
    assert!(matches!(
        resolve_device_path(&args, &cfg),
        Ok(DeviceSource::Plain(path)) if path == PathBuf::from("/dev/cfg")
    ));
    cfg.device_match = some_match();
    assert!(matches!(
        resolve_device_path(&args, &cfg),
        Ok(DeviceSource::Match { wait_forever: true })
    ));
    args.device = Some(PathBuf::from("/dev/arg"));
    assert!(matches!(
        resolve_device_path(&args, &cfg),
        Ok(DeviceSource::Given(path)) if path == PathBuf::from("/dev/arg")
    ));
    assert!(matches!(may_select(&args), Err(DaemonError::NoDevice)));
    assert!(may_select(&plain_args()).is_ok());
}

fn mouse(path: &str) -> DeviceInfo {
    DeviceInfo {
        path: PathBuf::from(path),
        name: String::new(),
        phys: None,
        unique_name: None,
        vendor_id: 0,
        product_id: 0,
        bus_type: 0,
        keys: Vec::new(),
        axes: Vec::new(),
    }
}

#[test]
fn somebody_is_asked_only_where_there_is_a_choice() {
    assert!(matches!(
        select_device(&Vec::new(), true),
        Err(DaemonError::NoMiceFound)
    ));
    assert!(matches!(
        select_device(&vec![mouse("/a")], false),
        Ok(DeviceChoice::Only(path)) if path == PathBuf::from("/a")
    ));
    let two = vec![mouse("/a"), mouse("/b")];
    assert!(matches!(
        select_device(&two, false),
        Err(DaemonError::NonInteractiveDeviceChoice)
    ));
    assert!(matches!(select_device(&two, true), Ok(DeviceChoice::Ask)));
}

#[test]
fn answers_are_numbers_on_the_list() {
    assert_eq!(parse_selection(" 2 \n", 3), Some(1));
    assert_eq!(parse_selection("+3", 3), Some(2));
    assert_eq!(parse_selection("0", 3), None);
    assert_eq!(parse_selection("4", 3), None);
    assert_eq!(parse_selection("two", 3), None);
    assert_eq!(parse_selection("", 3), None);
    for i in 0..200 {
        assert_eq!(parse_selection(&format!("{}", i + 1), 200), Some(i));
    }
    assert_eq!(selection_prompt(12), "Select a device [1-12]: ");
    assert_eq!(
        selection_complaint(12),
        "Invalid selection; enter a number between 1 and 12."
    );
}

#[test]
fn detection_falls_back_to_auto() {
    let none = ForegroundConfig {
        provider: ForegroundProviderKind::NoProvider,
        ..ForegroundConfig::default()
    };
    assert_eq!(
        detection_config(none).provider,
        ForegroundProviderKind::Auto
    );
    let kde = ForegroundConfig {
        provider: ForegroundProviderKind::Kde,
        ..ForegroundConfig::default()
    };
    assert_eq!(detection_config(kde).provider, ForegroundProviderKind::Kde);
    let waiting = NoneProvider::new("r".to_owned()).snapshot();
    assert!(!is_final(&waiting, 1999));
    assert!(is_final(&waiting, 2000));
    assert!(is_final(&Fixed("x").snapshot(), 0));
}

#[test]
fn detection_names_what_to_write_down() {
    let app = ForegroundApp {
        app_id: Some("Org.App.desktop".to_owned()),
        class: Some(" org.app ".to_owned()),
        resource_class: Some("Other".to_owned()),
        title: None,
        pid: Some(42),
        source: ForegroundSourceKind::Gnome,
    };
    assert_eq!(candidates(&app), vec!["org.app", "other"]);
    assert_eq!(
        detection_report(&ForegroundSnapshot::Known(app)),
        "Detected foreground application (source: Gnome):\n  \
         app_id         : Org.App.desktop\n  \
         class          :  org.app \n  \
         resource_class : Other\n  \
         title          : (none)\n  \
         pid            : 42\n\n\
         Use one of these identifiers (case-insensitive, `.desktop` ignored):\n    \
         org.app\n    other\n\n\
         Example \u{2014} block autoscroll in this app:\n  [foreground]\n  enabled = true\n  \
         provider = \"auto\"\n  mode = \"denylist\"\n  deny_apps = [\"org.app\"]\n"
    );
    let bare = detection_report(&ForegroundSnapshot::Known(ForegroundApp::default()));
    assert!(bare.starts_with("Detected foreground application (source: None):\n"));
    assert!(bare.ends_with(
        "No stable identifier (app_id/class) was reported. Enable `match_title = true` to match \
         on the window title instead.\n"
    ));
    assert!(detection_report(&ForegroundSnapshot::Unknown {
        reason: "why".to_owned()
    })
    .starts_with("Could not determine the focused application (why).\nThe provider is running"));
    assert!(detection_report(&ForegroundSnapshot::Unsupported {
        reason: "why".to_owned()
    })
    .starts_with("Foreground detection is not available (why).\nSet `provider` under"));
}

#[test]
fn advice_is_worth_following() {
    for class in [
        "a.desktop.desktop",
        " A .Desktop ",
        ".desktop.desktop",
        "Org.App.desktop",
        "plain",
    ] {
        let app = ForegroundApp {
            class: Some(class.to_owned()),
            ..ForegroundApp::default()
        };
        let advice = candidates(&app);
        assert_eq!(advice.len(), 1, "{class}");
        let cfg = ForegroundConfig {
            deny_apps: advice,
            ..ForegroundConfig::default()
        };
        assert_eq!(decide(&app, &cfg), AutoscrollDecision::Disabled, "{class}");
    }
    let twice = ForegroundApp {
        class: Some("A.desktop.desktop".to_owned()),
        resource_class: Some(".desktop".to_owned()),
        ..ForegroundApp::default()
    };
    assert_eq!(candidates(&twice), vec!["a.desktop.desktop"]);
}
