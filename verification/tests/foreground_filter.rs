use std::sync::{Arc, Mutex};

use scrollock::event_router::RoutedEvent;
use scrollock::foreground::config::{
    ForegroundConfig, ForegroundFileConfig, ForegroundMode, ForegroundProviderKind, UnknownPolicy,
};
use scrollock::foreground::filter::{
    evaluate_snapshot, AutoscrollDecision, ForegroundApp, ForegroundGate, ForegroundProvider,
    ForegroundSnapshot, ForegroundSourceKind,
};
use scrollock::{CoreInputEvent, EngineState};

/// Provider whose snapshot can be swapped at runtime, to model focus changes.
struct MutableProvider(Mutex<ForegroundSnapshot>);

struct Shared(Arc<MutableProvider>);

impl ForegroundProvider for Shared {
    fn snapshot(&self) -> ForegroundSnapshot {
        self.0 .0.lock().expect("snapshot lock").clone()
    }
}

fn known(class: &str) -> ForegroundSnapshot {
    ForegroundSnapshot::Known(ForegroundApp {
        app_id: None,
        class: Some(class.to_owned()),
        resource_class: None,
        title: None,
        pid: None,
        source: ForegroundSourceKind::Unknown,
    })
}

fn denylist_cfg(entries: &[&str]) -> ForegroundConfig {
    ForegroundConfig {
        enabled: true,
        mode: ForegroundMode::Denylist,
        deny_apps: entries.iter().map(|s| (*s).to_owned()).collect(),
        ..ForegroundConfig::default()
    }
}

fn routed(ev: CoreInputEvent) -> RoutedEvent {
    RoutedEvent::Core(ev)
}

fn gate(cfg: ForegroundConfig, snap: ForegroundSnapshot) -> ForegroundGate {
    let shared = Arc::new(MutableProvider(Mutex::new(snap)));
    ForegroundGate::with_provider(cfg, Box::new(Shared(shared)))
}

#[test]
fn disabled_config_is_always_enabled() {
    let mut g = gate(ForegroundConfig::default(), known("firefox"));
    assert_eq!(
        g.decision_for_event(&routed(CoreInputEvent::MiddleDown), EngineState::Idle),
        AutoscrollDecision::Enabled
    );
}

#[test]
fn denylist_match_latches_disabled() {
    let mut g = gate(denylist_cfg(&["firefox"]), known("firefox"));
    assert_eq!(
        g.decision_for_event(&routed(CoreInputEvent::MiddleDown), EngineState::Idle),
        AutoscrollDecision::Disabled
    );
    // In pass-through the engine stays Idle, but the latch must hold.
    assert_eq!(
        g.decision_for_event(
            &routed(CoreInputEvent::Motion { dx: 0, dy: 9 }),
            EngineState::Idle
        ),
        AutoscrollDecision::Disabled
    );
}

#[test]
fn non_gesture_events_stay_enabled_even_for_denied_app() {
    // Outside a middle gesture the engine is transparent, so events must
    // go through it (Enabled) rather than evaluating per event.
    let mut g = gate(denylist_cfg(&["firefox"]), known("firefox"));
    assert_eq!(
        g.decision_for_event(
            &routed(CoreInputEvent::Motion { dx: 1, dy: 1 }),
            EngineState::Idle
        ),
        AutoscrollDecision::Enabled
    );
    assert_eq!(
        g.decision_for_event(
            &routed(CoreInputEvent::Wheel {
                vertical: 1,
                horizontal: 0,
            }),
            EngineState::Idle
        ),
        AutoscrollDecision::Enabled
    );
}

#[test]
fn focus_change_during_gesture_keeps_decision() {
    let shared = Arc::new(MutableProvider(Mutex::new(known("code"))));
    let mut g =
        ForegroundGate::with_provider(denylist_cfg(&["firefox"]), Box::new(Shared(shared.clone())));

    // Gesture starts in an allowed app.
    assert_eq!(
        g.decision_for_event(&routed(CoreInputEvent::MiddleDown), EngineState::Idle),
        AutoscrollDecision::Enabled
    );
    // Focus moves to a denied app mid-gesture.
    *shared.0.lock().unwrap() = known("firefox");
    assert_eq!(
        g.decision_for_event(
            &routed(CoreInputEvent::Motion { dx: 0, dy: 9 }),
            EngineState::MiddlePending
        ),
        AutoscrollDecision::Enabled
    );
}

#[test]
fn middleup_releases_latch_for_next_gesture() {
    let shared = Arc::new(MutableProvider(Mutex::new(known("code"))));
    let mut g =
        ForegroundGate::with_provider(denylist_cfg(&["firefox"]), Box::new(Shared(shared.clone())));

    assert_eq!(
        g.decision_for_event(&routed(CoreInputEvent::MiddleDown), EngineState::Idle),
        AutoscrollDecision::Enabled
    );
    g.after_event(&routed(CoreInputEvent::MiddleUp), EngineState::Idle);

    // A new gesture re-evaluates the (now denied) app.
    *shared.0.lock().unwrap() = known("firefox");
    assert_eq!(
        g.decision_for_event(&routed(CoreInputEvent::MiddleDown), EngineState::Idle),
        AutoscrollDecision::Disabled
    );
}

#[test]
fn unknown_policy_enabled_keeps_autoscroll() {
    let cfg = ForegroundConfig {
        enabled: true,
        unknown_policy: UnknownPolicy::Enabled,
        ..ForegroundConfig::default()
    };
    let mut g = gate(
        cfg,
        ForegroundSnapshot::Unknown {
            reason: "no provider".to_owned(),
        },
    );
    assert_eq!(
        g.decision_for_event(&routed(CoreInputEvent::MiddleDown), EngineState::Idle),
        AutoscrollDecision::Enabled
    );
}

#[test]
fn unknown_policy_disabled_passes_through() {
    let cfg = ForegroundConfig {
        enabled: true,
        unknown_policy: UnknownPolicy::Disabled,
        ..ForegroundConfig::default()
    };
    let mut g = gate(
        cfg,
        ForegroundSnapshot::Unsupported {
            reason: "no provider".to_owned(),
        },
    );
    assert_eq!(
        g.decision_for_event(&routed(CoreInputEvent::MiddleDown), EngineState::Idle),
        AutoscrollDecision::Disabled
    );
}

#[test]
fn reset_clears_the_latch() {
    let shared = Arc::new(MutableProvider(Mutex::new(known("firefox"))));
    let mut g = ForegroundGate::new(
        denylist_cfg(&["firefox"]),
        Box::new(Shared(shared.clone())),
    );
    let press = routed(CoreInputEvent::MiddleDown);
    assert_eq!(
        g.decision_for_event(&press, EngineState::Idle),
        AutoscrollDecision::Disabled
    );
    *shared.0.lock().unwrap() = known("code");
    assert_eq!(
        g.decision_for_event(&press, EngineState::Idle),
        AutoscrollDecision::Disabled
    );
    g.reset_latch();
    assert_eq!(
        g.decision_for_event(&press, EngineState::Idle),
        AutoscrollDecision::Enabled
    );
}

#[test]
fn a_press_while_the_engine_is_busy_is_not_a_gesture() {
    let mut g = gate(denylist_cfg(&["firefox"]), known("firefox"));
    let press = routed(CoreInputEvent::MiddleDown);
    assert!(!g.begins_gesture(&press, EngineState::Scrolling));
    assert_eq!(
        g.decision_for_event(&press, EngineState::Scrolling),
        AutoscrollDecision::Enabled
    );
    assert!(g.begins_gesture(&press, EngineState::Idle));
}

#[test]
fn snapshots_are_evaluated_by_list_or_policy() {
    let cfg = ForegroundConfig {
        unknown_policy: UnknownPolicy::Disabled,
        ..denylist_cfg(&["firefox"])
    };
    assert_eq!(
        evaluate_snapshot(&known("Firefox"), &cfg),
        AutoscrollDecision::Disabled
    );
    assert_eq!(
        evaluate_snapshot(&known("code"), &cfg),
        AutoscrollDecision::Enabled
    );
    assert_eq!(
        evaluate_snapshot(
            &ForegroundSnapshot::Unknown {
                reason: String::new()
            },
            &cfg
        ),
        AutoscrollDecision::Disabled
    );
    let mut g = gate(cfg, known("code"));
    assert_eq!(
        g.decision_with_snapshot(
            &routed(CoreInputEvent::MiddleDown),
            EngineState::Idle,
            &known("firefox")
        ),
        AutoscrollDecision::Disabled
    );
}

#[test]
fn empty_file_resolves_to_the_defaults() {
    assert_eq!(
        ForegroundFileConfig::default().into_resolved(),
        ForegroundConfig::default()
    );
    assert_eq!(ForegroundConfig::default().command_refresh_ms, 500);
    let file = ForegroundFileConfig {
        enabled: Some(true),
        provider: Some(ForegroundProviderKind::Kde),
        allow_apps: Some(vec!["a".to_owned()]),
        ..ForegroundFileConfig::default()
    };
    assert_eq!(
        file.into_resolved(),
        ForegroundConfig {
            enabled: true,
            provider: ForegroundProviderKind::Kde,
            allow_apps: vec!["a".to_owned()],
            ..ForegroundConfig::default()
        }
    );
}
