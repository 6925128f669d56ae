use scrollock::{
    Binary64, ConfigError, CoreAction, CoreConfig, CoreInputEvent, EngineState, Mode, MouseButton,
    SpeedStep, WheelTask,
};

fn number(x: f64) -> Binary64 {
    Binary64 { bits: x.to_bits() }
}

fn float(x: Binary64) -> f64 {
    f64::from_bits(x.bits)
}

/// The number that a tick waits for.
fn compute(task: WheelTask) -> f64 {
    match task {
        WheelTask::Done => 0.0,
        WheelTask::Curve {
            active_units,
            full_speed_units,
            min_speed,
            max_speed,
            exponent,
            ..
        } => {
            let normalized =
                (f64::from(active_units) / f64::from(full_speed_units)).clamp(0.0, 1.0);
            (float(max_speed) - float(min_speed))
                .mul_add(normalized.powf(float(exponent)), float(min_speed))
        }
        WheelTask::Delta {
            dt_micros,
            direction,
            speed,
            ..
        } => f64::from(direction) * float(speed) * (dt_micros as f64 / 1_000_000.0),
        WheelTask::AddDetents {
            accumulator, delta, ..
        } => float(accumulator) + float(delta),
        WheelTask::TakeDetents {
            accumulator, count, ..
        } => float(accumulator) - f64::from(count),
        WheelTask::AddHiRes {
            accumulator, delta, ..
        } => float(delta).mul_add(120.0, float(accumulator)),
        WheelTask::TakeHiRes {
            accumulator, count, ..
        } => float(accumulator) - f64::from(count),
    }
}

/// An engine with a host that does the arithmetic of its ticks.
struct Engine(scrollock::Engine);

impl Engine {
    fn new(config: CoreConfig) -> Self {
        assert!(config.can_run());
        Engine(scrollock::Engine::new(config))
    }

    fn process(&mut self, event: CoreInputEvent) -> Vec<CoreAction> {
        let (mut actions, mut task) = self.0.process(event);
        while task != WheelTask::Done {
            task = self.0.resume_tick(task, number(compute(task)), &mut actions);
        }
        actions
    }

    fn state(&self) -> EngineState {
        self.0.state()
    }

    fn offset_y_units(&self) -> i32 {
        self.0.offset_y_units()
    }

    fn offset_x_units(&self) -> i32 {
        self.0.offset_x_units()
    }
}

fn engine() -> Engine {
    Engine::new(CoreConfig::default())
}

fn hold_engine() -> Engine {
    Engine::new(CoreConfig {
        mode: Mode::HoldProgressive,
        ..CoreConfig::default()
    })
}

fn engine_with(cfg: CoreConfig) -> Engine {
    Engine::new(cfg)
}

fn count_detents(actions: &[CoreAction]) -> i32 {
    actions
        .iter()
        .filter_map(|a| match a {
            CoreAction::EmitWheelDetents { vertical, .. } => Some(*vertical),
            _ => None,
        })
        .sum()
}

fn count_hires(actions: &[CoreAction]) -> i32 {
    actions
        .iter()
        .filter_map(|a| match a {
            CoreAction::EmitWheelHiRes { vertical_units, .. } => Some(*vertical_units),
            _ => None,
        })
        .sum()
}

fn count_hires_events(actions: &[CoreAction]) -> usize {
    actions
        .iter()
        .filter(|a| matches!(a, CoreAction::EmitWheelHiRes { .. }))
        .count()
}

fn count_detents_h(actions: &[CoreAction]) -> i32 {
    actions
        .iter()
        .filter_map(|a| match a {
            CoreAction::EmitWheelDetents { horizontal, .. } => Some(*horizontal),
            _ => None,
        })
        .sum()
}

fn count_hires_h(actions: &[CoreAction]) -> i32 {
    actions
        .iter()
        .filter_map(|a| match a {
            CoreAction::EmitWheelHiRes {
                horizontal_units, ..
            } => Some(*horizontal_units),
            _ => None,
        })
        .sum()
}

fn run_for(engine: &mut Engine, secs: f64, dt_micros: u64) -> Vec<CoreAction> {
    let total_us = (secs * 1_000_000.0) as u64;
    let mut all = Vec::new();
    let mut elapsed = 0u64;
    while elapsed < total_us {
        all.extend(engine.process(CoreInputEvent::Tick { dt_micros }));
        elapsed += dt_micros;
    }
    all
}

#[test]
fn config_defaults_validate() {
    CoreConfig::default().validate().unwrap();
}

#[test]
fn config_rejects_negative_deadzone() {
    let cfg = CoreConfig {
        deadzone_units: -1,
        ..CoreConfig::default()
    };
    assert!(cfg.validate().is_err());
}

#[test]
fn config_rejects_max_offset_smaller_than_deadzone() {
    let cfg = CoreConfig {
        deadzone_units: 100,
        max_offset_units: 50,
        ..CoreConfig::default()
    };
    assert!(cfg.validate().is_err());
}

#[test]
fn config_rejects_max_speed_below_min_speed() {
    let cfg = CoreConfig {
        min_speed_detents_per_second: number(10.0),
        max_speed_detents_per_second: number(5.0),
        ..CoreConfig::default()
    };
    assert!(cfg.validate().is_err());
}

#[test]
fn config_rejects_speed_step_inside_deadzone() {
    let cfg = CoreConfig {
        scroll_speed_steps: vec![SpeedStep {
            distance_units: 10,
            speed_detents_per_second: number(2.0),
        }],
        ..CoreConfig::default()
    };
    assert!(cfg.validate().is_err());
}

#[test]
fn config_rejects_unsorted_speed_steps() {
    let cfg = CoreConfig {
        scroll_speed_steps: vec![
            SpeedStep {
                distance_units: 80,
                speed_detents_per_second: number(8.0),
            },
            SpeedStep {
                distance_units: 40,
                speed_detents_per_second: number(4.0),
            },
        ],
        ..CoreConfig::default()
    };
    assert!(cfg.validate().is_err());
}

#[test]
fn config_rejects_bad_speed_step_speed() {
    let cfg = CoreConfig {
        scroll_speed_steps: vec![SpeedStep {
            distance_units: 40,
            speed_detents_per_second: number(f64::INFINITY),
        }],
        ..CoreConfig::default()
    };
    assert!(cfg.validate().is_err());
}

#[test]
fn config_rejects_bad_min_hires_units_per_event() {
    for min_hires_units_per_event in [0, 121] {
        let cfg = CoreConfig {
            min_hires_units_per_event,
            ..CoreConfig::default()
        };
        assert!(cfg.validate().is_err());
    }
}

#[test]
fn config_rejects_no_wheel_emitter() {
    let cfg = CoreConfig {
        emit_hires_wheel: false,
        emit_legacy_wheel: false,
        ..CoreConfig::default()
    };
    assert_eq!(cfg.validate(), Err(ConfigError::NoWheelEmitter));
}

#[test]
fn click_court_emits_middle_click_and_returns_to_idle() {
    let mut e = hold_engine();
    let down = e.process(CoreInputEvent::MiddleDown);
    assert_eq!(down, vec![CoreAction::Suppress]);
    assert_eq!(e.state(), EngineState::MiddlePending);

    let up = e.process(CoreInputEvent::MiddleUp);
    assert_eq!(up, vec![CoreAction::EmitMiddleClick]);
    assert_eq!(e.state(), EngineState::Idle);
}

#[test]
fn deadzone_keeps_engine_pending_and_does_not_scroll() {
    let mut e = engine();
    e.process(CoreInputEvent::MiddleDown);
    let actions = e.process(CoreInputEvent::Motion { dx: 0, dy: 5 });

    assert!(actions
        .iter()
        .all(|a| !matches!(a, CoreAction::EnterScrollMode)));
    assert_eq!(e.state(), EngineState::MiddlePending);

    let tick = e.process(CoreInputEvent::Tick { dt_micros: 8333 });
    assert!(tick.is_empty());
}

#[test]
fn motion_above_deadzone_enters_scroll_mode() {
    let mut e = engine();
    e.process(CoreInputEvent::MiddleDown);
    let actions = e.process(CoreInputEvent::Motion { dx: 0, dy: 11 });
    assert!(actions.contains(&CoreAction::EnterScrollMode));
    assert_eq!(e.state(), EngineState::Scrolling);
}

#[test]
fn click_after_motion_inside_deadzone_still_emits_middle_click() {
    let mut e = hold_engine();
    e.process(CoreInputEvent::MiddleDown);
    e.process(CoreInputEvent::Motion { dx: 1, dy: 3 });
    e.process(CoreInputEvent::Motion { dx: -1, dy: -2 });
    let up = e.process(CoreInputEvent::MiddleUp);
    assert_eq!(up, vec![CoreAction::EmitMiddleClick]);
    assert_eq!(e.state(), EngineState::Idle);
}

#[test]
fn scroll_down_emits_negative_legacy_detents_after_one_second() {
    let mut e = engine();
    e.process(CoreInputEvent::MiddleDown);
    e.process(CoreInputEvent::Motion { dx: 0, dy: 120 });
    let actions = run_for(&mut e, 1.0, 8333);
    let total = count_detents(&actions);
    assert!(total < 0, "expected negative detents, got {total}");
}

#[test]
fn scroll_up_emits_positive_legacy_detents_after_one_second() {
    let mut e = engine();
    e.process(CoreInputEvent::MiddleDown);
    e.process(CoreInputEvent::Motion { dx: 0, dy: -120 });
    let actions = run_for(&mut e, 1.0, 8333);
    let total = count_detents(&actions);
    assert!(total > 0, "expected positive detents, got {total}");
}

#[test]
fn higher_offset_produces_more_detents_per_second() {
    let mut slow = engine();
    slow.process(CoreInputEvent::MiddleDown);
    slow.process(CoreInputEvent::Motion { dx: 0, dy: 30 });
    let slow_actions = run_for(&mut slow, 1.0, 8333);

    let mut fast = engine();
    fast.process(CoreInputEvent::MiddleDown);
    fast.process(CoreInputEvent::Motion { dx: 0, dy: 120 });
    let fast_actions = run_for(&mut fast, 1.0, 8333);

    let slow_total = count_detents(&slow_actions).abs();
    let fast_total = count_detents(&fast_actions).abs();
    assert!(
        fast_total > slow_total,
        "expected fast ({fast_total}) > slow ({slow_total})"
    );
}

#[test]
fn return_to_deadzone_stops_scrolling() {
    let mut e = engine();
    e.process(CoreInputEvent::MiddleDown);
    e.process(CoreInputEvent::Motion { dx: 0, dy: 120 });
    e.process(CoreInputEvent::Motion { dx: 0, dy: -115 });

    assert!(e.offset_y_units().abs() <= 10);

    let mut total = 0i32;
    for _ in 0..120 {
        let actions = e.process(CoreInputEvent::Tick { dt_micros: 8333 });
        total += count_detents(&actions);
    }
    assert_eq!(total, 0, "no detents should be emitted in deadzone");
}

#[test]
fn crossing_zero_inverts_scroll_direction() {
    let mut e = engine();
    e.process(CoreInputEvent::MiddleDown);
    e.process(CoreInputEvent::Motion { dx: 0, dy: 100 });
    let down_actions = run_for(&mut e, 0.5, 8333);
    let down_total = count_detents(&down_actions);
    assert!(down_total < 0, "expected scroll down, got {down_total}");

    e.process(CoreInputEvent::Motion { dx: 0, dy: -220 });
    assert!(e.offset_y_units() < 0);

    let up_actions = run_for(&mut e, 0.5, 8333);
    let up_total = count_detents(&up_actions);
    assert!(
        up_total > 0,
        "expected scroll up after inversion, got {up_total}"
    );
}

#[test]
fn middle_release_during_scroll_returns_to_idle_without_extra_click() {
    let mut e = engine();
    e.process(CoreInputEvent::MiddleDown);
    e.process(CoreInputEvent::Motion { dx: 0, dy: 100 });
    let _ = run_for(&mut e, 0.2, 8333);

    let release = e.process(CoreInputEvent::MiddleUp);
    assert!(release.contains(&CoreAction::ExitScrollMode));
    assert!(!release.contains(&CoreAction::EmitMiddleClick));
    assert_eq!(e.state(), EngineState::Idle);

    let post = e.process(CoreInputEvent::Tick { dt_micros: 8333 });
    assert!(post.is_empty(), "no scroll should be emitted after release");
}

#[test]
fn invert_vertical_flips_scroll_signs() {
    let cfg = CoreConfig {
        invert_vertical: true,
        ..CoreConfig::default()
    };
    let mut e = engine_with(cfg);

    e.process(CoreInputEvent::MiddleDown);
    e.process(CoreInputEvent::Motion { dx: 0, dy: 120 });
    let actions = run_for(&mut e, 1.0, 8333);
    let total = count_detents(&actions);
    assert!(
        total > 0,
        "with invert, mouse-down should scroll up; got {total}"
    );
}

#[test]
fn hires_emission_disabled_via_config() {
    let cfg = CoreConfig {
        emit_hires_wheel: false,
        emit_legacy_wheel: true,
        ..CoreConfig::default()
    };
    let mut e = engine_with(cfg);

    e.process(CoreInputEvent::MiddleDown);
    e.process(CoreInputEvent::Motion { dx: 0, dy: 120 });
    let actions = run_for(&mut e, 1.0, 8333);
    assert_eq!(count_hires(&actions), 0);
    assert!(count_detents(&actions).abs() > 0);
}

#[test]
fn legacy_emission_disabled_via_config() {
    let cfg = CoreConfig {
        emit_hires_wheel: true,
        emit_legacy_wheel: false,
        ..CoreConfig::default()
    };
    let mut e = engine_with(cfg);

    e.process(CoreInputEvent::MiddleDown);
    e.process(CoreInputEvent::Motion { dx: 0, dy: 120 });
    let actions = run_for(&mut e, 1.0, 8333);
    assert_eq!(count_detents(&actions), 0);
    assert!(count_hires(&actions).abs() > 0);
}

#[test]
fn hires_units_track_legacy_detents_at_120_per_detent() {
    let mut e = engine();
    e.process(CoreInputEvent::MiddleDown);
    e.process(CoreInputEvent::Motion { dx: 0, dy: 240 });
    let actions = run_for(&mut e, 2.0, 8333);

    let detents = count_detents(&actions);
    let hires = count_hires(&actions);

    let ratio = f64::from(hires) / f64::from(detents);
    assert!(
        (ratio - 120.0).abs() < 5.0,
        "expected ~120 hi-res units per detent, got ratio={ratio}"
    );
}

#[test]
fn hires_events_are_grouped_by_minimum_units_without_changing_total_distance() {
    let cfg = CoreConfig {
        emit_legacy_wheel: false,
        min_hires_units_per_event: 15,
        scroll_speed_steps: vec![SpeedStep {
            distance_units: 11,
            speed_detents_per_second: number(1.5),
        }],
        ..CoreConfig::default()
    };
    let mut grouped = engine_with(cfg.clone());
    grouped.process(CoreInputEvent::MiddleDown);
    grouped.process(CoreInputEvent::Motion { dx: 0, dy: 11 });
    let grouped_actions = run_for(&mut grouped, 1.0, 8333);

    let mut ungrouped = engine_with(CoreConfig {
        min_hires_units_per_event: 1,
        ..cfg
    });
    ungrouped.process(CoreInputEvent::MiddleDown);
    ungrouped.process(CoreInputEvent::Motion { dx: 0, dy: 11 });
    let ungrouped_actions = run_for(&mut ungrouped, 1.0, 8333);

    assert!(
        count_hires_events(&grouped_actions) < count_hires_events(&ungrouped_actions),
        "grouping should reduce hi-res event count"
    );

    let grouped_units = count_hires(&grouped_actions).abs();
    let ungrouped_units = count_hires(&ungrouped_actions).abs();
    assert!(
        (ungrouped_units - grouped_units).abs() <= 15,
        "grouping should preserve total distance within one threshold: grouped={grouped_units}, ungrouped={ungrouped_units}"
    );
}

#[test]
fn motion_is_suppressed_during_pending_when_configured() {
    let mut e = engine();
    e.process(CoreInputEvent::MiddleDown);
    let actions = e.process(CoreInputEvent::Motion { dx: 5, dy: 3 });
    assert!(actions.contains(&CoreAction::Suppress));
    assert!(!actions
        .iter()
        .any(|a| matches!(a, CoreAction::ForwardMotion { .. })));
}

#[test]
fn motion_is_suppressed_during_scrolling_when_configured() {
    let mut e = engine();
    e.process(CoreInputEvent::MiddleDown);
    e.process(CoreInputEvent::Motion { dx: 0, dy: 50 });
    let actions = e.process(CoreInputEvent::Motion { dx: 100, dy: 1 });
    assert!(actions.contains(&CoreAction::Suppress));
    assert!(!actions
        .iter()
        .any(|a| matches!(a, CoreAction::ForwardMotion { .. })));
}

#[test]
fn motion_is_forwarded_when_suppress_disabled() {
    let cfg = CoreConfig {
        suppress_motion_while_pending: false,
        suppress_motion_while_scrolling: false,
        ..CoreConfig::default()
    };
    let mut e = engine_with(cfg);

    e.process(CoreInputEvent::MiddleDown);
    let pending = e.process(CoreInputEvent::Motion { dx: 4, dy: 3 });
    assert!(pending.contains(&CoreAction::ForwardMotion { dx: 4, dy: 3 }));

    e.process(CoreInputEvent::Motion { dx: 0, dy: 50 });
    let scrolling = e.process(CoreInputEvent::Motion { dx: 7, dy: 1 });
    assert!(scrolling.contains(&CoreAction::ForwardMotion { dx: 7, dy: 1 }));
}

#[test]
fn replay_pending_motion_replays_net_motion_on_short_click() {
    let cfg = CoreConfig {
        mode: Mode::HoldProgressive,
        replay_pending_motion_on_click: true,
        ..CoreConfig::default()
    };
    let mut e = engine_with(cfg);

    e.process(CoreInputEvent::MiddleDown);
    e.process(CoreInputEvent::Motion { dx: 2, dy: 1 });
    e.process(CoreInputEvent::Motion { dx: -1, dy: 2 });
    let release = e.process(CoreInputEvent::MiddleUp);

    // The pending motion is replayed as a single compacted delta (the pointer
    // ends up at the same place; storing every event would grow unboundedly
    // during a long press).
    let forwarded: Vec<_> = release
        .iter()
        .filter_map(|a| match a {
            CoreAction::ForwardMotion { dx, dy } => Some((*dx, *dy)),
            _ => None,
        })
        .collect();
    assert_eq!(forwarded, vec![(1, 3)]);
    assert!(release.contains(&CoreAction::EmitMiddleClick));
}

#[test]
fn replay_pending_zero_net_motion_emits_no_motion() {
    let cfg = CoreConfig {
        mode: Mode::HoldProgressive,
        replay_pending_motion_on_click: true,
        ..CoreConfig::default()
    };
    let mut e = engine_with(cfg);

    e.process(CoreInputEvent::MiddleDown);
    e.process(CoreInputEvent::Motion { dx: 3, dy: -2 });
    e.process(CoreInputEvent::Motion { dx: -3, dy: 2 });
    let release = e.process(CoreInputEvent::MiddleUp);

    assert!(!release
        .iter()
        .any(|a| matches!(a, CoreAction::ForwardMotion { .. })));
    assert!(release.contains(&CoreAction::EmitMiddleClick));
}

#[test]
fn default_profile_is_smooth_progressive_curve() {
    // The default config must not carry speed steps: scrolling follows the
    // continuous min/max curve, and speed grows strictly with distance.
    let cfg = CoreConfig::default();
    assert!(cfg.scroll_speed_steps.is_empty());

    let mut e = engine_with(cfg.clone());
    e.process(CoreInputEvent::MiddleDown);
    e.process(CoreInputEvent::Motion { dx: 0, dy: 40 });
    let near = count_hires(&run_for(&mut e, 1.0, 8_333));

    let mut far = engine_with(cfg);
    far.process(CoreInputEvent::MiddleDown);
    far.process(CoreInputEvent::Motion { dx: 0, dy: 100 });
    let far_units = count_hires(&run_for(&mut far, 1.0, 8_333));

    assert!(near < 0 && far_units < 0, "downward motion scrolls down");
    assert!(
        far_units.abs() > near.abs(),
        "speed must increase smoothly with distance ({far_units} vs {near})"
    );
}

#[test]
fn left_button_passthrough_in_idle() {
    let mut e = engine();
    let down = e.process(CoreInputEvent::LeftDown);
    assert_eq!(
        down,
        vec![CoreAction::ForwardMouseButton {
            button: MouseButton::Left,
            pressed: true,
        }]
    );
    let up = e.process(CoreInputEvent::LeftUp);
    assert_eq!(
        up,
        vec![CoreAction::ForwardMouseButton {
            button: MouseButton::Left,
            pressed: false,
        }]
    );
}

#[test]
fn right_button_passthrough_during_scrolling() {
    let mut e = hold_engine();
    e.process(CoreInputEvent::MiddleDown);
    e.process(CoreInputEvent::Motion { dx: 0, dy: 50 });
    let click = e.process(CoreInputEvent::RightDown);
    assert_eq!(
        click,
        vec![CoreAction::ForwardMouseButton {
            button: MouseButton::Right,
            pressed: true,
        }]
    );
}

#[test]
fn real_wheel_passes_through_in_all_states() {
    let mut e = engine();
    let idle = e.process(CoreInputEvent::Wheel {
        vertical: 1,
        horizontal: 0,
    });
    assert!(matches!(
        idle.as_slice(),
        [CoreAction::ForwardWheel {
            vertical: 1,
            horizontal: 0
        }]
    ));

    e.process(CoreInputEvent::MiddleDown);
    let pending = e.process(CoreInputEvent::Wheel {
        vertical: -1,
        horizontal: 0,
    });
    assert!(matches!(
        pending.as_slice(),
        [CoreAction::ForwardWheel {
            vertical: -1,
            horizontal: 0
        }]
    ));

    e.process(CoreInputEvent::Motion { dx: 0, dy: 50 });
    let scrolling = e.process(CoreInputEvent::Wheel {
        vertical: 2,
        horizontal: 0,
    });
    assert!(matches!(
        scrolling.as_slice(),
        [CoreAction::ForwardWheel {
            vertical: 2,
            horizontal: 0
        }]
    ));
}

#[test]
fn offset_is_clamped_to_max_offset_units() {
    let mut e = engine();
    e.process(CoreInputEvent::MiddleDown);
    e.process(CoreInputEvent::Motion { dx: 0, dy: 100_000 });
    assert_eq!(e.offset_y_units(), 240);

    e.process(CoreInputEvent::Motion {
        dx: 0,
        dy: -1_000_000,
    });
    assert_eq!(e.offset_y_units(), -240);
}

#[test]
fn detents_are_capped_per_tick() {
    let cfg = CoreConfig {
        max_detents_per_tick: 2,
        max_speed_detents_per_second: number(1_000_000.0),
        scroll_speed_steps: vec![SpeedStep {
            distance_units: 11,
            speed_detents_per_second: number(1_000_000.0),
        }],
        ..CoreConfig::default()
    };
    let mut e = engine_with(cfg);

    e.process(CoreInputEvent::MiddleDown);
    e.process(CoreInputEvent::Motion { dx: 0, dy: 240 });
    let actions = e.process(CoreInputEvent::Tick {
        dt_micros: 1_000_000,
    });

    for action in &actions {
        if let CoreAction::EmitWheelDetents { vertical, .. } = action {
            assert!(vertical.abs() <= 2, "got {vertical} in single emit");
        }
    }
}

#[test]
fn scroll_speed_steps_pick_last_reached_distance() {
    let cfg = CoreConfig {
        emit_hires_wheel: false,
        scroll_speed_steps: vec![
            SpeedStep {
                distance_units: 20,
                speed_detents_per_second: number(2.0),
            },
            SpeedStep {
                distance_units: 100,
                speed_detents_per_second: number(8.0),
            },
        ],
        ..CoreConfig::default()
    };

    let mut slow = engine_with(cfg.clone());
    slow.process(CoreInputEvent::MiddleDown);
    slow.process(CoreInputEvent::Motion { dx: 0, dy: 30 });
    let slow_detents = count_detents(&run_for(&mut slow, 1.0, 100_000)).abs();

    let mut fast = engine_with(cfg);
    fast.process(CoreInputEvent::MiddleDown);
    fast.process(CoreInputEvent::Motion { dx: 0, dy: 120 });
    let fast_detents = count_detents(&run_for(&mut fast, 1.0, 100_000)).abs();

    assert!(
        (1..=3).contains(&slow_detents),
        "expected roughly 2 detents, got {slow_detents}"
    );
    assert!(
        (7..=9).contains(&fast_detents),
        "expected roughly 8 detents, got {fast_detents}"
    );
    assert!(fast_detents > slow_detents);
}

#[test]
fn empty_scroll_speed_steps_fall_back_to_continuous_curve() {
    let cfg = CoreConfig {
        emit_hires_wheel: false,
        scroll_speed_steps: Vec::new(),
        min_speed_detents_per_second: number(5.0),
        max_speed_detents_per_second: number(5.0),
        ..CoreConfig::default()
    };
    let mut e = engine_with(cfg);

    e.process(CoreInputEvent::MiddleDown);
    e.process(CoreInputEvent::Motion { dx: 0, dy: 40 });
    let detents = count_detents(&run_for(&mut e, 1.0, 100_000)).abs();

    assert!(
        (4..=6).contains(&detents),
        "expected roughly 5 detents, got {detents}"
    );
}

#[test]
fn zero_dt_tick_emits_nothing() {
    let mut e = engine();
    e.process(CoreInputEvent::MiddleDown);
    e.process(CoreInputEvent::Motion { dx: 0, dy: 120 });
    let actions = e.process(CoreInputEvent::Tick { dt_micros: 0 });
    assert!(actions.is_empty());
}

#[test]
fn middle_down_resets_offset_and_accumulators_from_previous_session() {
    let mut e = engine();
    e.process(CoreInputEvent::MiddleDown);
    e.process(CoreInputEvent::Motion { dx: 0, dy: 200 });
    let _ = run_for(&mut e, 1.0, 8333);
    e.process(CoreInputEvent::MiddleUp);

    assert_eq!(e.offset_y_units(), 0);
    e.process(CoreInputEvent::MiddleDown);
    assert_eq!(e.offset_y_units(), 0);
    let nothing = e.process(CoreInputEvent::Tick { dt_micros: 8333 });
    assert!(nothing.is_empty());
}

#[test]
fn speed_curve_respects_min_at_just_above_deadzone() {
    let mut e = engine();
    e.process(CoreInputEvent::MiddleDown);
    e.process(CoreInputEvent::Motion { dx: 0, dy: 11 });

    let actions = run_for(&mut e, 1.0, 8333);
    let detents = count_detents(&actions).abs();
    let cfg = CoreConfig::default();
    let expected_min = float(cfg.min_speed_detents_per_second).floor() as i32;
    assert!(
        detents >= expected_min,
        "expected at least {expected_min} detents at min speed, got {detents}"
    );
}

#[test]
fn speed_curve_respects_max_at_full_speed_offset() {
    let mut e = engine();
    e.process(CoreInputEvent::MiddleDown);
    e.process(CoreInputEvent::Motion { dx: 0, dy: 240 });

    let actions = run_for(&mut e, 1.0, 8333);
    let detents = count_detents(&actions).abs();
    let cfg = CoreConfig::default();
    let max = float(cfg.max_speed_detents_per_second).ceil() as i32;
    let cap = cfg.tick_hz as i32 * cfg.max_detents_per_tick;
    let upper = max.min(cap) + 2;
    assert!(
        detents <= upper,
        "expected <= {upper} detents at max speed, got {detents}"
    );
}

fn engine_horizontal() -> Engine {
    engine_with(CoreConfig {
        horizontal_scroll: true,
        ..CoreConfig::default()
    })
}

#[test]
fn horizontal_motion_is_ignored_when_horizontal_scroll_disabled() {
    let mut e = engine_with(CoreConfig {
        horizontal_scroll: false,
        ..CoreConfig::default()
    });
    e.process(CoreInputEvent::MiddleDown);
    e.process(CoreInputEvent::Motion { dx: 200, dy: 0 });

    assert_eq!(e.offset_x_units(), 0);
    assert_eq!(e.state(), EngineState::MiddlePending);

    let actions = run_for(&mut e, 1.0, 8333);
    assert_eq!(count_detents_h(&actions), 0);
    assert_eq!(count_hires_h(&actions), 0);
}

#[test]
fn horizontal_motion_above_deadzone_enters_scroll_mode() {
    let mut e = engine_horizontal();
    e.process(CoreInputEvent::MiddleDown);
    let actions = e.process(CoreInputEvent::Motion { dx: 11, dy: 0 });
    assert!(actions.contains(&CoreAction::EnterScrollMode));
    assert_eq!(e.state(), EngineState::Scrolling);
}

#[test]
fn horizontal_deadzone_does_not_scroll_inside_band() {
    let mut e = engine_horizontal();
    e.process(CoreInputEvent::MiddleDown);
    let actions = e.process(CoreInputEvent::Motion { dx: 5, dy: 0 });

    assert!(!actions.contains(&CoreAction::EnterScrollMode));
    assert_eq!(e.state(), EngineState::MiddlePending);

    let tick = e.process(CoreInputEvent::Tick { dt_micros: 8333 });
    assert!(tick.is_empty());
}

#[test]
fn scroll_right_emits_positive_horizontal_legacy_detents() {
    let mut e = engine_horizontal();
    e.process(CoreInputEvent::MiddleDown);
    e.process(CoreInputEvent::Motion { dx: 120, dy: 0 });
    let actions = run_for(&mut e, 1.0, 8333);
    let total = count_detents_h(&actions);
    assert!(
        total > 0,
        "expected positive horizontal detents, got {total}"
    );
    assert_eq!(
        count_detents(&actions),
        0,
        "no vertical detents expected for pure horizontal motion"
    );
}

#[test]
fn scroll_left_emits_negative_horizontal_legacy_detents() {
    let mut e = engine_horizontal();
    e.process(CoreInputEvent::MiddleDown);
    e.process(CoreInputEvent::Motion { dx: -120, dy: 0 });
    let actions = run_for(&mut e, 1.0, 8333);
    let total = count_detents_h(&actions);
    assert!(
        total < 0,
        "expected negative horizontal detents, got {total}"
    );
}

#[test]
fn higher_horizontal_offset_produces_more_detents_per_second() {
    let mut slow = engine_horizontal();
    slow.process(CoreInputEvent::MiddleDown);
    slow.process(CoreInputEvent::Motion { dx: 30, dy: 0 });
    let slow_actions = run_for(&mut slow, 1.0, 8333);

    let mut fast = engine_horizontal();
    fast.process(CoreInputEvent::MiddleDown);
    fast.process(CoreInputEvent::Motion { dx: 120, dy: 0 });
    let fast_actions = run_for(&mut fast, 1.0, 8333);

    let slow_total = count_detents_h(&slow_actions).abs();
    let fast_total = count_detents_h(&fast_actions).abs();
    assert!(
        fast_total > slow_total,
        "expected fast ({fast_total}) > slow ({slow_total})"
    );
}

#[test]
fn horizontal_return_to_deadzone_stops_scrolling() {
    let mut e = engine_horizontal();
    e.process(CoreInputEvent::MiddleDown);
    e.process(CoreInputEvent::Motion { dx: 120, dy: 0 });
    e.process(CoreInputEvent::Motion { dx: -115, dy: 0 });

    assert!(e.offset_x_units().abs() <= 10);

    let mut total = 0i32;
    for _ in 0..120 {
        let actions = e.process(CoreInputEvent::Tick { dt_micros: 8333 });
        total += count_detents_h(&actions);
    }
    assert_eq!(
        total, 0,
        "no horizontal detents should be emitted in deadzone"
    );
}

#[test]
fn horizontal_crossing_zero_inverts_scroll_direction() {
    let mut e = engine_horizontal();
    e.process(CoreInputEvent::MiddleDown);
    e.process(CoreInputEvent::Motion { dx: 100, dy: 0 });
    let right = run_for(&mut e, 0.5, 8333);
    let right_total = count_detents_h(&right);
    assert!(right_total > 0, "expected scroll right, got {right_total}");

    e.process(CoreInputEvent::Motion { dx: -220, dy: 0 });
    assert!(e.offset_x_units() < 0);

    let left = run_for(&mut e, 0.5, 8333);
    let left_total = count_detents_h(&left);
    assert!(
        left_total < 0,
        "expected scroll left after inversion, got {left_total}"
    );
}

#[test]
fn invert_horizontal_flips_scroll_signs() {
    let cfg = CoreConfig {
        horizontal_scroll: true,
        invert_horizontal: true,
        ..CoreConfig::default()
    };
    let mut e = engine_with(cfg);

    e.process(CoreInputEvent::MiddleDown);
    e.process(CoreInputEvent::Motion { dx: 120, dy: 0 });
    let actions = run_for(&mut e, 1.0, 8333);
    let total = count_detents_h(&actions);
    assert!(
        total < 0,
        "with invert_horizontal, mouse-right should produce negative detents; got {total}"
    );
}

#[test]
fn horizontal_hires_units_track_legacy_detents_at_120_per_detent() {
    let mut e = engine_horizontal();
    e.process(CoreInputEvent::MiddleDown);
    e.process(CoreInputEvent::Motion { dx: 240, dy: 0 });
    let actions = run_for(&mut e, 2.0, 8333);

    let detents = count_detents_h(&actions);
    let hires = count_hires_h(&actions);

    let ratio = f64::from(hires) / f64::from(detents);
    assert!(
        (ratio - 120.0).abs() < 5.0,
        "expected ~120 hi-res units per detent, got ratio={ratio}"
    );
}

#[test]
fn horizontal_and_vertical_scroll_independently_in_diagonal_motion() {
    let mut e = engine_horizontal();
    e.process(CoreInputEvent::MiddleDown);
    e.process(CoreInputEvent::Motion { dx: 120, dy: 120 });

    let actions = run_for(&mut e, 1.0, 8333);
    let v = count_detents(&actions);
    let h = count_detents_h(&actions);

    assert!(v < 0, "vertical down should be negative, got {v}");
    assert!(h > 0, "horizontal right should be positive, got {h}");
}

#[test]
fn horizontal_scroll_speed_steps_pick_last_reached_distance() {
    let cfg = CoreConfig {
        horizontal_scroll: true,
        emit_hires_wheel: false,
        scroll_speed_steps: vec![
            SpeedStep {
                distance_units: 20,
                speed_detents_per_second: number(2.0),
            },
            SpeedStep {
                distance_units: 100,
                speed_detents_per_second: number(8.0),
            },
        ],
        ..CoreConfig::default()
    };

    let mut slow = engine_with(cfg.clone());
    slow.process(CoreInputEvent::MiddleDown);
    slow.process(CoreInputEvent::Motion { dx: 30, dy: 0 });
    let slow_detents = count_detents_h(&run_for(&mut slow, 1.0, 100_000)).abs();

    let mut fast = engine_with(cfg);
    fast.process(CoreInputEvent::MiddleDown);
    fast.process(CoreInputEvent::Motion { dx: 120, dy: 0 });
    let fast_detents = count_detents_h(&run_for(&mut fast, 1.0, 100_000)).abs();

    assert!(
        (1..=3).contains(&slow_detents),
        "expected roughly 2 detents, got {slow_detents}"
    );
    assert!(
        (7..=9).contains(&fast_detents),
        "expected roughly 8 detents, got {fast_detents}"
    );
}

#[test]
fn horizontal_offset_is_clamped_to_max_offset_units() {
    let mut e = engine_horizontal();
    e.process(CoreInputEvent::MiddleDown);
    e.process(CoreInputEvent::Motion { dx: 100_000, dy: 0 });
    assert_eq!(e.offset_x_units(), 240);

    e.process(CoreInputEvent::Motion {
        dx: -1_000_000,
        dy: 0,
    });
    assert_eq!(e.offset_x_units(), -240);
}

#[test]
fn horizontal_motion_inside_deadzone_does_not_disturb_short_click() {
    let mut e = engine_with(CoreConfig {
        mode: Mode::HoldProgressive,
        horizontal_scroll: true,
        ..CoreConfig::default()
    });
    e.process(CoreInputEvent::MiddleDown);
    e.process(CoreInputEvent::Motion { dx: 4, dy: 0 });
    e.process(CoreInputEvent::Motion { dx: -3, dy: 0 });
    let up = e.process(CoreInputEvent::MiddleUp);
    assert_eq!(up, vec![CoreAction::EmitMiddleClick]);
    assert_eq!(e.state(), EngineState::Idle);
}

#[test]
fn horizontal_release_during_scroll_returns_to_idle() {
    let mut e = engine_horizontal();
    e.process(CoreInputEvent::MiddleDown);
    e.process(CoreInputEvent::Motion { dx: 100, dy: 0 });
    let _ = run_for(&mut e, 0.2, 8333);

    let release = e.process(CoreInputEvent::MiddleUp);
    assert!(release.contains(&CoreAction::ExitScrollMode));
    assert!(!release.contains(&CoreAction::EmitMiddleClick));
    assert_eq!(e.state(), EngineState::Idle);
    assert_eq!(e.offset_x_units(), 0);
}

// ===========================================================================
// Toggle mode tests (double-click to enter, any click to exit)
// ===========================================================================

#[test]
fn toggle_single_click_defers_then_emits_after_window() {
    // Single middle-click: release defers the click, window expires, click emitted
    let mut e = engine();
    e.process(CoreInputEvent::MiddleDown);
    assert_eq!(e.state(), EngineState::MiddlePending);

    e.process(CoreInputEvent::MiddleUp);
    // After release, state returns to Idle waiting for second click or window expiry
    assert_eq!(e.state(), EngineState::Idle);

    // Wait for double-click window to expire (>200ms)
    let mut emitted_click = false;
    for _ in 0..30 {
        let actions = e.process(CoreInputEvent::Tick { dt_micros: 8333 });
        if actions.contains(&CoreAction::EmitMiddleClick) {
            emitted_click = true;
            break;
        }
    }
    assert!(emitted_click, "Middle click should be emitted after window expires");
}

#[test]
fn toggle_double_click_enters_scroll_mode() {
    let mut e = engine();

    // First click
    e.process(CoreInputEvent::MiddleDown);
    e.process(CoreInputEvent::MiddleUp);
    assert_eq!(e.state(), EngineState::Idle);

    // Second click within the window (no ticks between = instant)
    e.process(CoreInputEvent::MiddleDown);
    let actions = e.process(CoreInputEvent::MiddleUp);
    assert!(actions.contains(&CoreAction::EnterScrollMode));
    assert_eq!(e.state(), EngineState::Scrolling);
}

#[test]
fn toggle_locked_scroll_not_exited_by_middle_up() {
    let mut e = engine();

    // Double-click to enter scroll (toggle_locked = true)
    e.process(CoreInputEvent::MiddleDown);
    e.process(CoreInputEvent::MiddleUp);
    e.process(CoreInputEvent::MiddleDown);
    e.process(CoreInputEvent::MiddleUp);
    assert_eq!(e.state(), EngineState::Scrolling);

    // Stray MiddleUp should NOT exit (we're already idle in terms of physical button)
    // Actually the second MiddleUp already entered scrolling.
    // A new MiddleDown should exit:
    let actions = e.process(CoreInputEvent::MiddleDown);
    assert!(actions.contains(&CoreAction::ExitScrollMode));
    assert_eq!(e.state(), EngineState::Idle);
}

#[test]
fn toggle_left_click_exits_locked_scroll() {
    let mut e = engine();

    // Double-click to enter
    e.process(CoreInputEvent::MiddleDown);
    e.process(CoreInputEvent::MiddleUp);
    e.process(CoreInputEvent::MiddleDown);
    e.process(CoreInputEvent::MiddleUp);
    assert_eq!(e.state(), EngineState::Scrolling);

    // Left click exits, consumed
    let click = e.process(CoreInputEvent::LeftDown);
    assert!(click.contains(&CoreAction::ExitScrollMode));
    assert_eq!(e.state(), EngineState::Idle);
    assert!(!click.contains(&CoreAction::ForwardMouseButton {
        button: MouseButton::Left,
        pressed: true,
    }));
}

#[test]
fn toggle_right_click_exits_locked_scroll() {
    let mut e = engine();

    // Double-click to enter
    e.process(CoreInputEvent::MiddleDown);
    e.process(CoreInputEvent::MiddleUp);
    e.process(CoreInputEvent::MiddleDown);
    e.process(CoreInputEvent::MiddleUp);
    assert_eq!(e.state(), EngineState::Scrolling);

    let click = e.process(CoreInputEvent::RightDown);
    assert!(click.contains(&CoreAction::ExitScrollMode));
    assert_eq!(e.state(), EngineState::Idle);
}

#[test]
fn toggle_motion_past_deadzone_enters_scroll_not_locked() {
    // Hold + move past deadzone = scroll mode but NOT locked (release exits)
    let mut e = engine();
    e.process(CoreInputEvent::MiddleDown);
    let actions = e.process(CoreInputEvent::Motion { dx: 0, dy: 15 });
    assert!(actions.contains(&CoreAction::EnterScrollMode));
    assert_eq!(e.state(), EngineState::Scrolling);

    // Release should exit (not locked)
    let up = e.process(CoreInputEvent::MiddleUp);
    assert!(up.contains(&CoreAction::ExitScrollMode));
    assert_eq!(e.state(), EngineState::Idle);
}

#[test]
fn toggle_scrolling_emits_wheel_on_tick() {
    let mut e = engine();

    // Double-click to enter
    e.process(CoreInputEvent::MiddleDown);
    e.process(CoreInputEvent::MiddleUp);
    e.process(CoreInputEvent::MiddleDown);
    e.process(CoreInputEvent::MiddleUp);
    assert_eq!(e.state(), EngineState::Scrolling);

    // Move mouse down
    e.process(CoreInputEvent::Motion { dx: 0, dy: 50 });

    // Tick should emit wheel events
    let actions = run_for(&mut e, 1.0, 8333);
    let detents = count_detents(&actions);
    assert!(detents < 0, "Expected negative detents, got {detents}");
}

#[test]
fn toggle_motion_suppressed_while_scrolling() {
    let mut e = engine();

    // Double-click to enter
    e.process(CoreInputEvent::MiddleDown);
    e.process(CoreInputEvent::MiddleUp);
    e.process(CoreInputEvent::MiddleDown);
    e.process(CoreInputEvent::MiddleUp);

    let actions = e.process(CoreInputEvent::Motion { dx: 5, dy: 10 });
    assert!(actions.contains(&CoreAction::Suppress));
    assert!(!actions.iter().any(|a| matches!(a, CoreAction::ForwardMotion { .. })));
}

#[test]
fn toggle_scroll_wheel_passes_through_while_scrolling() {
    let mut e = engine();

    // Double-click to enter
    e.process(CoreInputEvent::MiddleDown);
    e.process(CoreInputEvent::MiddleUp);
    e.process(CoreInputEvent::MiddleDown);
    e.process(CoreInputEvent::MiddleUp);

    let actions = e.process(CoreInputEvent::Wheel {
        vertical: -1,
        horizontal: 0,
    });
    assert!(actions.contains(&CoreAction::ForwardWheel {
        vertical: -1,
        horizontal: 0,
    }));
}

#[test]
fn toggle_zero_threshold_enters_on_any_single_release() {
    // With hold_threshold_ms = 0, any release enters scroll (no double-click needed)
    let cfg = CoreConfig {
        mode: Mode::Toggle,
        hold_threshold_ms: 0,
        ..CoreConfig::default()
    };
    let mut e = engine_with(cfg);
    e.process(CoreInputEvent::MiddleDown);
    let up = e.process(CoreInputEvent::MiddleUp);
    assert!(up.contains(&CoreAction::EnterScrollMode));
    assert_eq!(e.state(), EngineState::Scrolling);
}

/// The tick of an engine as one piece of arithmetic, for comparison.
struct Reference {
    config: CoreConfig,
    y: i32,
    x: i32,
    detents: [f64; 2],
    hires: [f64; 2],
}

impl Reference {
    fn speed(&self, distance: i32) -> f64 {
        if distance <= self.config.deadzone_units {
            return 0.0;
        }
        for step in self.config.scroll_speed_steps.iter().rev() {
            if distance >= step.distance_units {
                return float(step.speed_detents_per_second);
            }
        }
        let normalized = (f64::from(distance - self.config.deadzone_units)
            / f64::from(self.config.full_speed_units))
        .clamp(0.0, 1.0);
        let min = float(self.config.min_speed_detents_per_second);
        let max = float(self.config.max_speed_detents_per_second);
        (max - min).mul_add(
            normalized.powf(float(self.config.acceleration_exponent)),
            min,
        )
    }

    fn tick(&mut self, dt_micros: u64) -> Vec<CoreAction> {
        let seconds = dt_micros as f64 / 1_000_000.0;
        let mut out = Vec::new();
        for axis in 0..2 {
            let offset = if axis == 0 { self.y } else { self.x };
            let mut direction = f64::from(offset.signum());
            if axis == 0 {
                direction = -direction;
            }
            let speed = self.speed(offset.abs());
            if speed == 0.0 {
                continue;
            }
            let delta = direction * speed * seconds;
            if !delta.is_finite() {
                self.detents[axis] = 0.0;
                self.hires[axis] = 0.0;
                continue;
            }
            let max = self.config.max_detents_per_tick;
            self.detents[axis] += delta;
            loop {
                let raw = self.detents[axis].trunc() as i32;
                if raw == 0 {
                    break;
                }
                let n = raw.clamp(-max, max);
                out.push(CoreAction::EmitWheelDetents {
                    vertical: if axis == 0 { n } else { 0 },
                    horizontal: if axis == 0 { 0 } else { n },
                });
                self.detents[axis] -= f64::from(n);
                if n != raw {
                    self.detents[axis] = 0.0;
                    break;
                }
            }
            self.hires[axis] = delta.mul_add(120.0, self.hires[axis]);
            let raw = self.hires[axis].trunc() as i32;
            if raw.unsigned_abs() >= self.config.min_hires_units_per_event as u32 {
                let n = raw.clamp(-max * 120, max * 120);
                self.hires[axis] = if n == raw {
                    self.hires[axis] - f64::from(n)
                } else {
                    0.0
                };
                out.push(CoreAction::EmitWheelHiRes {
                    vertical_units: if axis == 0 { n } else { 0 },
                    horizontal_units: if axis == 0 { 0 } else { n },
                });
            }
        }
        out
    }
}

fn agree(config: CoreConfig, y: i32, x: i32, dt_micros: u64, ticks: u32) {
    let mut e = Engine::new(config.clone());
    e.process(CoreInputEvent::MiddleDown);
    e.process(CoreInputEvent::Motion { dx: x, dy: y });
    let mut reference = Reference {
        config,
        y: e.offset_y_units(),
        x: e.offset_x_units(),
        detents: [0.0; 2],
        hires: [0.0; 2],
    };
    for _ in 0..ticks {
        assert_eq!(
            e.process(CoreInputEvent::Tick { dt_micros }),
            reference.tick(dt_micros)
        );
    }
}

#[test]
fn ticks_follow_the_arithmetic_exactly() {
    for (y, x) in [(120, 0), (-37, 55), (11, -240), (100, 100), (240, -11)] {
        for dt_micros in [0, 1, 8333, 100_000, 5_000_000] {
            agree(CoreConfig::default(), y, x, dt_micros, 200);
        }
    }
}

#[test]
fn ticks_with_extreme_speeds_follow_the_arithmetic_exactly() {
    for speed in [1e-300, 1e300, 3.5e9, 0.3] {
        let config = CoreConfig {
            scroll_speed_steps: vec![SpeedStep {
                distance_units: 11,
                speed_detents_per_second: number(speed),
            }],
            ..CoreConfig::default()
        };
        agree(config.clone(), 50, -50, 1_000_000, 5);
        agree(config, -50, 50, u64::MAX, 3);
    }
}

#[test]
fn a_tick_that_overflows_clears_the_accumulators() {
    let config = CoreConfig {
        scroll_speed_steps: vec![SpeedStep {
            distance_units: 11,
            speed_detents_per_second: number(1e308),
        }],
        ..CoreConfig::default()
    };
    let mut e = Engine::new(config);
    e.process(CoreInputEvent::MiddleDown);
    e.process(CoreInputEvent::Motion { dx: 0, dy: 20 });
    assert!(e
        .process(CoreInputEvent::Tick {
            dt_micros: u64::MAX
        })
        .is_empty());
}

#[test]
fn first_tick_asks_for_the_speed_on_the_curve() {
    let mut e = scrollock::Engine::new(CoreConfig::default());
    e.process(CoreInputEvent::MiddleDown);
    e.process(CoreInputEvent::Motion { dx: 0, dy: 70 });
    let (actions, task) = e.process(CoreInputEvent::Tick { dt_micros: 8333 });
    assert!(actions.is_empty());
    assert_eq!(
        task,
        WheelTask::Curve {
            axis: scrollock::Axis::Vertical,
            dt_micros: 8333,
            active_units: 60,
            full_speed_units: 120,
            min_speed: number(1.5),
            max_speed: number(32.0),
            exponent: number(1.6),
        }
    );
    assert_eq!(
        compute(task),
        (32.0f64 - 1.5).mul_add(0.5f64.powf(1.6), 1.5)
    );
    let mut out = Vec::new();
    let next = e.resume_tick(task, number(8.0), &mut out);
    assert_eq!(
        next,
        WheelTask::Delta {
            axis: scrollock::Axis::Vertical,
            dt_micros: 8333,
            direction: -1,
            speed: number(8.0),
        }
    );
}

#[test]
fn whole_detents_are_taken_out_until_none_is_left() {
    let config = CoreConfig {
        emit_hires_wheel: false,
        horizontal_scroll: false,
        max_detents_per_tick: 10,
        scroll_speed_steps: vec![SpeedStep {
            distance_units: 11,
            speed_detents_per_second: number(3.5),
        }],
        ..CoreConfig::default()
    };
    let mut e = Engine::new(config);
    e.process(CoreInputEvent::MiddleDown);
    e.process(CoreInputEvent::Motion { dx: 0, dy: -20 });
    let tick = CoreInputEvent::Tick {
        dt_micros: 1_000_000,
    };
    let three = vec![CoreAction::EmitWheelDetents {
        vertical: 3,
        horizontal: 0,
    }];
    let four = vec![CoreAction::EmitWheelDetents {
        vertical: 4,
        horizontal: 0,
    }];
    assert_eq!(e.process(tick), three);
    assert_eq!(e.process(tick), four);
}

#[test]
fn what_exceeds_the_cap_is_dropped() {
    let config = CoreConfig {
        horizontal_scroll: false,
        scroll_speed_steps: vec![SpeedStep {
            distance_units: 11,
            speed_detents_per_second: number(9.5),
        }],
        ..CoreConfig::default()
    };
    let mut e = Engine::new(config);
    e.process(CoreInputEvent::MiddleDown);
    e.process(CoreInputEvent::Motion { dx: 0, dy: 20 });
    for _ in 0..3 {
        assert_eq!(
            e.process(CoreInputEvent::Tick {
                dt_micros: 1_000_000
            }),
            vec![
                CoreAction::EmitWheelDetents {
                    vertical: -4,
                    horizontal: 0
                },
                CoreAction::EmitWheelHiRes {
                    vertical_units: -480,
                    horizontal_units: 0
                },
            ]
        );
    }
}

#[test]
fn holding_through_the_window_locks_scroll_mode() {
    let mut e = engine();
    e.process(CoreInputEvent::MiddleDown);
    assert!(e
        .process(CoreInputEvent::Tick { dt_micros: 154_999 })
        .is_empty());
    assert_eq!(
        e.process(CoreInputEvent::Tick { dt_micros: 1 }),
        vec![CoreAction::EnterScrollMode]
    );
    assert!(e.process(CoreInputEvent::MiddleUp).is_empty());
    assert_eq!(e.state(), EngineState::Scrolling);
}

#[test]
fn deferred_click_comes_once_and_just_after_the_window() {
    let mut e = engine();
    e.process(CoreInputEvent::MiddleDown);
    assert!(e.process(CoreInputEvent::MiddleUp).is_empty());
    assert!(e
        .process(CoreInputEvent::Tick { dt_micros: 155_000 })
        .is_empty());
    assert_eq!(
        e.process(CoreInputEvent::Tick { dt_micros: 1 }),
        vec![CoreAction::EmitMiddleClick]
    );
    assert!(e
        .process(CoreInputEvent::Tick {
            dt_micros: u64::MAX
        })
        .is_empty());
}

#[test]
fn releases_are_swallowed_while_scroll_mode_is_locked() {
    let mut e = engine();
    for _ in 0..2 {
        e.process(CoreInputEvent::MiddleDown);
        e.process(CoreInputEvent::MiddleUp);
    }
    for event in [
        CoreInputEvent::MiddleUp,
        CoreInputEvent::LeftUp,
        CoreInputEvent::RightUp,
    ] {
        assert!(e.process(event).is_empty());
        assert_eq!(e.state(), EngineState::Scrolling);
    }
}

#[test]
fn pending_motion_saturates() {
    let mut e = Engine::new(CoreConfig {
        mode: Mode::HoldProgressive,
        replay_pending_motion_on_click: true,
        horizontal_scroll: false,
        ..CoreConfig::default()
    });
    e.process(CoreInputEvent::MiddleDown);
    e.process(CoreInputEvent::Motion {
        dx: i32::MAX,
        dy: 0,
    });
    e.process(CoreInputEvent::Motion { dx: 5, dy: 0 });
    assert_eq!(
        e.process(CoreInputEvent::MiddleUp),
        vec![
            CoreAction::ForwardMotion {
                dx: i32::MAX,
                dy: 0
            },
            CoreAction::EmitMiddleClick,
        ]
    );
}

#[test]
fn stray_release_at_rest_is_forwarded() {
    let mut e = engine();
    assert_eq!(
        e.process(CoreInputEvent::MiddleUp),
        vec![CoreAction::ForwardMouseButton {
            button: MouseButton::Middle,
            pressed: false,
        }]
    );
}

#[test]
fn restart_forgets_the_gesture() {
    let mut e = scrollock::Engine::new(CoreConfig::default());
    e.process(CoreInputEvent::MiddleDown);
    e.process(CoreInputEvent::Motion { dx: 9, dy: 90 });
    e.restart();
    assert_eq!(e.state(), EngineState::Idle);
    assert_eq!(e.offset_y_units(), 0);
    assert_eq!(e.offset_x_units(), 0);
    assert_eq!(e.config(), &CoreConfig::default());
}

#[test]
fn actions_are_appended_to_the_buffer() {
    let mut e = scrollock::Engine::new(CoreConfig::default());
    let mut out = vec![CoreAction::EmitMiddleClick];
    assert_eq!(
        e.process_into(CoreInputEvent::MiddleDown, &mut out),
        WheelTask::Done
    );
    assert_eq!(
        out,
        vec![CoreAction::EmitMiddleClick, CoreAction::Suppress]
    );
}

#[test]
fn each_fault_of_a_configuration_is_named() {
    let step = |distance_units: i32, speed: f64| SpeedStep {
        distance_units,
        speed_detents_per_second: number(speed),
    };
    let d = CoreConfig::default;
    let cases = vec![
        (
            CoreConfig {
                deadzone_units: -3,
                ..d()
            },
            ConfigError::NegativeDeadzone(-3),
        ),
        (
            CoreConfig {
                full_speed_units: 0,
                ..d()
            },
            ConfigError::NonPositiveFullSpeed(0),
        ),
        (
            CoreConfig {
                max_offset_units: 10,
                ..d()
            },
            ConfigError::MaxOffsetTooSmall {
                max: 10,
                deadzone: 10,
            },
        ),
        (
            CoreConfig {
                min_speed_detents_per_second: number(-0.0),
                ..d()
            },
            ConfigError::NonPositiveMinSpeed(number(-0.0)),
        ),
        (
            CoreConfig {
                max_speed_detents_per_second: number(1.25),
                ..d()
            },
            ConfigError::MaxSpeedLessThanMin {
                max: number(1.25),
                min: number(1.5),
            },
        ),
        (
            CoreConfig {
                acceleration_exponent: number(f64::NAN),
                ..d()
            },
            ConfigError::BadExponent(number(f64::NAN)),
        ),
        (
            CoreConfig {
                tick_hz: 10_001,
                ..d()
            },
            ConfigError::BadTickHz(10_001),
        ),
        (
            CoreConfig {
                max_detents_per_tick: 0,
                ..d()
            },
            ConfigError::BadMaxDetents(0),
        ),
        (
            CoreConfig {
                min_hires_units_per_event: 121,
                ..d()
            },
            ConfigError::BadMinHiResUnits(121),
        ),
        (
            CoreConfig {
                scroll_speed_steps: vec![step(20, 1.0), step(10, 1.0)],
                ..d()
            },
            ConfigError::BadSpeedStepDistance {
                index: 1,
                deadzone: 10,
                distance: 10,
            },
        ),
        (
            CoreConfig {
                scroll_speed_steps: vec![step(241, 1.0)],
                ..d()
            },
            ConfigError::SpeedStepBeyondMaxOffset {
                index: 0,
                distance: 241,
                max: 240,
            },
        ),
        (
            CoreConfig {
                scroll_speed_steps: vec![step(20, 1.0), step(20, 2.0)],
                ..d()
            },
            ConfigError::SpeedStepsNotSorted {
                index: 1,
                previous: 20,
                current: 20,
            },
        ),
        (
            CoreConfig {
                scroll_speed_steps: vec![step(20, 0.0)],
                ..d()
            },
            ConfigError::BadSpeedStepSpeed {
                index: 0,
                speed: number(0.0),
            },
        ),
    ];
    for (config, error) in cases {
        assert_eq!(config.validate(), Err(error));
    }
}

#[test]
fn the_first_fault_is_the_one_that_is_named() {
    let config = CoreConfig {
        deadzone_units: -1,
        tick_hz: 0,
        ..CoreConfig::default()
    };
    assert_eq!(config.validate(), Err(ConfigError::NegativeDeadzone(-1)));
}

#[test]
fn what_an_engine_can_run_on() {
    assert!(CoreConfig::default().can_run());
    assert!(!CoreConfig {
        hold_threshold_ms: u64::MAX / 1000 + 1,
        ..CoreConfig::default()
    }
    .can_run());
    let mut hold = scrollock::Engine::new(CoreConfig {
        mode: Mode::HoldProgressive,
        hold_threshold_ms: u64::MAX,
        ..CoreConfig::default()
    });
    assert!(hold.config().can_run());
    hold.process(CoreInputEvent::MiddleDown);
    hold.process(CoreInputEvent::Tick { dt_micros: 1 });
    hold.process(CoreInputEvent::MiddleUp);
    assert!(hold.process(CoreInputEvent::Tick { dt_micros: 1 }).0.is_empty());
    assert!(!CoreConfig {
        max_offset_units: -1,
        ..CoreConfig::default()
    }
    .can_run());
    assert!(!CoreConfig {
        deadzone_units: i32::MIN,
        ..CoreConfig::default()
    }
    .can_run());
}

#[test]
fn the_wheel_follows_the_pointer_when_it_turns_back() {
    for inverted in [false, true] {
        let mut e = Engine::new(CoreConfig {
            invert_vertical: inverted,
            invert_horizontal: inverted,
            ..CoreConfig::default()
        });
        e.process(CoreInputEvent::MiddleDown);
        let mut way = if inverted { -1 } else { 1 };
        for (dx, dy, ticks) in [(60, -60, 7), (-120, 120, 11), (150, -150, 200), (-190, 190, 3)] {
            e.process(CoreInputEvent::Motion { dx, dy });
            for _ in 0..ticks {
                let actions = e.process(CoreInputEvent::Tick { dt_micros: 8333 });
                let mut detents = [0; 2];
                let mut hires = [0; 2];
                for action in actions {
                    let (counts, v, h) = match action {
                        CoreAction::EmitWheelDetents {
                            vertical,
                            horizontal,
                        } => (&mut detents, vertical, horizontal),
                        CoreAction::EmitWheelHiRes {
                            vertical_units,
                            horizontal_units,
                        } => (&mut hires, vertical_units, horizontal_units),
                        other => panic!("unexpected {other:?}"),
                    };
                    for (axis, n) in [v, h].into_iter().enumerate() {
                        if n != 0 {
                            counts[axis] += 1;
                            assert_eq!(n.signum(), way);
                        }
                    }
                }
                assert!(detents.into_iter().chain(hires).all(|count| count <= 1));
            }
            way = -way;
        }
    }
}

#[test]
fn all_motion_within_the_deadzone_is_replayed_in_one_piece() {
    let mut e = Engine::new(CoreConfig {
        mode: Mode::HoldProgressive,
        replay_pending_motion_on_click: true,
        ..CoreConfig::default()
    });
    e.process(CoreInputEvent::MiddleDown);
    for (dx, dy) in [(3, -2), (4, 1), (-9, -5), (0, 2)] {
        assert_eq!(
            e.process(CoreInputEvent::Motion { dx, dy }),
            vec![CoreAction::Suppress]
        );
    }
    assert_eq!(
        e.process(CoreInputEvent::MiddleUp),
        vec![
            CoreAction::ForwardMotion { dx: -2, dy: -4 },
            CoreAction::EmitMiddleClick
        ]
    );
    e.process(CoreInputEvent::MiddleDown);
    e.process(CoreInputEvent::Motion { dx: 5, dy: 0 });
    e.process(CoreInputEvent::Motion { dx: -5, dy: 0 });
    assert_eq!(
        e.process(CoreInputEvent::MiddleUp),
        vec![CoreAction::EmitMiddleClick]
    );
}
