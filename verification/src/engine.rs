//! The autoscroll state machine.
//!
//! The engine turns input events and clock ticks into actions. All of its
//! decisions are made here. The one thing it leaves to its host is the
//! real-number arithmetic of a tick: on a tick in scroll mode it hands out a
//! [`WheelTask`], the host computes the number that the task describes, and
//! [`Engine::resume_tick`] goes on from there until the task is
//! [`WheelTask::Done`].

use vstd::prelude::*;

use crate::binary64::Binary64;
use crate::config::{CoreConfig, Mode, SpeedStep};
use crate::model::{CoreAction, CoreInputEvent, EngineState, MouseButton};

verus! {

/// High-resolution wheel units in one wheel detent.
pub const HIRES_UNITS_PER_DETENT: i32 = 120;

/// A wheel axis.
#[derive(Debug, Clone, Copy, PartialEq, Eq, Structural)]
pub enum Axis {
    Vertical,
    Horizontal,
}

/// A single computation on real numbers that a tick waits for.
#[derive(Debug, Clone, Copy, PartialEq, Eq, Structural)]
pub enum WheelTask {
    /// Nothing is left to do for this tick.
    Done,
    /// The speed on the progressive curve: `max_speed` less `min_speed`, times
    /// `active_units` over `full_speed_units` (clamped to the range from 0 to
    /// 1) to the power of `exponent`, plus `min_speed`; product and sum with
    /// one rounding.
    Curve {
        axis: Axis,
        dt_micros: u64,
        active_units: i32,
        full_speed_units: i32,
        min_speed: Binary64,
        max_speed: Binary64,
        exponent: Binary64,
    },
    /// `direction` times `speed` times the tick's length in seconds.
    Delta { axis: Axis, dt_micros: u64, direction: i32, speed: Binary64 },
    /// `accumulator` plus `delta`.
    AddDetents { axis: Axis, dt_micros: u64, accumulator: Binary64, delta: Binary64 },
    /// `accumulator` less `count`; `delta` is kept for the high-resolution
    /// wheel.
    TakeDetents {
        axis: Axis,
        dt_micros: u64,
        accumulator: Binary64,
        count: i32,
        delta: Binary64,
    },
    /// `delta` times 120 plus `accumulator`, with one rounding.
    AddHiRes { axis: Axis, dt_micros: u64, accumulator: Binary64, delta: Binary64 },
    /// `accumulator` less `count`.
    TakeHiRes { axis: Axis, dt_micros: u64, accumulator: Binary64, count: i32 },
}

/// How fast an axis scrolls at some distance from the press point.
#[derive(Debug, Clone, Copy, PartialEq, Eq, Structural)]
pub enum Speed {
    /// Inside the deadzone: not at all.
    Still,
    /// At the speed of the last step that was reached.
    Fixed(Binary64),
    /// On the progressive curve, this far beyond the deadzone.
    Curve { active_units: i32 },
}

/// The mathematical content of an engine.
pub struct EngineModel {
    pub state: EngineState,
    /// Pointer displacement since the press, down and to the right positive.
    pub offset_y: int,
    pub offset_x: int,
    pub detents_y: Binary64,
    pub hires_y: Binary64,
    pub detents_x: Binary64,
    pub hires_x: Binary64,
    /// Net suppressed motion while pending, as (right, down).
    pub pending_motion: (int, int),
    pub pending_elapsed_us: int,
    /// Time since the first click of a possible double click.
    pub since_click_us: Option<int>,
    /// Whether scroll mode stays on after the button is released.
    pub toggle_locked: bool,
}

/// What one event does to an engine.
pub struct Outcome {
    pub engine: EngineModel,
    pub actions: Seq<CoreAction>,
    pub task: WheelTask,
}

/// `x`, or the nearer end of the range from `-max` to `max`.
pub open spec fn clamped(x: int, max: int) -> int {
    if x < -max {
        -max
    } else if x > max {
        max
    } else {
        x
    }
}

/// `x`, or the nearer end of the `i32` range.
pub open spec fn saturated(x: int) -> int {
    if x < i32::MIN {
        i32::MIN as int
    } else if x > i32::MAX {
        i32::MAX as int
    } else {
        x
    }
}

pub open spec fn abs(x: int) -> int {
    if x < 0 {
        -x
    } else {
        x
    }
}

/// The action that forwards a button.
pub open spec fn forwarded(button: MouseButton, pressed: bool) -> Seq<CoreAction> {
    seq![CoreAction::ForwardMouseButton { button, pressed }]
}

/// The last step of `steps` that lies no further than `distance`.
pub open spec fn last_reached(steps: Seq<SpeedStep>, distance: int) -> Option<SpeedStep>
    decreases steps.len(),
{
    if steps.len() == 0 {
        None
    } else if distance >= steps.last().distance_units {
        Some(steps.last())
    } else {
        last_reached(steps.drop_last(), distance)
    }
}

/// The speed at `distance` from the press point.
pub open spec fn speed_at(config: CoreConfig, distance: int) -> Speed {
    if distance <= config.deadzone_units {
        Speed::Still
    } else {
        match last_reached(config.scroll_speed_steps@, distance) {
            Some(step) => Speed::Fixed(step.speed_detents_per_second),
            None => Speed::Curve { active_units: (distance - config.deadzone_units) as i32 },
        }
    }
}

/// The most high-resolution units in one event.
pub open spec fn max_hires_units(config: CoreConfig) -> int {
    saturated(config.max_detents_per_tick * HIRES_UNITS_PER_DETENT)
}

/// The fewest high-resolution units worth an event; a negative setting reads
/// as its unsigned bit pattern.
pub open spec fn min_hires_units(config: CoreConfig) -> int {
    if config.min_hires_units_per_event < 0 {
        config.min_hires_units_per_event + 0x1_0000_0000
    } else {
        config.min_hires_units_per_event as int
    }
}

/// The length of the double-click window.
pub open spec fn click_window_us(config: CoreConfig) -> int {
    config.hold_threshold_ms * 1000
}

/// Toggle mode with a hold threshold: clicks are deferred, and holding or
/// clicking twice locks scroll mode.
pub open spec fn defers_clicks(config: CoreConfig) -> bool {
    config.mode == Mode::Toggle && config.hold_threshold_ms > 0
}

impl EngineModel {
    /// An engine at rest.
    pub open spec fn initial() -> EngineModel {
        EngineModel {
            state: EngineState::Idle,
            offset_y: 0,
            offset_x: 0,
            detents_y: Binary64::spec_zero(),
            hires_y: Binary64::spec_zero(),
            detents_x: Binary64::spec_zero(),
            hires_x: Binary64::spec_zero(),
            pending_motion: (0, 0),
            pending_elapsed_us: 0,
            since_click_us: None,
            toggle_locked: false,
        }
    }

    /// Offsets within what the configuration allows, none to the side without
    /// horizontal scrolling, counters within their range, and a second click
    /// awaited only where clicks are deferred.
    pub open spec fn bounded(self, config: CoreConfig) -> bool {
        &&& abs(self.offset_y) <= config.max_offset_units
        &&& abs(self.offset_x) <= config.max_offset_units
        &&& 0 <= self.pending_elapsed_us <= u64::MAX
        &&& !config.horizontal_scroll ==> self.offset_x == 0
        &&& i32::MIN <= self.pending_motion.0 <= i32::MAX
        &&& i32::MIN <= self.pending_motion.1 <= i32::MAX
        &&& self.since_click_us matches Some(t) ==> 0 <= t < u64::MAX && defers_clicks(config)
    }

    pub open spec fn offset(self, axis: Axis) -> int {
        match axis {
            Axis::Vertical => self.offset_y,
            Axis::Horizontal => self.offset_x,
        }
    }

    pub open spec fn detents(self, axis: Axis) -> Binary64 {
        match axis {
            Axis::Vertical => self.detents_y,
            Axis::Horizontal => self.detents_x,
        }
    }

    pub open spec fn hires(self, axis: Axis) -> Binary64 {
        match axis {
            Axis::Vertical => self.hires_y,
            Axis::Horizontal => self.hires_x,
        }
    }

    pub open spec fn with_detents(self, axis: Axis, value: Binary64) -> EngineModel {
        match axis {
            Axis::Vertical => EngineModel { detents_y: value, ..self },
            Axis::Horizontal => EngineModel { detents_x: value, ..self },
        }
    }

    pub open spec fn with_hires(self, axis: Axis, value: Binary64) -> EngineModel {
        match axis {
            Axis::Vertical => EngineModel { hires_y: value, ..self },
            Axis::Horizontal => EngineModel { hires_x: value, ..self },
        }
    }

    /// Offsets and accumulators back at zero.
    pub open spec fn cleared(self) -> EngineModel {
        EngineModel {
            offset_y: 0,
            offset_x: 0,
            detents_y: Binary64::spec_zero(),
            hires_y: Binary64::spec_zero(),
            detents_x: Binary64::spec_zero(),
            hires_x: Binary64::spec_zero(),
            ..self
        }
    }

    /// The gesture is over; a pending double-click window is kept.
    pub open spec fn reset(self) -> EngineModel {
        EngineModel {
            state: EngineState::Idle,
            pending_motion: (0, 0),
            pending_elapsed_us: 0,
            toggle_locked: false,
            ..self.cleared()
        }
    }

    /// The pointer moved.
    pub open spec fn moved(self, config: CoreConfig, dx: int, dy: int) -> EngineModel {
        EngineModel {
            offset_y: clamped(self.offset_y + dy, config.max_offset_units as int),
            offset_x: if config.horizontal_scroll {
                clamped(self.offset_x + dx, config.max_offset_units as int)
            } else {
                self.offset_x
            },
            ..self
        }
    }

    /// Whether the pointer has left the deadzone.
    pub open spec fn outside_deadzone(self, config: CoreConfig) -> bool {
        ||| abs(self.offset_y) > config.deadzone_units
        ||| config.horizontal_scroll && abs(self.offset_x) > config.deadzone_units
    }

    /// Scroll mode, either locked or until the button is released.
    pub open spec fn scrolling(self, locked: bool) -> EngineModel {
        EngineModel {
            state: EngineState::Scrolling,
            toggle_locked: locked,
            pending_motion: (0, 0),
            since_click_us: None,
            ..self
        }
    }

    /// Which way the wheel turns: down and left are negative, and nothing
    /// turns within the deadzone.
    pub open spec fn sign(self, config: CoreConfig, axis: Axis) -> int {
        let positive = match axis {
            Axis::Vertical => -1int,
            Axis::Horizontal => 1int,
        };
        if self.offset(axis) > config.deadzone_units {
            positive
        } else if self.offset(axis) < -config.deadzone_units {
            -positive
        } else {
            0
        }
    }

    /// The wheel's direction after the configured inversion.
    pub open spec fn direction(self, config: CoreConfig, axis: Axis) -> int {
        let inverted = match axis {
            Axis::Vertical => config.invert_vertical,
            Axis::Horizontal => config.invert_horizontal,
        };
        if inverted {
            -self.sign(config, axis)
        } else {
            self.sign(config, axis)
        }
    }

    /// The computation with which an axis begins a tick; none when the axis
    /// rests.
    pub open spec fn axis_task(self, config: CoreConfig, axis: Axis, dt_micros: u64) -> WheelTask {
        if self.sign(config, axis) == 0 {
            WheelTask::Done
        } else {
            match speed_at(config, abs(self.offset(axis))) {
                Speed::Still => WheelTask::Done,
                Speed::Fixed(speed) => self.delta_task(config, axis, dt_micros, speed),
                Speed::Curve { active_units } => WheelTask::Curve {
                    axis,
                    dt_micros,
                    active_units,
                    full_speed_units: config.full_speed_units,
                    min_speed: config.min_speed_detents_per_second,
                    max_speed: config.max_speed_detents_per_second,
                    exponent: config.acceleration_exponent,
                },
            }
        }
    }

    /// The computation that an axis waits for once its speed is known; none
    /// when it does not move.
    pub open spec fn delta_task(
        self,
        config: CoreConfig,
        axis: Axis,
        dt_micros: u64,
        speed: Binary64,
    ) -> WheelTask {
        if speed.units() == 0 {
            WheelTask::Done
        } else {
            WheelTask::Delta {
                axis,
                dt_micros,
                direction: self.direction(config, axis) as i32,
                speed,
            }
        }
    }

    /// What is left of a tick after `axis`: the horizontal axis follows the
    /// vertical one.
    pub open spec fn task_after(self, config: CoreConfig, axis: Axis, dt_micros: u64) -> WheelTask {
        if axis == Axis::Vertical && config.horizontal_scroll {
            self.axis_task(config, Axis::Horizontal, dt_micros)
        } else {
            WheelTask::Done
        }
    }

    /// `task`, or what is left of the tick after `axis` when there is none.
    pub open spec fn task_or_next(
        self,
        config: CoreConfig,
        axis: Axis,
        dt_micros: u64,
        task: WheelTask,
    ) -> WheelTask {
        if task == WheelTask::Done {
            self.task_after(config, axis, dt_micros)
        } else {
            task
        }
    }

    /// What follows once the detents of an axis are settled.
    pub open spec fn hires_task(
        self,
        config: CoreConfig,
        axis: Axis,
        dt_micros: u64,
        delta: Binary64,
    ) -> WheelTask {
        if config.emit_hires_wheel {
            WheelTask::AddHiRes { axis, dt_micros, accumulator: self.hires(axis), delta }
        } else {
            self.task_after(config, axis, dt_micros)
        }
    }

    /// Nothing but the given actions.
    pub open spec fn with_actions(self, actions: Seq<CoreAction>) -> Outcome {
        Outcome { engine: self, actions, task: WheelTask::Done }
    }

    /// A computation is wanted, after the given actions.
    pub open spec fn with_task(self, actions: Seq<CoreAction>, task: WheelTask) -> Outcome {
        Outcome { engine: self, actions, task }
    }

    /// What an engine at rest makes of an event.
    pub open spec fn step_idle(self, config: CoreConfig, event: CoreInputEvent) -> Outcome {
        match event {
            CoreInputEvent::MiddleDown => EngineModel {
                state: EngineState::MiddlePending,
                pending_motion: (0, 0),
                pending_elapsed_us: 0,
                ..self.cleared()
            }.with_actions(seq![CoreAction::Suppress]),
            CoreInputEvent::MiddleUp => self.with_actions(forwarded(MouseButton::Middle, false)),
            CoreInputEvent::Tick { dt_micros } => match self.since_click_us {
                None => self.with_actions(seq![]),
                Some(since) => if since + dt_micros > click_window_us(config) {
                    // The double-click window is over: the deferred click is due.
                    EngineModel { since_click_us: None, ..self }.with_actions(
                        seq![CoreAction::EmitMiddleClick],
                    )
                } else {
                    EngineModel { since_click_us: Some(since + dt_micros), ..self }.with_actions(
                        seq![],
                    )
                },
            },
            _ => self.with_actions(transparent(event)),
        }
    }

    /// What an engine with the middle button down makes of an event.
    pub open spec fn step_pending(self, config: CoreConfig, event: CoreInputEvent) -> Outcome {
        match event {
            CoreInputEvent::MiddleDown => self.with_actions(seq![]),
            CoreInputEvent::Tick { dt_micros } => {
                let total = self.pending_elapsed_us + dt_micros;
                let waited = EngineModel {
                    pending_elapsed_us: if total > u64::MAX { u64::MAX as int } else { total },
                    ..self
                };
                if defers_clicks(config) && total >= click_window_us(config) {
                    waited.scrolling(true).with_actions(seq![CoreAction::EnterScrollMode])
                } else {
                    waited.with_actions(seq![])
                }
            },
            CoreInputEvent::MiddleUp => if config.mode == Mode::HoldProgressive {
                let replay = config.replay_pending_motion_on_click && self.pending_motion != (
                    0int,
                    0int,
                );
                let click = seq![CoreAction::EmitMiddleClick];
                let motion = CoreAction::ForwardMotion {
                    dx: self.pending_motion.0 as i32,
                    dy: self.pending_motion.1 as i32,
                };
                self.reset().with_actions(if replay { seq![motion] + click } else { click })
            } else if config.hold_threshold_ms > 0 && self.since_click_us is None {
                // The first click is deferred until the window is over.
                EngineModel {
                    state: EngineState::Idle,
                    pending_motion: (0, 0),
                    since_click_us: Some(0),
                    ..self
                }.with_actions(seq![])
            } else if config.hold_threshold_ms > 0 {
                self.scrolling(true).with_actions(seq![CoreAction::EnterScrollMode])
            } else {
                EngineModel {
                    since_click_us: self.since_click_us,
                    ..self.scrolling(true)
                }.with_actions(seq![CoreAction::EnterScrollMode])
            },
            CoreInputEvent::Motion { dx, dy } => {
                let suppressed = config.suppress_motion_while_pending;
                let here = self.moved(config, dx as int, dy as int);
                let noted = EngineModel {
                    pending_motion: if suppressed && config.replay_pending_motion_on_click {
                        (
                            saturated(self.pending_motion.0 + dx),
                            saturated(self.pending_motion.1 + dy),
                        )
                    } else {
                        self.pending_motion
                    },
                    ..here
                };
                let first = if suppressed {
                    CoreAction::Suppress
                } else {
                    CoreAction::ForwardMotion { dx, dy }
                };
                if here.outside_deadzone(config) {
                    noted.scrolling(false).with_actions(seq![first, CoreAction::EnterScrollMode])
                } else {
                    noted.with_actions(seq![first])
                }
            },
            _ => self.with_actions(transparent(event)),
        }
    }

    /// What an engine in scroll mode makes of an event.
    pub open spec fn step_scrolling(self, config: CoreConfig, event: CoreInputEvent) -> Outcome {
        let exit = self.reset().with_actions(seq![CoreAction::ExitScrollMode]);
        let ignored = self.with_actions(seq![]);
        match event {
            CoreInputEvent::MiddleDown => if self.toggle_locked { exit } else { ignored },
            CoreInputEvent::MiddleUp => if self.toggle_locked { ignored } else { exit },
            CoreInputEvent::LeftDown | CoreInputEvent::RightDown => if self.toggle_locked {
                exit
            } else {
                self.with_actions(transparent(event))
            },
            CoreInputEvent::LeftUp | CoreInputEvent::RightUp => if self.toggle_locked {
                ignored
            } else {
                self.with_actions(transparent(event))
            },
            CoreInputEvent::Motion { dx, dy } => self.moved(
                config,
                dx as int,
                dy as int,
            ).with_actions(
                if config.suppress_motion_while_scrolling {
                    seq![CoreAction::Suppress]
                } else {
                    transparent(event)
                },
            ),
            CoreInputEvent::Tick { dt_micros } => self.with_task(
                seq![],
                self.task_or_next(
                    config,
                    Axis::Vertical,
                    dt_micros,
                    self.axis_task(config, Axis::Vertical, dt_micros),
                ),
            ),
            _ => self.with_actions(transparent(event)),
        }
    }

    /// What an engine makes of an event.
    pub open spec fn step(self, config: CoreConfig, event: CoreInputEvent) -> Outcome {
        match self.state {
            EngineState::Idle => self.step_idle(config, event),
            EngineState::MiddlePending => self.step_pending(config, event),
            EngineState::Scrolling => self.step_scrolling(config, event),
        }
    }

    /// What is emitted of the detents summed up to `value`.
    pub open spec fn drain_detents(
        self,
        config: CoreConfig,
        axis: Axis,
        dt_micros: u64,
        value: Binary64,
        delta: Binary64,
    ) -> Outcome {
        let raw = value.spec_whole();
        let n = clamped(raw, config.max_detents_per_tick as int);
        let capped = self.with_detents(axis, Binary64::spec_zero());
        if raw == 0 {
            let kept = self.with_detents(axis, value);
            kept.with_task(seq![], kept.hires_task(config, axis, dt_micros, delta))
        } else if n == raw {
            // The rest may still hold whole detents.
            self.with_detents(axis, value).with_task(
                seq![detent_action(axis, n)],
                WheelTask::TakeDetents {
                    axis,
                    dt_micros,
                    accumulator: value,
                    count: n as i32,
                    delta,
                },
            )
        } else {
            // What exceeds the cap is dropped.
            capped.with_task(
                seq![detent_action(axis, n)],
                capped.hires_task(config, axis, dt_micros, delta),
            )
        }
    }

    /// What is emitted of the high-resolution units summed up to `value`.
    pub open spec fn drain_hires(
        self,
        config: CoreConfig,
        axis: Axis,
        dt_micros: u64,
        value: Binary64,
    ) -> Outcome {
        let raw = value.spec_whole();
        let n = clamped(raw, max_hires_units(config));
        if abs(raw) < min_hires_units(config) {
            let kept = self.with_hires(axis, value);
            kept.with_task(seq![], kept.task_after(config, axis, dt_micros))
        } else if n == raw {
            self.with_hires(axis, value).with_task(
                seq![hires_action(axis, n)],
                WheelTask::TakeHiRes { axis, dt_micros, accumulator: value, count: n as i32 },
            )
        } else {
            let capped = self.with_hires(axis, Binary64::spec_zero());
            capped.with_task(
                seq![hires_action(axis, n)],
                capped.task_after(config, axis, dt_micros),
            )
        }
    }

    /// How a tick goes on when `value` is the result of `task`.
    pub open spec fn resume(self, config: CoreConfig, task: WheelTask, value: Binary64) -> Outcome {
        match task {
            WheelTask::Done => self.with_actions(seq![]),
            WheelTask::Curve { axis, dt_micros, .. } => self.with_task(
                seq![],
                self.task_or_next(
                    config,
                    axis,
                    dt_micros,
                    self.delta_task(config, axis, dt_micros, value),
                ),
            ),
            WheelTask::Delta { axis, dt_micros, .. } => if !value.spec_is_finite() {
                let cleared = self.with_detents(axis, Binary64::spec_zero()).with_hires(
                    axis,
                    Binary64::spec_zero(),
                );
                cleared.with_task(seq![], cleared.task_after(config, axis, dt_micros))
            } else if config.emit_legacy_wheel {
                self.with_task(
                    seq![],
                    WheelTask::AddDetents {
                        axis,
                        dt_micros,
                        accumulator: self.detents(axis),
                        delta: value,
                    },
                )
            } else {
                self.with_task(seq![], self.hires_task(config, axis, dt_micros, value))
            },
            WheelTask::AddDetents { axis, dt_micros, delta, .. } => self.drain_detents(
                config,
                axis,
                dt_micros,
                value,
                delta,
            ),
            WheelTask::TakeDetents { axis, dt_micros, delta, .. } => self.drain_detents(
                config,
                axis,
                dt_micros,
                value,
                delta,
            ),
            WheelTask::AddHiRes { axis, dt_micros, .. } => self.drain_hires(
                config,
                axis,
                dt_micros,
                value,
            ),
            WheelTask::TakeHiRes { axis, dt_micros, .. } => {
                let kept = self.with_hires(axis, value);
                kept.with_task(seq![], kept.task_after(config, axis, dt_micros))
            },
        }
    }
}

/// The event passed on as it came.
pub open spec fn transparent(event: CoreInputEvent) -> Seq<CoreAction> {
    match event {
        CoreInputEvent::MiddleDown => forwarded(MouseButton::Middle, true),
        CoreInputEvent::MiddleUp => forwarded(MouseButton::Middle, false),
        CoreInputEvent::LeftDown => forwarded(MouseButton::Left, true),
        CoreInputEvent::LeftUp => forwarded(MouseButton::Left, false),
        CoreInputEvent::RightDown => forwarded(MouseButton::Right, true),
        CoreInputEvent::RightUp => forwarded(MouseButton::Right, false),
        CoreInputEvent::Motion { dx, dy } => seq![CoreAction::ForwardMotion { dx, dy }],
        CoreInputEvent::Wheel { vertical, horizontal } => seq![
            CoreAction::ForwardWheel { vertical, horizontal },
        ],
        CoreInputEvent::WheelHiRes { vertical_units, horizontal_units } => seq![
            CoreAction::EmitWheelHiRes { vertical_units, horizontal_units },
        ],
        CoreInputEvent::Tick { .. } => seq![],
    }
}

/// A wheel movement of whole detents along an axis.
pub open spec fn detent_action(axis: Axis, n: int) -> CoreAction {
    match axis {
        Axis::Vertical => CoreAction::EmitWheelDetents { vertical: n as i32, horizontal: 0 },
        Axis::Horizontal => CoreAction::EmitWheelDetents { vertical: 0, horizontal: n as i32 },
    }
}

/// A wheel movement of high-resolution units along an axis.
pub open spec fn hires_action(axis: Axis, n: int) -> CoreAction {
    match axis {
        Axis::Vertical => CoreAction::EmitWheelHiRes {
            vertical_units: n as i32,
            horizontal_units: 0,
        },
        Axis::Horizontal => CoreAction::EmitWheelHiRes {
            vertical_units: 0,
            horizontal_units: n as i32,
        },
    }
}

/// The autoscroll state machine.
#[derive(Debug)]
pub struct Engine {
    config: CoreConfig,
    state: EngineState,
    offset_y_units: i32,
    offset_x_units: i32,
    detent_accumulator_y: Binary64,
    hires_accumulator_y: Binary64,
    detent_accumulator_x: Binary64,
    hires_accumulator_x: Binary64,
    /// Net pointer displacement accumulated while `MiddlePending`, replayed as
    /// a single motion before a short click when
    /// `replay_pending_motion_on_click` is set. Kept as a compact sum (not a
    /// list of events) so a long press can never grow memory unboundedly.
    pending_motion: (i32, i32),
    /// Microseconds elapsed since entering `MiddlePending` state.
    pending_elapsed_us: u64,
    /// Microseconds since last short middle-click release (for double-click
    /// detection). Set to u64::MAX when not awaiting a second click.
    since_last_click_us: u64,
    /// Whether scroll mode was entered via toggle (lock mode).
    /// When true, MiddleUp in Scrolling does NOT exit, only another click does.
    toggle_locked: bool,
}

impl View for Engine {
    type V = EngineModel;

    closed spec fn view(&self) -> EngineModel {
        EngineModel {
            state: self.state,
            offset_y: self.offset_y_units as int,
            offset_x: self.offset_x_units as int,
            detents_y: self.detent_accumulator_y,
            hires_y: self.hires_accumulator_y,
            detents_x: self.detent_accumulator_x,
            hires_x: self.hires_accumulator_x,
            pending_motion: (self.pending_motion.0 as int, self.pending_motion.1 as int),
            pending_elapsed_us: self.pending_elapsed_us as int,
            since_click_us: if self.since_last_click_us == u64::MAX {
                None
            } else {
                Some(self.since_last_click_us as int)
            },
            toggle_locked: self.toggle_locked,
        }
    }
}

impl Engine {
    /// The configuration that the engine was made with.
    pub closed spec fn spec_config(self) -> CoreConfig {
        self.config
    }

    /// Ready to process events.
    pub open spec fn ready(self) -> bool {
        self.spec_config().runnable() && self@.bounded(self.spec_config())
    }

    /// A new engine, at rest.
    pub fn new(config: CoreConfig) -> (r: Engine)
        ensures
            r@ == EngineModel::initial(),
            r.spec_config() == config,
            config.runnable() ==> r.ready(),
    {
        Engine {
            config,
            state: EngineState::Idle,
            offset_y_units: 0,
            offset_x_units: 0,
            detent_accumulator_y: Binary64::zero(),
            hires_accumulator_y: Binary64::zero(),
            detent_accumulator_x: Binary64::zero(),
            hires_accumulator_x: Binary64::zero(),
            pending_motion: (0, 0),
            pending_elapsed_us: 0,
            since_last_click_us: u64::MAX,
            toggle_locked: false,
        }
    }

    /// The engine as if it were new, with the same configuration.
    pub fn restart(&mut self)
        ensures
            final(self)@ == EngineModel::initial(),
            final(self).spec_config() == old(self).spec_config(),
            old(self).spec_config().runnable() ==> final(self).ready(),
    {
        self.state = EngineState::Idle;
        self.offset_y_units = 0;
        self.offset_x_units = 0;
        self.detent_accumulator_y = Binary64::zero();
        self.hires_accumulator_y = Binary64::zero();
        self.detent_accumulator_x = Binary64::zero();
        self.hires_accumulator_x = Binary64::zero();
        self.pending_motion = (0, 0);
        self.pending_elapsed_us = 0;
        self.since_last_click_us = u64::MAX;
        self.toggle_locked = false;
    }

    pub fn config(&self) -> (r: &CoreConfig)
        ensures
            *r == self.spec_config(),
    {
        &self.config
    }

    pub fn state(&self) -> (r: EngineState)
        ensures
            r == self@.state,
    {
        self.state
    }

    pub fn offset_y_units(&self) -> (r: i32)
        ensures
            r == self@.offset_y,
    {
        self.offset_y_units
    }

    pub fn offset_x_units(&self) -> (r: i32)
        ensures
            r == self@.offset_x,
    {
        self.offset_x_units
    }

    /// Convenience wrapper around [`Engine::process_into`] that returns a fresh
    /// `Vec`. Prefer `process_into` with a reused buffer on hot paths.
    pub fn process(&mut self, event: CoreInputEvent) -> (r: (Vec<CoreAction>, WheelTask))
        requires
            old(self).ready(),
        ensures
            final(self).ready(),
            final(self).spec_config() == old(self).spec_config(),
            final(self)@ == old(self)@.step(old(self).spec_config(), event).engine,
            r.0@ == old(self)@.step(old(self).spec_config(), event).actions,
            r.1 == old(self)@.step(old(self).spec_config(), event).task,
    {
        let mut out: Vec<CoreAction> = Vec::new();
        let task: WheelTask = self.process_into(event, &mut out);
        assert(out@ =~= old(self)@.step(old(self).spec_config(), event).actions);
        (out, task)
    }

    /// Processes one input event, appending the resulting actions to `out`.
    /// The buffer is not cleared, so callers can batch several events; on hot
    /// paths this avoids one heap allocation per input event. The task that
    /// comes back is what a tick in scroll mode waits for.
    pub fn process_into(&mut self, event: CoreInputEvent, out: &mut Vec<CoreAction>) -> (task:
        WheelTask)
        requires
            old(self).ready(),
        ensures
            final(self).ready(),
            final(self).spec_config() == old(self).spec_config(),
            final(self)@ == old(self)@.step(old(self).spec_config(), event).engine,
            final(out)@ == old(out)@ + old(self)@.step(old(self).spec_config(), event).actions,
            task == old(self)@.step(old(self).spec_config(), event).task,
    {
        match self.state {
            EngineState::Idle => {
                self.process_idle(event, out);
                WheelTask::Done
            },
            EngineState::MiddlePending => {
                self.process_pending(event, out);
                WheelTask::Done
            },
            EngineState::Scrolling => self.process_scrolling(event, out),
        }
    }

    fn process_idle(&mut self, event: CoreInputEvent, out: &mut Vec<CoreAction>)
        requires
            old(self).ready(),
        ensures
            final(self).ready(),
            final(self).spec_config() == old(self).spec_config(),
            final(self)@ == old(self)@.step_idle(old(self).spec_config(), event).engine,
            final(out)@ == old(out)@ + old(self)@.step_idle(old(self).spec_config(), event).actions,
            old(self)@.step_idle(old(self).spec_config(), event).task == WheelTask::Done,
    {
        match event {
            CoreInputEvent::MiddleDown => {
                self.state = EngineState::MiddlePending;
                self.reset_offsets_and_accumulators();
                self.pending_motion = (0, 0);
                self.pending_elapsed_us = 0;
                out.push(CoreAction::Suppress);
            },
            CoreInputEvent::Tick { dt_micros } => {
                // Track time since last click for double-click window expiry
                if self.since_last_click_us != u64::MAX {
                    let elapsed: u64 = self.since_last_click_us.saturating_add(dt_micros);
                    let window_us: u64 = self.config.hold_threshold_ms * 1000;
                    if elapsed > window_us {
                        // Double-click window expired: emit the deferred click
                        self.since_last_click_us = u64::MAX;
                        out.push(CoreAction::EmitMiddleClick);
                    } else {
                        self.since_last_click_us = elapsed;
                    }
                }
            },
            _ => forward_event(event, out),
        }
        assert(out@ =~= old(out)@ + old(self)@.step_idle(old(self).spec_config(), event).actions);
    }

    fn process_pending(&mut self, event: CoreInputEvent, out: &mut Vec<CoreAction>)
        requires
            old(self).ready(),
        ensures
            final(self).ready(),
            final(self).spec_config() == old(self).spec_config(),
            final(self)@ == old(self)@.step_pending(old(self).spec_config(), event).engine,
            final(out)@ == old(out)@ + old(self)@.step_pending(
                old(self).spec_config(),
                event,
            ).actions,
            old(self)@.step_pending(old(self).spec_config(), event).task == WheelTask::Done,
    {
        match event {
            CoreInputEvent::MiddleDown => {},
            CoreInputEvent::Tick { dt_micros } => {
                self.pending_elapsed_us = self.pending_elapsed_us.saturating_add(dt_micros);
                // Toggle mode: if held past threshold, enter scroll mode (locked)
                if self.config.mode == Mode::Toggle && self.config.hold_threshold_ms > 0 {
                    let threshold_us: u64 = self.config.hold_threshold_ms * 1000;
                    if self.pending_elapsed_us >= threshold_us {
                        self.state = EngineState::Scrolling;
                        self.toggle_locked = true;
                        self.pending_motion = (0, 0);
                        self.since_last_click_us = u64::MAX;
                        out.push(CoreAction::EnterScrollMode);
                    }
                }
            },
            CoreInputEvent::MiddleUp => {
                if self.config.mode == Mode::Toggle && self.config.hold_threshold_ms > 0 {
                    // Toggle mode with double-click detection
                    if self.since_last_click_us != u64::MAX {
                        // This is the SECOND click within the window: enter scroll mode
                        self.since_last_click_us = u64::MAX;
                        self.state = EngineState::Scrolling;
                        self.toggle_locked = true;
                        self.pending_motion = (0, 0);
                        out.push(CoreAction::EnterScrollMode);
                    } else {
                        // First click: start the double-click window, defer the click
                        self.since_last_click_us = 0;
                        self.state = EngineState::Idle;
                        self.pending_motion = (0, 0);
                    }
                } else if self.config.mode == Mode::Toggle {
                    // Toggle mode with threshold=0: any release enters scroll
                    self.state = EngineState::Scrolling;
                    self.toggle_locked = true;
                    self.pending_motion = (0, 0);
                    out.push(CoreAction::EnterScrollMode);
                } else {
                    // Hold mode: release within deadzone = normal middle click
                    if self.config.replay_pending_motion_on_click {
                        let dx: i32 = self.pending_motion.0;
                        let dy: i32 = self.pending_motion.1;
                        if dx != 0 || dy != 0 {
                            out.push(CoreAction::ForwardMotion { dx, dy });
                        }
                    }
                    out.push(CoreAction::EmitMiddleClick);
                    self.reset_to_idle();
                }
            },
            CoreInputEvent::Motion { dx, dy } => {
                self.accumulate_offset(dx, dy);
                let suppressed: bool = self.config.suppress_motion_while_pending;
                if self.config.replay_pending_motion_on_click && suppressed {
                    self.pending_motion = (
                        saturating_sum(self.pending_motion.0, dx),
                        saturating_sum(self.pending_motion.1, dy),
                    );
                }
                if suppressed {
                    out.push(CoreAction::Suppress);
                } else {
                    out.push(CoreAction::ForwardMotion { dx, dy });
                }
                if self.crossed_deadzone() {
                    self.state = EngineState::Scrolling;
                    self.toggle_locked = false;
                    self.pending_motion = (0, 0);
                    self.since_last_click_us = u64::MAX;
                    out.push(CoreAction::EnterScrollMode);
                }
            },
            _ => forward_event(event, out),
        }
        assert(out@ =~= old(out)@ + old(self)@.step_pending(
            old(self).spec_config(),
            event,
        ).actions);
    }

    fn process_scrolling(&mut self, event: CoreInputEvent, out: &mut Vec<CoreAction>) -> (task:
        WheelTask)
        requires
            old(self).ready(),
        ensures
            final(self).ready(),
            final(self).spec_config() == old(self).spec_config(),
            final(self)@ == old(self)@.step_scrolling(old(self).spec_config(), event).engine,
            final(out)@ == old(out)@ + old(self)@.step_scrolling(
                old(self).spec_config(),
                event,
            ).actions,
            task == old(self)@.step_scrolling(old(self).spec_config(), event).task,
    {
        let mut task: WheelTask = WheelTask::Done;
        match event {
            CoreInputEvent::MiddleDown => {
                if self.toggle_locked {
                    // Toggle mode: middle-down while locked = exit scroll mode
                    self.reset_to_idle();
                    out.push(CoreAction::ExitScrollMode);
                }
                // Hold mode: ignore (waiting for MiddleUp to exit)
            },
            CoreInputEvent::MiddleUp => {
                if !self.toggle_locked {
                    // Hold mode or entered via deadzone: release exits
                    self.reset_to_idle();
                    out.push(CoreAction::ExitScrollMode);
                }
                // Toggle locked: ignore release (stay in scroll mode)
            },
            CoreInputEvent::LeftDown | CoreInputEvent::RightDown => {
                if self.toggle_locked {
                    // Toggle mode: left/right click exits scroll mode, click consumed
                    self.reset_to_idle();
                    out.push(CoreAction::ExitScrollMode);
                } else {
                    // Hold mode: forward button presses normally
                    forward_event(event, out);
                }
            },
            CoreInputEvent::LeftUp | CoreInputEvent::RightUp => {
                if !self.toggle_locked {
                    forward_event(event, out);
                }
            },
            CoreInputEvent::Motion { dx, dy } => {
                self.accumulate_offset(dx, dy);
                if self.config.suppress_motion_while_scrolling {
                    out.push(CoreAction::Suppress);
                } else {
                    out.push(CoreAction::ForwardMotion { dx, dy });
                }
            },
            CoreInputEvent::Tick { dt_micros } => {
                task = self.axis_task(Axis::Vertical, dt_micros);
                if task == WheelTask::Done {
                    task = self.task_after(Axis::Vertical, dt_micros);
                }
            },
            _ => forward_event(event, out),
        }
        assert(out@ =~= old(out)@ + old(self)@.step_scrolling(
            old(self).spec_config(),
            event,
        ).actions);
        task
    }

    fn reset_to_idle(&mut self)
        requires
            old(self).ready(),
        ensures
            final(self).ready(),
            final(self).spec_config() == old(self).spec_config(),
            final(self)@ == old(self)@.reset(),
    {
        self.state = EngineState::Idle;
        self.reset_offsets_and_accumulators();
        self.pending_motion = (0, 0);
        self.pending_elapsed_us = 0;
        self.toggle_locked = false;
    }

    fn reset_offsets_and_accumulators(&mut self)
        requires
            old(self).ready(),
        ensures
            final(self).ready(),
            final(self).spec_config() == old(self).spec_config(),
            final(self)@ == old(self)@.cleared(),
    {
        self.offset_y_units = 0;
        self.offset_x_units = 0;
        self.detent_accumulator_y = Binary64::zero();
        self.hires_accumulator_y = Binary64::zero();
        self.detent_accumulator_x = Binary64::zero();
        self.hires_accumulator_x = Binary64::zero();
    }

    fn accumulate_offset(&mut self, dx: i32, dy: i32)
        requires
            old(self).ready(),
        ensures
            final(self).ready(),
            final(self).spec_config() == old(self).spec_config(),
            final(self)@ == old(self)@.moved(old(self).spec_config(), dx as int, dy as int),
    {
        let max: i32 = self.config.max_offset_units;
        self.offset_y_units = clamp(self.offset_y_units as i64 + dy as i64, max);
        if self.config.horizontal_scroll {
            self.offset_x_units = clamp(self.offset_x_units as i64 + dx as i64, max);
        }
    }

    fn crossed_deadzone(&self) -> (r: bool)
        requires
            self.ready(),
        ensures
            r == self@.outside_deadzone(self.spec_config()),
    {
        distance(self.offset_y_units) > self.config.deadzone_units || (
        self.config.horizontal_scroll && distance(self.offset_x_units) > self.config.deadzone_units)
    }

    /// Goes on with a tick: `value` is the result of the computation that
    /// `task` describes. The actions that are due are appended to `out`, and
    /// the next computation comes back.
    pub fn resume_tick(&mut self, task: WheelTask, value: Binary64, out: &mut Vec<CoreAction>) -> (
    next: WheelTask)
        requires
            old(self).ready(),
        ensures
            final(self).ready(),
            final(self).spec_config() == old(self).spec_config(),
            final(self)@ == old(self)@.resume(old(self).spec_config(), task, value).engine,
            final(out)@ == old(out)@ + old(self)@.resume(
                old(self).spec_config(),
                task,
                value,
            ).actions,
            next == old(self)@.resume(old(self).spec_config(), task, value).task,
    {
        let next: WheelTask = match task {
            WheelTask::Done => WheelTask::Done,
            WheelTask::Curve { axis, dt_micros, .. } => {
                let delta: WheelTask = self.delta_task(axis, dt_micros, value);
                if delta == WheelTask::Done {
                    self.task_after(axis, dt_micros)
                } else {
                    delta
                }
            },
            WheelTask::Delta { axis, dt_micros, .. } => {
                if !value.is_finite() {
                    self.set_detents(axis, Binary64::zero());
                    self.set_hires(axis, Binary64::zero());
                    self.task_after(axis, dt_micros)
                } else if self.config.emit_legacy_wheel {
                    WheelTask::AddDetents {
                        axis,
                        dt_micros,
                        accumulator: self.detents(axis),
                        delta: value,
                    }
                } else {
                    self.hires_task(axis, dt_micros, value)
                }
            },
            WheelTask::AddDetents { axis, dt_micros, delta, .. } => self.drain_legacy_axis(
                axis,
                dt_micros,
                value,
                delta,
                out,
            ),
            WheelTask::TakeDetents { axis, dt_micros, delta, .. } => self.drain_legacy_axis(
                axis,
                dt_micros,
                value,
                delta,
                out,
            ),
            WheelTask::AddHiRes { axis, dt_micros, .. } => self.drain_hires_axis(
                axis,
                dt_micros,
                value,
                out,
            ),
            WheelTask::TakeHiRes { axis, dt_micros, .. } => {
                self.set_hires(axis, value);
                self.task_after(axis, dt_micros)
            },
        };
        assert(out@ =~= old(out)@ + old(self)@.resume(
            old(self).spec_config(),
            task,
            value,
        ).actions);
        next
    }

    fn drain_legacy_axis(
        &mut self,
        axis: Axis,
        dt_micros: u64,
        value: Binary64,
        delta: Binary64,
        out: &mut Vec<CoreAction>,
    ) -> (next: WheelTask)
        requires
            old(self).ready(),
        ensures
            final(self).ready(),
            final(self).spec_config() == old(self).spec_config(),
            final(self)@ == old(self)@.drain_detents(
                old(self).spec_config(),
                axis,
                dt_micros,
                value,
                delta,
            ).engine,
            final(out)@ == old(out)@ + old(self)@.drain_detents(
                old(self).spec_config(),
                axis,
                dt_micros,
                value,
                delta,
            ).actions,
            next == old(self)@.drain_detents(
                old(self).spec_config(),
                axis,
                dt_micros,
                value,
                delta,
            ).task,
    {
        let raw: i32 = value.whole();
        let next: WheelTask = if raw == 0 {
            self.set_detents(axis, value);
            self.hires_task(axis, dt_micros, delta)
        } else {
            let n: i32 = clamp(raw as i64, self.config.max_detents_per_tick);
            match axis {
                Axis::Vertical => out.push(
                    CoreAction::EmitWheelDetents { vertical: n, horizontal: 0 },
                ),
                Axis::Horizontal => out.push(
                    CoreAction::EmitWheelDetents { vertical: 0, horizontal: n },
                ),
            }
            if n == raw {
                self.set_detents(axis, value);
                WheelTask::TakeDetents { axis, dt_micros, accumulator: value, count: n, delta }
            } else {
                self.set_detents(axis, Binary64::zero());
                self.hires_task(axis, dt_micros, delta)
            }
        };
        assert(out@ =~= old(out)@ + old(self)@.drain_detents(
            old(self).spec_config(),
            axis,
            dt_micros,
            value,
            delta,
        ).actions);
        next
    }

    fn drain_hires_axis(
        &mut self,
        axis: Axis,
        dt_micros: u64,
        value: Binary64,
        out: &mut Vec<CoreAction>,
    ) -> (next: WheelTask)
        requires
            old(self).ready(),
        ensures
            final(self).ready(),
            final(self).spec_config() == old(self).spec_config(),
            final(self)@ == old(self)@.drain_hires(
                old(self).spec_config(),
                axis,
                dt_micros,
                value,
            ).engine,
            final(out)@ == old(out)@ + old(self)@.drain_hires(
                old(self).spec_config(),
                axis,
                dt_micros,
                value,
            ).actions,
            next == old(self)@.drain_hires(old(self).spec_config(), axis, dt_micros, value).task,
    {
        let raw: i32 = value.whole();
        let size: i64 = if raw < 0 { -(raw as i64) } else { raw as i64 };
        let setting: i32 = self.config.min_hires_units_per_event;
        let min_units: i64 = if setting < 0 {
            setting as i64 + 0x1_0000_0000
        } else {
            setting as i64
        };
        let next: WheelTask = if size < min_units {
            self.set_hires(axis, value);
            self.task_after(axis, dt_micros)
        } else {
            let product: i64 = self.config.max_detents_per_tick as i64
                * HIRES_UNITS_PER_DETENT as i64;
            let max_units: i32 = if product > i32::MAX as i64 {
                i32::MAX
            } else {
                product as i32
            };
            let n: i32 = clamp(raw as i64, max_units);
            match axis {
                Axis::Vertical => out.push(
                    CoreAction::EmitWheelHiRes { vertical_units: n, horizontal_units: 0 },
                ),
                Axis::Horizontal => out.push(
                    CoreAction::EmitWheelHiRes { vertical_units: 0, horizontal_units: n },
                ),
            }
            if n == raw {
                self.set_hires(axis, value);
                WheelTask::TakeHiRes { axis, dt_micros, accumulator: value, count: n }
            } else {
                self.set_hires(axis, Binary64::zero());
                self.task_after(axis, dt_micros)
            }
        };
        assert(out@ =~= old(out)@ + old(self)@.drain_hires(
            old(self).spec_config(),
            axis,
            dt_micros,
            value,
        ).actions);
        next
    }

    fn detents(&self, axis: Axis) -> (r: Binary64)
        ensures
            r == self@.detents(axis),
    {
        match axis {
            Axis::Vertical => self.detent_accumulator_y,
            Axis::Horizontal => self.detent_accumulator_x,
        }
    }

    fn set_detents(&mut self, axis: Axis, value: Binary64)
        ensures
            final(self).spec_config() == old(self).spec_config(),
            final(self)@ == old(self)@.with_detents(axis, value),
    {
        match axis {
            Axis::Vertical => {
                self.detent_accumulator_y = value;
            },
            Axis::Horizontal => {
                self.detent_accumulator_x = value;
            },
        }
    }

    fn set_hires(&mut self, axis: Axis, value: Binary64)
        ensures
            final(self).spec_config() == old(self).spec_config(),
            final(self)@ == old(self)@.with_hires(axis, value),
    {
        match axis {
            Axis::Vertical => {
                self.hires_accumulator_y = value;
            },
            Axis::Horizontal => {
                self.hires_accumulator_x = value;
            },
        }
    }

    fn offset(&self, axis: Axis) -> (r: i32)
        ensures
            r == self@.offset(axis),
    {
        match axis {
            Axis::Vertical => self.offset_y_units,
            Axis::Horizontal => self.offset_x_units,
        }
    }

    /// The computation with which `axis` begins a tick.
    fn axis_task(&self, axis: Axis, dt_micros: u64) -> (task: WheelTask)
        requires
            self.ready(),
        ensures
            task == self@.axis_task(self.spec_config(), axis, dt_micros),
    {
        if self.wheel_sign(axis) == 0 {
            return WheelTask::Done;
        }
        match self.compute_speed_detents_per_second(distance(self.offset(axis))) {
            Speed::Still => WheelTask::Done,
            Speed::Fixed(speed) => self.delta_task(axis, dt_micros, speed),
            Speed::Curve { active_units } => WheelTask::Curve {
                axis,
                dt_micros,
                active_units,
                full_speed_units: self.config.full_speed_units,
                min_speed: self.config.min_speed_detents_per_second,
                max_speed: self.config.max_speed_detents_per_second,
                exponent: self.config.acceleration_exponent,
            },
        }
    }

    fn delta_task(&self, axis: Axis, dt_micros: u64, speed: Binary64) -> (task: WheelTask)
        requires
            self.ready(),
        ensures
            task == self@.delta_task(self.spec_config(), axis, dt_micros, speed),
    {
        if speed.is_zero() {
            WheelTask::Done
        } else {
            WheelTask::Delta { axis, dt_micros, direction: self.wheel_direction(axis), speed }
        }
    }

    fn task_after(&self, axis: Axis, dt_micros: u64) -> (task: WheelTask)
        requires
            self.ready(),
        ensures
            task == self@.task_after(self.spec_config(), axis, dt_micros),
    {
        if axis == Axis::Vertical && self.config.horizontal_scroll {
            self.axis_task(Axis::Horizontal, dt_micros)
        } else {
            WheelTask::Done
        }
    }

    fn hires_task(&self, axis: Axis, dt_micros: u64, delta: Binary64) -> (task: WheelTask)
        requires
            self.ready(),
        ensures
            task == self@.hires_task(self.spec_config(), axis, dt_micros, delta),
    {
        if self.config.emit_hires_wheel {
            let accumulator: Binary64 = match axis {
                Axis::Vertical => self.hires_accumulator_y,
                Axis::Horizontal => self.hires_accumulator_x,
            };
            WheelTask::AddHiRes { axis, dt_micros, accumulator, delta }
        } else {
            self.task_after(axis, dt_micros)
        }
    }

    /// Speed for the given absolute distance from the press point.
    ///
    /// The default profile is the smooth progressive curve driven by
    /// `min_speed_detents_per_second`, `max_speed_detents_per_second`,
    /// `full_speed_units` and `acceleration_exponent`. When the user
    /// configures `scroll_speed_steps`, the stepped profile takes over
    /// (the last reached step controls the speed).
    fn compute_speed_detents_per_second(&self, distance: i32) -> (r: Speed)
        requires
            self.ready(),
            distance <= self.spec_config().max_offset_units,
        ensures
            r == speed_at(self.spec_config(), distance as int),
    {
        if distance <= self.config.deadzone_units {
            return Speed::Still;
        }
        let mut count: usize = self.config.scroll_speed_steps.len();
        assert(self.config.scroll_speed_steps@.take(count as int)
            =~= self.config.scroll_speed_steps@);
        while count > 0
            invariant
                count <= self.config.scroll_speed_steps@.len(),
                last_reached(self.config.scroll_speed_steps@, distance as int) == last_reached(
                    self.config.scroll_speed_steps@.take(count as int),
                    distance as int,
                ),
                speed_at(self.config, distance as int) == (match last_reached(
                    self.config.scroll_speed_steps@,
                    distance as int,
                ) {
                    Some(step) => Speed::Fixed(step.speed_detents_per_second),
                    None => Speed::Curve {
                        active_units: (distance - self.config.deadzone_units) as i32,
                    },
                }),
            decreases count,
        {
            let step: SpeedStep = self.config.scroll_speed_steps[count - 1];
            assert(self.config.scroll_speed_steps@.take(count as int).drop_last()
                =~= self.config.scroll_speed_steps@.take(count - 1));
            if distance >= step.distance_units {
                return Speed::Fixed(step.speed_detents_per_second);
            }
            count -= 1;
        }
        Speed::Curve { active_units: distance - self.config.deadzone_units }
    }

    /// Wheel sign: a pointer moved DOWN maps to a negative wheel value (scroll
    /// content downward), a pointer moved RIGHT to a positive one (scroll
    /// content rightward).
    fn wheel_sign(&self, axis: Axis) -> (r: i32)
        requires
            self.ready(),
        ensures
            r == self@.sign(self.spec_config(), axis),
            -1 <= r <= 1,
    {
        let positive: i32 = match axis {
            Axis::Vertical => -1,
            Axis::Horizontal => 1,
        };
        let offset: i32 = self.offset(axis);
        if offset > self.config.deadzone_units {
            positive
        } else if offset < -self.config.deadzone_units {
            -positive
        } else {
            0
        }
    }

    fn wheel_direction(&self, axis: Axis) -> (r: i32)
        requires
            self.ready(),
        ensures
            r == self@.direction(self.spec_config(), axis),
    {
        let inverted: bool = match axis {
            Axis::Vertical => self.config.invert_vertical,
            Axis::Horizontal => self.config.invert_horizontal,
        };
        let sign: i32 = self.wheel_sign(axis);
        if inverted {
            -sign
        } else {
            sign
        }
    }
}

/// Appends the action that passes `event` on as it came.
fn forward_event(event: CoreInputEvent, out: &mut Vec<CoreAction>)
    ensures
        final(out)@ == old(out)@ + transparent(event),
{
    match event {
        CoreInputEvent::MiddleDown => forward_btn(MouseButton::Middle, true, out),
        CoreInputEvent::MiddleUp => forward_btn(MouseButton::Middle, false, out),
        CoreInputEvent::LeftDown => forward_btn(MouseButton::Left, true, out),
        CoreInputEvent::LeftUp => forward_btn(MouseButton::Left, false, out),
        CoreInputEvent::RightDown => forward_btn(MouseButton::Right, true, out),
        CoreInputEvent::RightUp => forward_btn(MouseButton::Right, false, out),
        CoreInputEvent::Motion { dx, dy } => out.push(CoreAction::ForwardMotion { dx, dy }),
        CoreInputEvent::Wheel { vertical, horizontal } => out.push(
            CoreAction::ForwardWheel { vertical, horizontal },
        ),
        CoreInputEvent::WheelHiRes { vertical_units, horizontal_units } => out.push(
            CoreAction::EmitWheelHiRes { vertical_units, horizontal_units },
        ),
        CoreInputEvent::Tick { .. } => {},
    }
    assert(out@ =~= old(out)@ + transparent(event));
}

fn forward_btn(button: MouseButton, pressed: bool, out: &mut Vec<CoreAction>)
    ensures
        final(out)@ == old(out)@ + forwarded(button, pressed),
{
    out.push(CoreAction::ForwardMouseButton { button, pressed });
    assert(out@ =~= old(out)@ + forwarded(button, pressed));
}

/// `x` clamped to the range from `-max` to `max`.
fn clamp(x: i64, max: i32) -> (r: i32)
    requires
        0 <= max,
    ensures
        r == clamped(x as int, max as int),
{
    if x < -(max as i64) {
        -max
    } else if x > max as i64 {
        max
    } else {
        x as i32
    }
}

/// The sum of two numbers, clamped to the `i32` range.
fn saturating_sum(a: i32, b: i32) -> (r: i32)
    ensures
        r == saturated(a + b),
{
    let sum: i64 = a as i64 + b as i64;
    if sum < i32::MIN as i64 {
        i32::MIN
    } else if sum > i32::MAX as i64 {
        i32::MAX
    } else {
        sum as i32
    }
}

/// The absolute value of an offset.
fn distance(offset: i32) -> (r: i32)
    requires
        i32::MIN < offset,
    ensures
        r == abs(offset as int),
{
    if offset < 0 {
        -offset
    } else {
        offset
    }
}

} // verus!
