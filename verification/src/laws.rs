//! What holds of the engine across events.

use vstd::prelude::*;

use crate::binary64::Binary64;
use crate::config;
use crate::config::{CoreConfig, Mode, SpeedStep};
use crate::engine;
use crate::engine::{Axis, EngineModel, Outcome, Speed, WheelTask};
use crate::model::{CoreAction, CoreInputEvent, EngineState};

verus! {

/// No event drives the offsets beyond the largest offset, nor to the side
/// without horizontal scrolling; none makes the click timers overrun; and a
/// second click is awaited only in toggle mode with a hold threshold. A new
/// engine is so, and ticks leave it so.
pub proof fn law_events_keep_offsets_bounded(
    m: EngineModel,
    config: CoreConfig,
    event: CoreInputEvent,
    task: WheelTask,
    value: Binary64,
)
    requires
        config.runnable(),
        m.bounded(config),
    ensures
        EngineModel::initial().bounded(config),
        m.step(config, event).engine.bounded(config),
        m.resume(config, task, value).engine.bounded(config),
{
}

/// The rest of a tick leaves everything but the accumulators as it is.
pub proof fn law_ticks_only_accumulate(
    m: EngineModel,
    config: CoreConfig,
    task: WheelTask,
    value: Binary64,
)
    ensures
        m.resume(config, task, value).engine == (EngineModel {
            detents_y: m.resume(config, task, value).engine.detents_y,
            hires_y: m.resume(config, task, value).engine.hires_y,
            detents_x: m.resume(config, task, value).engine.detents_x,
            hires_x: m.resume(config, task, value).engine.hires_x,
            ..m
        }),
{
}

/// The physical wheel works in every state: its movements pass through, and
/// the engine does not notice them.
pub proof fn law_wheel_passes_through(
    m: EngineModel,
    config: CoreConfig,
    vertical: i32,
    horizontal: i32,
)
    ensures
        m.step(config, CoreInputEvent::Wheel { vertical, horizontal }) == m.with_actions(
            seq![CoreAction::ForwardWheel { vertical, horizontal }],
        ),
        m.step(
            config,
            CoreInputEvent::WheelHiRes { vertical_units: vertical, horizontal_units: horizontal },
        ) == m.with_actions(
            seq![
                CoreAction::EmitWheelHiRes {
                    vertical_units: vertical,
                    horizontal_units: horizontal,
                },
            ],
        ),
{
}

/// At rest, whatever is not the press of the middle button or the passing of
/// time is passed on as it came.
pub proof fn law_rest_is_transparent(m: EngineModel, config: CoreConfig, event: CoreInputEvent)
    requires
        m.state == EngineState::Idle,
        event != CoreInputEvent::MiddleDown,
        !(event is Tick),
    ensures
        m.step(config, event) == m.with_actions(engine::transparent(event)),
{
}

/// At rest with no click deferred, ticks change nothing and emit nothing.
pub proof fn law_rest_ignores_time(m: EngineModel, config: CoreConfig, dt_micros: u64)
    requires
        m.state == EngineState::Idle,
        m.since_click_us is None,
    ensures
        m.step(config, CoreInputEvent::Tick { dt_micros }) == m.with_actions(seq![]),
{
}

/// A press starts from a clean slate, whatever the last gesture left behind;
/// only a deferred click and the lock are remembered.
pub proof fn law_press_starts_afresh(m: EngineModel, config: CoreConfig)
    requires
        m.state == EngineState::Idle,
    ensures
        m.step(config, CoreInputEvent::MiddleDown) == (EngineModel {
            state: EngineState::MiddlePending,
            since_click_us: m.since_click_us,
            toggle_locked: m.toggle_locked,
            ..EngineModel::initial()
        }).with_actions(seq![CoreAction::Suppress]),
{
}

/// In scroll mode with the pointer within the deadzone, a tick asks for no
/// computation, emits nothing and leaves the engine as it is.
pub proof fn law_still_within_deadzone(m: EngineModel, config: CoreConfig, dt_micros: u64)
    requires
        m.state == EngineState::Scrolling,
        !m.outside_deadzone(config),
    ensures
        m.step(config, CoreInputEvent::Tick { dt_micros }) == m.with_actions(seq![]),
{
}

/// In hold mode a press and a release within the deadzone make one click, and
/// the engine is back at rest.
pub proof fn law_hold_mode_click(m: EngineModel, config: CoreConfig)
    requires
        m.state == EngineState::Idle,
        config.mode == Mode::HoldProgressive,
    ensures
        ({
            let pressed = m.step(config, CoreInputEvent::MiddleDown);
            let released = pressed.engine.step(config, CoreInputEvent::MiddleUp);
            &&& pressed.actions == seq![CoreAction::Suppress]
            &&& released.actions == seq![CoreAction::EmitMiddleClick]
            &&& released.engine == m.reset()
        }),
{
}

/// The engine after some movements, one after another.
pub open spec fn after_movements(
    m: EngineModel,
    config: CoreConfig,
    movements: Seq<(i32, i32)>,
) -> EngineModel
    decreases movements.len(),
{
    if movements.len() == 0 {
        m
    } else {
        let (dx, dy) = movements.last();
        after_movements(m, config, movements.drop_last()).step(
            config,
            CoreInputEvent::Motion { dx, dy },
        ).engine
    }
}

/// The sum of some movements, where every sum on the way is kept within the
/// `i32` range.
pub open spec fn net(movements: Seq<(i32, i32)>) -> (int, int)
    decreases movements.len(),
{
    if movements.len() == 0 {
        (0, 0)
    } else {
        let before = net(movements.drop_last());
        (
            engine::saturated(before.0 + movements.last().0),
            engine::saturated(before.1 + movements.last().1),
        )
    }
}

/// While a press is pending, every movement that is held back is added to what
/// was held back before, where that is configured.
pub proof fn law_held_back_motion_adds_up(m: EngineModel, config: CoreConfig, dx: i32, dy: i32)
    requires
        m.state == EngineState::MiddlePending,
        config.replay_pending_motion_on_click,
        config.suppress_motion_while_pending,
        !m.moved(config, dx as int, dy as int).outside_deadzone(config),
    ensures
        ({
            let moved = m.step(config, CoreInputEvent::Motion { dx, dy });
            &&& moved.actions == seq![CoreAction::Suppress]
            &&& moved.engine.state == EngineState::MiddlePending
            &&& moved.engine.pending_motion == (
                engine::saturated(m.pending_motion.0 + dx),
                engine::saturated(m.pending_motion.1 + dy),
            )
        }),
{
}

/// In hold mode the release of a pending press gives back what was held back,
/// in one piece just before the click, and nothing where that is nothing; the
/// engine is back at rest.
pub proof fn law_release_gives_back_motion(m: EngineModel, config: CoreConfig)
    requires
        m.bounded(config),
        m.state == EngineState::MiddlePending,
        config.mode == Mode::HoldProgressive,
        config.replay_pending_motion_on_click,
    ensures
        ({
            let released = m.step(config, CoreInputEvent::MiddleUp);
            &&& released.engine == m.reset()
            &&& m.pending_motion == (0int, 0int) ==> released.actions == seq![
                CoreAction::EmitMiddleClick,
            ]
            &&& m.pending_motion != (0int, 0int) ==> {
                &&& released.actions.len() == 2
                &&& released.actions[0] matches CoreAction::ForwardMotion { dx, dy } && (
                    dx as int,
                    dy as int,
                ) == m.pending_motion
                &&& released.actions[1] == CoreAction::EmitMiddleClick
            }
        }),
{
}

/// In hold mode all the motion of a press that stays within the deadzone is
/// given back on release as one movement, the net of all, just before the
/// click, when that is configured.
pub proof fn law_hold_mode_replays_motion(
    m: EngineModel,
    config: CoreConfig,
    movements: Seq<(i32, i32)>,
)
    requires
        config.runnable(),
        m.bounded(config),
        m.state == EngineState::Idle,
        config.mode == Mode::HoldProgressive,
        config.replay_pending_motion_on_click,
        config.suppress_motion_while_pending,
        forall|k: int|
            0 <= k <= movements.len() ==> !(#[trigger] after_movements(
                m.step(config, CoreInputEvent::MiddleDown).engine,
                config,
                movements.take(k),
            )).outside_deadzone(config),
    ensures
        ({
            let pressed = m.step(config, CoreInputEvent::MiddleDown).engine;
            let moved = after_movements(pressed, config, movements);
            let released = moved.step(config, CoreInputEvent::MiddleUp);
            &&& moved.state == EngineState::MiddlePending
            &&& released.engine == m.reset()
            &&& net(movements) == (0int, 0int) ==> released.actions == seq![
                CoreAction::EmitMiddleClick,
            ]
            &&& net(movements) != (0int, 0int) ==> released.actions == seq![
                CoreAction::ForwardMotion {
                    dx: net(movements).0 as i32,
                    dy: net(movements).1 as i32,
                },
                CoreAction::EmitMiddleClick,
            ]
        }),
{
    let pressed = m.step(config, CoreInputEvent::MiddleDown).engine;
    let moved = after_movements(pressed, config, movements);
    lemma_movements_are_held_back(pressed, config, movements);
    let released = moved.step(config, CoreInputEvent::MiddleUp);
    if net(movements) != (0int, 0int) {
        assert(released.actions =~= seq![
            CoreAction::ForwardMotion {
                dx: net(movements).0 as i32,
                dy: net(movements).1 as i32,
            },
            CoreAction::EmitMiddleClick,
        ]);
    }
}

/// Movements within the deadzone leave a press pending, and change nothing but
/// the offsets and what is held back.
proof fn lemma_movements_are_held_back(
    pressed: EngineModel,
    config: CoreConfig,
    movements: Seq<(i32, i32)>,
)
    requires
        pressed.state == EngineState::MiddlePending,
        pressed.pending_motion == (0int, 0int),
        config.replay_pending_motion_on_click,
        config.suppress_motion_while_pending,
        forall|k: int|
            0 <= k <= movements.len() ==> !(#[trigger] after_movements(
                pressed,
                config,
                movements.take(k),
            )).outside_deadzone(config),
    ensures
        ({
            let moved = after_movements(pressed, config, movements);
            moved == (EngineModel {
                offset_y: moved.offset_y,
                offset_x: moved.offset_x,
                pending_motion: net(movements),
                ..pressed
            })
        }),
    decreases movements.len(),
{
    if movements.len() > 0 {
        let before = movements.drop_last();
        assert forall|k: int| 0 <= k <= before.len() implies !(#[trigger] after_movements(
            pressed,
            config,
            before.take(k),
        )).outside_deadzone(config) by {
            assert(before.take(k) =~= movements.take(k));
        }
        lemma_movements_are_held_back(pressed, config, before);
        assert(movements.take(movements.len() as int) =~= movements);
        assert(!after_movements(pressed, config, movements).outside_deadzone(config));
    }
}

/// A movement out of the deadzone while the button is down enters scroll mode,
/// and the release of the button leaves it, without a click.
pub proof fn law_drag_scrolls_until_release(m: EngineModel, config: CoreConfig, dx: i32, dy: i32)
    requires
        m.state == EngineState::MiddlePending,
        m.moved(config, dx as int, dy as int).outside_deadzone(config),
    ensures
        ({
            let dragged = m.step(config, CoreInputEvent::Motion { dx, dy });
            let released = dragged.engine.step(config, CoreInputEvent::MiddleUp);
            &&& dragged.engine.state == EngineState::Scrolling
            &&& !dragged.engine.toggle_locked
            &&& dragged.actions.last() == CoreAction::EnterScrollMode
            &&& released.engine.state == EngineState::Idle
            &&& released.actions == seq![CoreAction::ExitScrollMode]
        }),
{
}

/// In toggle mode with a click window, the first click is held back.
pub proof fn law_toggle_first_click_is_deferred(m: EngineModel, config: CoreConfig)
    requires
        m.state == EngineState::Idle,
        m.since_click_us is None,
        engine::defers_clicks(config),
    ensures
        ({
            let pressed = m.step(config, CoreInputEvent::MiddleDown);
            let released = pressed.engine.step(config, CoreInputEvent::MiddleUp);
            &&& pressed.actions == seq![CoreAction::Suppress]
            &&& released.actions == Seq::<CoreAction>::empty()
            &&& released.engine.state == EngineState::Idle
            &&& released.engine.since_click_us == Some(0int)
        }),
{
}

/// A deferred click comes once the window is over, and only once.
pub proof fn law_deferred_click_comes_once(
    m: EngineModel,
    config: CoreConfig,
    dt_micros: u64,
    later_micros: u64,
)
    requires
        m.state == EngineState::Idle,
        m.since_click_us matches Some(since) && since + dt_micros > engine::click_window_us(config),
    ensures
        ({
            let due = m.step(config, CoreInputEvent::Tick { dt_micros });
            &&& due.actions == seq![CoreAction::EmitMiddleClick]
            &&& due.engine.since_click_us is None
            &&& due.engine.state == EngineState::Idle
            &&& due.engine.step(config, CoreInputEvent::Tick { dt_micros: later_micros }).actions
                == Seq::<CoreAction>::empty()
        }),
{
}

/// A second click within the window locks scroll mode, and no click is ever
/// emitted for the two.
pub proof fn law_double_click_locks(m: EngineModel, config: CoreConfig, dt_micros: u64)
    requires
        m.state == EngineState::Idle,
        m.since_click_us matches Some(since) && since + dt_micros
            <= engine::click_window_us(config),
        engine::defers_clicks(config),
    ensures
        ({
            let waited = m.step(config, CoreInputEvent::Tick { dt_micros });
            let pressed = waited.engine.step(config, CoreInputEvent::MiddleDown);
            let released = pressed.engine.step(config, CoreInputEvent::MiddleUp);
            &&& waited.actions == Seq::<CoreAction>::empty()
            &&& pressed.actions == seq![CoreAction::Suppress]
            &&& released.actions == seq![CoreAction::EnterScrollMode]
            &&& released.engine.state == EngineState::Scrolling
            &&& released.engine.toggle_locked
            &&& released.engine.since_click_us is None
        }),
{
}

/// In toggle mode, holding the button through the window locks scroll mode.
pub proof fn law_holding_locks(m: EngineModel, config: CoreConfig, dt_micros: u64)
    requires
        m.state == EngineState::MiddlePending,
        engine::defers_clicks(config),
        m.pending_elapsed_us + dt_micros >= engine::click_window_us(config),
    ensures
        ({
            let held = m.step(config, CoreInputEvent::Tick { dt_micros });
            &&& held.actions == seq![CoreAction::EnterScrollMode]
            &&& held.engine.state == EngineState::Scrolling
            &&& held.engine.toggle_locked
        }),
{
}

/// Toggle mode without a click window: every click enters locked scroll mode.
pub proof fn law_toggle_without_window(m: EngineModel, config: CoreConfig)
    requires
        m.state == EngineState::MiddlePending,
        config.mode == Mode::Toggle,
        config.hold_threshold_ms == 0,
    ensures
        ({
            let released = m.step(config, CoreInputEvent::MiddleUp);
            &&& released.actions == seq![CoreAction::EnterScrollMode]
            &&& released.engine.state == EngineState::Scrolling
            &&& released.engine.toggle_locked
        }),
{
}

/// Locked scroll mode ends with the press of any of the three buttons and not
/// before; that press is swallowed, and so is a release in locked mode.
pub proof fn law_any_press_unlocks(m: EngineModel, config: CoreConfig, event: CoreInputEvent)
    requires
        m.state == EngineState::Scrolling,
        m.toggle_locked,
    ensures
        event is MiddleDown || event is LeftDown || event is RightDown ==> m.step(config, event)
            == m.reset().with_actions(seq![CoreAction::ExitScrollMode]),
        event is MiddleUp || event is LeftUp || event is RightUp ==> m.step(config, event)
            == m.with_actions(seq![]),
        m.step(config, event).engine.state != EngineState::Scrolling ==> event is MiddleDown
            || event is LeftDown || event is RightDown,
{
}

/// While scroll mode is not locked, the left and right buttons work as ever.
pub proof fn law_unlocked_buttons_work(m: EngineModel, config: CoreConfig, event: CoreInputEvent)
    requires
        m.state == EngineState::Scrolling,
        !m.toggle_locked,
        event is LeftDown || event is LeftUp || event is RightDown || event is RightUp,
    ensures
        m.step(config, event) == m.with_actions(engine::transparent(event)),
{
}

/// The pointer rests while scroll mode is on, unless it is configured to move.
pub proof fn law_scroll_mode_holds_pointer(m: EngineModel, config: CoreConfig, dx: i32, dy: i32)
    requires
        m.state == EngineState::Scrolling,
    ensures
        m.step(config, CoreInputEvent::Motion { dx, dy }).actions == (
        if config.suppress_motion_while_scrolling {
            seq![CoreAction::Suppress]
        } else {
            seq![CoreAction::ForwardMotion { dx, dy }]
        }),
{
}

/// A click is emitted only for a release in hold mode, or for a click that was
/// deferred and whose window is over.
pub proof fn law_clicks_have_a_cause(m: EngineModel, config: CoreConfig, event: CoreInputEvent)
    requires
        m.step(config, event).actions.contains(CoreAction::EmitMiddleClick),
    ensures
        ({
            ||| m.state == EngineState::MiddlePending && event is MiddleUp && config.mode
                == Mode::HoldProgressive
            ||| m.state == EngineState::Idle && event is Tick && m.since_click_us is Some
        }),
{
    let actions = m.step(config, event).actions;
    let i = choose|i: int| 0 <= i < actions.len() && actions[i] == CoreAction::EmitMiddleClick;
    assert(actions[i] == CoreAction::EmitMiddleClick);
}

/// Scroll mode is announced exactly when it begins and when it ends.
pub proof fn law_mode_changes_are_announced(
    m: EngineModel,
    config: CoreConfig,
    event: CoreInputEvent,
)
    ensures
        ({
            let after = m.step(config, event);
            &&& after.actions.contains(CoreAction::EnterScrollMode) <==> m.state
                != EngineState::Scrolling && after.engine.state == EngineState::Scrolling
            &&& after.actions.contains(CoreAction::ExitScrollMode) <==> m.state
                == EngineState::Scrolling && after.engine.state != EngineState::Scrolling
        }),
{
    let after = m.step(config, event);
    if after.actions.contains(CoreAction::EnterScrollMode) {
        let i = choose|i: int|
            0 <= i < after.actions.len() && after.actions[i] == CoreAction::EnterScrollMode;
        assert(after.actions[i] == CoreAction::EnterScrollMode);
    }
    if after.actions.contains(CoreAction::ExitScrollMode) {
        let i = choose|i: int|
            0 <= i < after.actions.len() && after.actions[i] == CoreAction::ExitScrollMode;
        assert(after.actions[i] == CoreAction::ExitScrollMode);
    }
    if m.state != EngineState::Scrolling && after.engine.state == EngineState::Scrolling {
        assert(after.actions[after.actions.len() - 1] == CoreAction::EnterScrollMode);
    }
    if m.state == EngineState::Scrolling && after.engine.state != EngineState::Scrolling {
        assert(after.actions[0] == CoreAction::ExitScrollMode);
    }
}

/// A tick emits wheel movements and nothing else, along one axis at a time,
/// and no movement is beyond the configured cap.
pub proof fn law_emissions_are_capped(
    m: EngineModel,
    config: CoreConfig,
    task: WheelTask,
    value: Binary64,
)
    requires
        config.runnable(),
    ensures
        ({
            let actions = m.resume(config, task, value).actions;
            &&& actions.len() <= 1
            &&& actions.len() == 1 ==> match actions[0] {
                CoreAction::EmitWheelDetents { vertical, horizontal } => {
                    &&& engine::abs(vertical as int) <= config.max_detents_per_tick
                    &&& engine::abs(horizontal as int) <= config.max_detents_per_tick
                    &&& vertical == 0 || horizontal == 0
                },
                CoreAction::EmitWheelHiRes { vertical_units, horizontal_units } => {
                    &&& engine::abs(vertical_units as int) <= engine::max_hires_units(config)
                    &&& engine::abs(horizontal_units as int) <= engine::max_hires_units(config)
                    &&& vertical_units == 0 || horizontal_units == 0
                },
                _ => false,
            }
        }),
{
}

/// What is emitted has the sign of the number that it was drained from: a
/// positive whole part emits a positive movement along the axis of the task, a
/// negative one a negative movement, and none emits nothing.
pub proof fn law_emissions_keep_the_sign(
    m: EngineModel,
    config: CoreConfig,
    axis: Axis,
    dt_micros: u64,
    value: Binary64,
    delta: Binary64,
)
    requires
        config.valid(),
    ensures
        ({
            let raw = value.spec_whole();
            let detents = m.drain_detents(config, axis, dt_micros, value, delta).actions;
            let hires = m.drain_hires(config, axis, dt_micros, value).actions;
            &&& raw == 0 ==> detents.len() == 0 && hires.len() == 0
            &&& raw != 0 ==> detents.len() == 1
            &&& forall|i: int|
                0 <= i < detents.len() ==> exists|n: int|
                    #[trigger] detents[i] == #[trigger] engine::detent_action(axis, n)
                        && same_sign(n, raw) && engine::abs(n) <= config.max_detents_per_tick
            &&& forall|i: int|
                0 <= i < hires.len() ==> exists|n: int|
                    #[trigger] hires[i] == #[trigger] engine::hires_action(axis, n) && same_sign(
                        n,
                        raw,
                    ) && config.min_hires_units_per_event <= engine::abs(n)
                        <= engine::max_hires_units(config)
        }),
{
    let raw = value.spec_whole();
    let detents = m.drain_detents(config, axis, dt_micros, value, delta).actions;
    let hires = m.drain_hires(config, axis, dt_micros, value).actions;
    let n = engine::clamped(raw, config.max_detents_per_tick as int);
    let u = engine::clamped(raw, engine::max_hires_units(config));
    if detents.len() > 0 {
        assert(detents[0] == engine::detent_action(axis, n) && same_sign(n, raw));
    }
    if hires.len() > 0 {
        assert(hires[0] == engine::hires_action(axis, u) && same_sign(u, raw));
    }
}

/// Whether two numbers are on the same side of zero.
pub open spec fn same_sign(a: int, b: int) -> bool {
    a > 0 && b > 0 || a < 0 && b < 0
}

/// What the arithmetic of a tick owes, in the little that its laws need: a
/// speed on the curve is no less than the least one, a movement goes the way it
/// is told, a sum lies on the side of what was added, and taking out the whole
/// part leaves none. The arithmetic of binary64 numbers does so.
pub open spec fn answers(task: WheelTask, value: Binary64) -> bool {
    match task {
        WheelTask::Done => true,
        WheelTask::Curve { min_speed, max_speed, exponent, full_speed_units, .. } => {
            0 < full_speed_units && config::usable_rate(min_speed) && config::usable_rate(exponent)
                && max_speed.spec_is_finite() && min_speed.units() <= max_speed.units()
                ==> !value.spec_is_nan() && min_speed.units() <= value.units()
        },
        WheelTask::Delta { direction, speed, .. } => {
            value.spec_is_finite() && 0 < speed.units() ==> {
                &&& 0 < direction ==> 0 <= value.units()
                &&& direction < 0 ==> value.units() <= 0
            }
        },
        WheelTask::AddDetents { accumulator, delta, .. }
        | WheelTask::AddHiRes { accumulator, delta, .. } => {
            !accumulator.spec_is_nan() && delta.spec_is_finite() ==> {
                &&& !value.spec_is_nan()
                &&& 0 <= delta.units() ==> accumulator.units() <= value.units()
                &&& delta.units() <= 0 ==> value.units() <= accumulator.units()
            }
        },
        WheelTask::TakeDetents { accumulator, count, .. }
        | WheelTask::TakeHiRes { accumulator, count, .. } => {
            !accumulator.spec_is_nan() && accumulator.spec_whole() == count && engine::abs(
                count as int,
            ) < i32::MAX ==> !value.spec_is_nan() && value.spec_whole() == 0
        },
    }
}

/// Whether less than a detent waits along an axis.
pub open spec fn detents_settled(m: EngineModel, axis: Axis) -> bool {
    !m.detents(axis).spec_is_nan() && m.detents(axis).spec_whole() == 0
}

/// Whether less than what is worth an event waits along an axis.
pub open spec fn hires_settled(m: EngineModel, config: CoreConfig, axis: Axis) -> bool {
    !m.hires(axis).spec_is_nan() && engine::abs(m.hires(axis).spec_whole())
        < config.min_hires_units_per_event
}

/// Whether nothing that is due waits in the accumulators, as between ticks.
pub open spec fn settled(m: EngineModel, config: CoreConfig) -> bool {
    &&& detents_settled(m, Axis::Vertical)
    &&& detents_settled(m, Axis::Horizontal)
    &&& hires_settled(m, config, Axis::Vertical)
    &&& hires_settled(m, config, Axis::Horizontal)
}

/// The axis that a task works on.
pub open spec fn axis_of(task: WheelTask) -> Axis {
    match task {
        WheelTask::Done => Axis::Horizontal,
        WheelTask::Curve { axis, .. } => axis,
        WheelTask::Delta { axis, .. } => axis,
        WheelTask::AddDetents { axis, .. } => axis,
        WheelTask::TakeDetents { axis, .. } => axis,
        WheelTask::AddHiRes { axis, .. } => axis,
        WheelTask::TakeHiRes { axis, .. } => axis,
    }
}

/// Whether a movement goes the way that the pointer points.
pub open spec fn follows(m: EngineModel, config: CoreConfig, axis: Axis, delta: Binary64) -> bool {
    &&& delta.spec_is_finite()
    &&& 0 < m.direction(config, axis) ==> 0 <= delta.units()
    &&& m.direction(config, axis) < 0 ==> delta.units() <= 0
}

/// Whether a tick is where it should be: it works along an axis on which the
/// pointer has left the deadzone, on an emitter that is on, on what the
/// accumulators hold, and on nothing else that is due.
pub open spec fn on_track(m: EngineModel, config: CoreConfig, task: WheelTask) -> bool {
    let axis = axis_of(task);
    &&& task is TakeDetents && axis == Axis::Vertical || detents_settled(m, Axis::Vertical)
    &&& task is TakeDetents && axis == Axis::Horizontal || detents_settled(m, Axis::Horizontal)
    &&& task is TakeHiRes && axis == Axis::Vertical || hires_settled(m, config, Axis::Vertical)
    &&& task is TakeHiRes && axis == Axis::Horizontal || hires_settled(m, config, Axis::Horizontal)
    &&& task == WheelTask::Done || m.direction(config, axis) != 0
    &&& match task {
        WheelTask::Done => true,
        WheelTask::Curve { full_speed_units, min_speed, max_speed, exponent, .. } => {
            &&& full_speed_units == config.full_speed_units
            &&& min_speed == config.min_speed_detents_per_second
            &&& max_speed == config.max_speed_detents_per_second
            &&& exponent == config.acceleration_exponent
        },
        WheelTask::Delta { direction, speed, .. } => {
            &&& direction == m.direction(config, axis)
            &&& 0 < speed.units()
        },
        WheelTask::AddDetents { accumulator, delta, .. } => {
            &&& config.emit_legacy_wheel
            &&& accumulator == m.detents(axis)
            &&& follows(m, config, axis, delta)
        },
        WheelTask::TakeDetents { accumulator, count, delta, .. } => {
            &&& config.emit_legacy_wheel
            &&& !accumulator.spec_is_nan()
            &&& accumulator.spec_whole() == count
            &&& engine::abs(count as int) <= config.max_detents_per_tick
            &&& follows(m, config, axis, delta)
        },
        WheelTask::AddHiRes { accumulator, delta, .. } => {
            &&& config.emit_hires_wheel
            &&& accumulator == m.hires(axis)
            &&& follows(m, config, axis, delta)
        },
        WheelTask::TakeHiRes { accumulator, count, .. } => {
            &&& config.emit_hires_wheel
            &&& !accumulator.spec_is_nan()
            &&& accumulator.spec_whole() == count
            &&& engine::abs(count as int) <= engine::max_hires_units(config)
        },
    }
}

/// Nothing that is due waits in the accumulators of a new engine, and no event
/// changes that; so a tick in scroll mode starts out where it should be.
pub proof fn law_ticks_start_settled(m: EngineModel, config: CoreConfig, event: CoreInputEvent)
    requires
        config.valid(),
    ensures
        settled(EngineModel::initial(), config),
        settled(m, config) ==> settled(m.step(config, event).engine, config),
        settled(m, config) ==> on_track(
            m.step(config, event).engine,
            config,
            m.step(config, event).task,
        ),
{
    lemma_zero_is_nothing();
    if m.state == EngineState::Scrolling && settled(m, config) {
        if let CoreInputEvent::Tick { dt_micros } = event {
            lemma_axis_starts_on_track(m, config, Axis::Vertical, dt_micros);
            lemma_axis_starts_on_track(m, config, Axis::Horizontal, dt_micros);
        }
    }
}

/// Whether an answer took a tick on as it should: back on track, nearer to the
/// end, and with nothing emitted but at most one movement, which goes the way
/// that the pointer points and stays within the caps.
pub open spec fn goes_on(m: EngineModel, config: CoreConfig, task: WheelTask, after: Outcome) -> bool {
    let axis = axis_of(task);
    let way = m.direction(config, axis);
    &&& on_track(after.engine, config, after.task)
    &&& task != WheelTask::Done ==> 0 <= remaining(after.task) < remaining(task)
    &&& after.actions.len() <= 1
    &&& after.actions.len() == 1 ==> {
        ||| task is AddDetents && config.emit_legacy_wheel && exists|n: int|
            after.actions[0] == #[trigger] engine::detent_action(axis, n) && same_sign(n, way)
                && engine::abs(n) <= config.max_detents_per_tick
        ||| task is AddHiRes && config.emit_hires_wheel && exists|u: int|
            after.actions[0] == #[trigger] engine::hires_action(axis, u) && same_sign(u, way)
                && config.min_hires_units_per_event <= engine::abs(u)
                <= config.max_detents_per_tick * engine::HIRES_UNITS_PER_DETENT
    }
}

/// The wheel follows the pointer. As long as the arithmetic gives what it owes,
/// a tick emits at most one movement of detents and one of high-resolution
/// units along each axis: only along an axis on which the pointer has left the
/// deadzone, in the direction that the pointer and the inversion of the axis
/// give, only where that emitter is on, within the caps, and of high-resolution
/// units no fewer than are worth an event. Every answer brings the tick nearer
/// to its end, and at the end nothing that is due is left waiting.
pub proof fn law_wheel_follows_the_pointer(
    m: EngineModel,
    config: CoreConfig,
    task: WheelTask,
    value: Binary64,
)
    requires
        config.valid(),
        config.max_detents_per_tick * engine::HIRES_UNITS_PER_DETENT < i32::MAX,
        on_track(m, config, task),
        answers(task, value),
    ensures
        goes_on(m, config, task, m.resume(config, task, value)),
        m.resume(config, task, value).task == WheelTask::Done ==> settled(
            m.resume(config, task, value).engine,
            config,
        ),
{
    if task is AddDetents {
        lemma_detents_go_on(m, config, task, value);
    } else if task is AddHiRes {
        lemma_hires_go_on(m, config, task, value);
    } else if task is TakeDetents || task is TakeHiRes {
        lemma_takes_go_on(m, config, task, value);
    } else {
        lemma_movements_go_on(m, config, task, value);
    }
}

proof fn lemma_movements_go_on(m: EngineModel, config: CoreConfig, task: WheelTask, value: Binary64)
    requires
        config.valid(),
        on_track(m, config, task),
        answers(task, value),
        task is Done || task is Curve || task is Delta,
    ensures
        goes_on(m, config, task, m.resume(config, task, value)),
{
    let after = m.resume(config, task, value);
    lemma_zero_is_nothing();
    match task {
        WheelTask::Curve { axis, dt_micros, .. } => {
            lemma_next_axis_starts_on_track(after.engine, config, axis, dt_micros);
        },
        WheelTask::Delta { axis, dt_micros, .. } => {
            assert(settled(after.engine, config));
            assert(after.engine.direction(config, axis) == m.direction(config, axis));
            lemma_next_axis_starts_on_track(after.engine, config, axis, dt_micros);
        },
        _ => {},
    }
}

proof fn lemma_detents_go_on(m: EngineModel, config: CoreConfig, task: WheelTask, value: Binary64)
    requires
        config.valid(),
        config.max_detents_per_tick * engine::HIRES_UNITS_PER_DETENT < i32::MAX,
        on_track(m, config, task),
        answers(task, value),
        task is AddDetents,
    ensures
        goes_on(m, config, task, m.resume(config, task, value)),
{
    let after = m.resume(config, task, value);
    let raw = value.spec_whole();
    let n = engine::clamped(raw, config.max_detents_per_tick as int);
    lemma_zero_is_nothing();
    if let WheelTask::AddDetents { axis, dt_micros, accumulator, delta } = task {
        lemma_sum_stays_on_its_side(accumulator, value);
        assert(raw != 0 ==> same_sign(raw, m.direction(config, axis)));
        assert(after.engine.direction(config, axis) == m.direction(config, axis));
        if raw != 0 {
            assert(after.actions[0] == engine::detent_action(axis, n));
            assert(same_sign(n, m.direction(config, axis)));
        }
        if n == raw && raw != 0 {
            assert(on_track(after.engine, config, after.task));
        } else {
            assert(settled(after.engine, config));
            lemma_next_axis_starts_on_track(after.engine, config, axis, dt_micros);
        }
    }
}

proof fn lemma_hires_go_on(m: EngineModel, config: CoreConfig, task: WheelTask, value: Binary64)
    requires
        config.valid(),
        config.max_detents_per_tick * engine::HIRES_UNITS_PER_DETENT < i32::MAX,
        on_track(m, config, task),
        answers(task, value),
        task is AddHiRes,
    ensures
        goes_on(m, config, task, m.resume(config, task, value)),
{
    let after = m.resume(config, task, value);
    let raw = value.spec_whole();
    let u = engine::clamped(raw, engine::max_hires_units(config));
    lemma_zero_is_nothing();
    if let WheelTask::AddHiRes { axis, dt_micros, accumulator, delta } = task {
        lemma_sum_stays_on_its_side(accumulator, value);
        let due = engine::abs(raw) >= config.min_hires_units_per_event;
        assert(due ==> same_sign(raw, m.direction(config, axis)));
        if due {
            assert(after.actions[0] == engine::hires_action(axis, u));
            assert(same_sign(u, m.direction(config, axis)));
        }
        if u == raw && due {
            assert(on_track(after.engine, config, after.task));
        } else {
            assert(settled(after.engine, config));
            lemma_next_axis_starts_on_track(after.engine, config, axis, dt_micros);
        }
    }
}

proof fn lemma_takes_go_on(m: EngineModel, config: CoreConfig, task: WheelTask, value: Binary64)
    requires
        config.valid(),
        config.max_detents_per_tick * engine::HIRES_UNITS_PER_DETENT < i32::MAX,
        on_track(m, config, task),
        answers(task, value),
        task is TakeDetents || task is TakeHiRes,
    ensures
        goes_on(m, config, task, m.resume(config, task, value)),
{
    let after = m.resume(config, task, value);
    let axis = axis_of(task);
    assert(settled(after.engine, config));
    assert(after.engine.direction(config, axis) == m.direction(config, axis));
    match task {
        WheelTask::TakeDetents { dt_micros, .. } => {
            lemma_next_axis_starts_on_track(after.engine, config, axis, dt_micros);
        },
        WheelTask::TakeHiRes { dt_micros, .. } => {
            lemma_next_axis_starts_on_track(after.engine, config, axis, dt_micros);
        },
        _ => {},
    }
}

/// Zero is a number without a whole part.
proof fn lemma_zero_is_nothing()
    ensures
        !Binary64::spec_zero().spec_is_nan(),
        Binary64::spec_zero().spec_whole() == 0,
{
    let zero = Binary64::spec_zero();
    zero.lemma_abs_units_zero();
    vstd::arithmetic::power2::lemma_pow2_pos(1074);
    assert(zero.abs_whole() == 0) by {
        vstd::arithmetic::div_mod::lemma_div_of0(vstd::arithmetic::power2::pow2(1074) as int);
    }
}

/// The whole part of a sum is on the side of what was added.
proof fn lemma_sum_stays_on_its_side(accumulator: Binary64, value: Binary64)
    ensures
        !accumulator.spec_is_nan() && !value.spec_is_nan() ==> {
            &&& accumulator.units() <= value.units() ==> accumulator.spec_whole()
                <= value.spec_whole()
            &&& value.units() <= accumulator.units() ==> value.spec_whole()
                <= accumulator.spec_whole()
        },
{
    if !accumulator.spec_is_nan() && !value.spec_is_nan() {
        if accumulator.units() <= value.units() {
            crate::binary64::lemma_whole_ordered(accumulator, value);
        }
        if value.units() <= accumulator.units() {
            crate::binary64::lemma_whole_ordered(value, accumulator);
        }
    }
}

proof fn lemma_axis_starts_on_track(
    m: EngineModel,
    config: CoreConfig,
    axis: Axis,
    dt_micros: u64,
)
    requires
        config.valid(),
        settled(m, config),
    ensures
        on_track(m, config, m.axis_task(config, axis, dt_micros)),
        m.axis_task(config, axis, dt_micros) == WheelTask::Done || axis_of(
            m.axis_task(config, axis, dt_micros),
        ) == axis && remaining(m.axis_task(config, axis, dt_micros)) <= (if axis == Axis::Vertical {
            12int
        } else {
            6int
        }),
{
    lemma_reached_step_is_usable(config.scroll_speed_steps@, engine::abs(m.offset(axis)));
}

proof fn lemma_next_axis_starts_on_track(
    m: EngineModel,
    config: CoreConfig,
    axis: Axis,
    dt_micros: u64,
)
    requires
        config.valid(),
    ensures
        settled(m, config) ==> on_track(m, config, m.task_after(config, axis, dt_micros)),
        axis == Axis::Horizontal ==> m.task_after(config, axis, dt_micros) == WheelTask::Done,
        settled(m, config) ==> 0 <= remaining(m.task_after(config, axis, dt_micros)) <= 6,
{
    if settled(m, config) {
        lemma_axis_starts_on_track(m, config, Axis::Horizontal, dt_micros);
    }
}

/// A step that was reached is one of the steps.
proof fn lemma_reached_step_is_usable(steps: Seq<SpeedStep>, distance: int)
    ensures
        engine::last_reached(steps, distance) matches Some(step) ==> steps.contains(step),
    decreases steps.len(),
{
    if steps.len() > 0 {
        if distance >= steps.last().distance_units {
            assert(steps[steps.len() - 1] == steps.last());
        } else {
            lemma_reached_step_is_usable(steps.drop_last(), distance);
            if let Some(step) = engine::last_reached(steps.drop_last(), distance) {
                let i = choose|i: int|
                    0 <= i < steps.drop_last().len() && steps.drop_last()[i] == step;
                assert(steps[i] == step);
            }
        }
    }
}

/// Each wheel can be turned off: a tick that works on neither never starts to.
pub proof fn law_emitters_can_be_off(
    m: EngineModel,
    config: CoreConfig,
    task: WheelTask,
    value: Binary64,
)
    ensures
        !config.emit_legacy_wheel && !(task is AddDetents || task is TakeDetents) ==> {
            let next = m.resume(config, task, value).task;
            !(next is AddDetents || next is TakeDetents)
        },
        !config.emit_hires_wheel && !(task is AddHiRes || task is TakeHiRes) ==> {
            let next = m.resume(config, task, value).task;
            !(next is AddHiRes || next is TakeHiRes)
        },
{
}

/// How much of a tick may still lie ahead.
pub open spec fn remaining(task: WheelTask) -> int {
    let (axis, stage) = match task {
        WheelTask::Done => (Axis::Horizontal, 0int),
        WheelTask::Curve { axis, .. } => (axis, 6int),
        WheelTask::Delta { axis, .. } => (axis, 5int),
        WheelTask::AddDetents { axis, .. } => (axis, 4int),
        WheelTask::TakeDetents { axis, .. } => (axis, 3int),
        WheelTask::AddHiRes { axis, .. } => (axis, 2int),
        WheelTask::TakeHiRes { axis, .. } => (axis, 1int),
    };
    if axis == Axis::Vertical {
        stage + 6
    } else {
        stage
    }
}

/// A tick comes to its end: every answer brings it nearer, except one that
/// still holds whole detents within the cap after some were taken out.
pub proof fn law_ticks_advance(
    m: EngineModel,
    config: CoreConfig,
    task: WheelTask,
    value: Binary64,
)
    requires
        task != WheelTask::Done,
        task is TakeDetents ==> value.spec_whole() == 0 || engine::abs(value.spec_whole())
            > config.max_detents_per_tick,
    ensures
        0 <= remaining(m.resume(config, task, value).task) < remaining(task),
{
}

/// A pointer below the press point scrolls down and one to the right of it
/// scrolls right; the opposite sides scroll the opposite way, and inverting an
/// axis turns it around.
pub proof fn law_directions(m: EngineModel, config: CoreConfig)
    requires
        0 <= config.deadzone_units,
        !config.invert_vertical,
        !config.invert_horizontal,
    ensures
        m.offset_y > config.deadzone_units <==> m.direction(config, Axis::Vertical) == -1,
        m.offset_y < -config.deadzone_units <==> m.direction(config, Axis::Vertical) == 1,
        m.offset_x > config.deadzone_units <==> m.direction(config, Axis::Horizontal) == 1,
        m.offset_x < -config.deadzone_units <==> m.direction(config, Axis::Horizontal) == -1,
        m.direction((CoreConfig { invert_vertical: true, ..config }), Axis::Vertical)
            == -m.direction(config, Axis::Vertical),
        m.direction((CoreConfig { invert_horizontal: true, ..config }), Axis::Horizontal)
            == -m.direction(config, Axis::Horizontal),
{
}

/// Of the speed steps of a validated configuration, the last one that was
/// reached sets the speed.
pub proof fn law_last_step_reached_sets_speed(config: CoreConfig, i: int, distance: int)
    requires
        config.valid(),
        0 <= i < config.scroll_speed_steps@.len(),
        config.scroll_speed_steps@[i].distance_units <= distance,
        i + 1 < config.scroll_speed_steps@.len() ==> distance < config.scroll_speed_steps@[i
            + 1].distance_units,
    ensures
        engine::speed_at(config, distance) == Speed::Fixed(
            config.scroll_speed_steps@[i].speed_detents_per_second,
        ),
{
    let steps = config.scroll_speed_steps@;
    assert forall|j: int| i < j < steps.len() implies distance
        < #[trigger] steps[j].distance_units by {
        assert(steps[i + 1].distance_units <= steps[j].distance_units);
    }
    lemma_last_reached(steps, i, distance);
}

/// Before the first speed step, and without any, the progressive curve sets
/// the speed.
pub proof fn law_curve_before_first_step(config: CoreConfig, distance: int)
    requires
        config.valid(),
        config.deadzone_units < distance <= config.max_offset_units,
        config.scroll_speed_steps@.len() > 0 ==> distance
            < config.scroll_speed_steps@[0].distance_units,
    ensures
        engine::speed_at(config, distance) == (Speed::Curve {
            active_units: (distance - config.deadzone_units) as i32,
        }),
{
    let steps = config.scroll_speed_steps@;
    assert forall|j: int| 0 <= j < steps.len() implies distance
        < #[trigger] steps[j].distance_units by {
        assert(steps[0].distance_units <= steps[j].distance_units);
    }
    lemma_none_reached(steps, distance);
}

/// The curve is handed what makes it grow: without speed steps nothing moves
/// within the deadzone, a larger distance beyond it never comes to fewer active
/// units, and from the full-speed distance on there are enough for full speed.
pub proof fn law_curve_is_handed_the_distance(config: CoreConfig, near: int, far: int)
    requires
        config.valid(),
        config.scroll_speed_steps@.len() == 0,
        0 <= near <= far <= config.max_offset_units,
    ensures
        near <= config.deadzone_units ==> engine::speed_at(config, near) == Speed::Still,
        near > config.deadzone_units ==> {
            &&& engine::speed_at(config, near) matches Speed::Curve { active_units: a }
            &&& engine::speed_at(config, far) matches Speed::Curve { active_units: b }
            &&& 0 < a <= b
            &&& near < far ==> a < b
            &&& far >= config.deadzone_units + config.full_speed_units <==> b
                >= config.full_speed_units
        },
{
}

/// The lock and the motion held back belong to one state each: there is no
/// lock outside scroll mode and no motion held back but while a press is
/// pending.
pub open spec fn tidy(m: EngineModel) -> bool {
    &&& m.toggle_locked ==> m.state == EngineState::Scrolling
    &&& m.pending_motion != (0int, 0int) ==> m.state == EngineState::MiddlePending
}

/// A new engine is tidy, and no event or tick makes it otherwise.
pub proof fn law_engines_stay_tidy(
    m: EngineModel,
    config: CoreConfig,
    event: CoreInputEvent,
    task: WheelTask,
    value: Binary64,
)
    ensures
        tidy(EngineModel::initial()),
        tidy(m) ==> tidy(m.step(config, event).engine),
        tidy(m) ==> tidy(m.resume(config, task, value).engine),
{
}

/// The default settings are valid, and an engine can run on them.
pub proof fn law_default_is_valid(config: CoreConfig)
    requires
        config.is_default(),
    ensures
        config.valid(),
        config.runnable(),
{
    config.min_speed_detents_per_second.lemma_abs_units_zero();
    config.acceleration_exponent.lemma_abs_units_zero();
    crate::binary64::lemma_abs_units_ordered(
        config.min_speed_detents_per_second,
        config.max_speed_detents_per_second,
    );
}

/// An engine can run on every validated configuration, but in toggle mode only
/// where the hold threshold can be counted in microseconds.
pub proof fn law_valid_is_runnable(config: CoreConfig)
    requires
        config.valid(),
        config.mode == Mode::Toggle ==> config.hold_threshold_ms * 1000 <= u64::MAX,
    ensures
        config.runnable(),
{
}

/// The last step that is reached is found.
pub proof fn lemma_last_reached(steps: Seq<SpeedStep>, i: int, distance: int)
    requires
        0 <= i < steps.len(),
        steps[i].distance_units <= distance,
        forall|j: int| i < j < steps.len() ==> distance < #[trigger] steps[j].distance_units,
    ensures
        engine::last_reached(steps, distance) == Some(steps[i]),
    decreases steps.len(),
{
    if i < steps.len() - 1 {
        assert(distance < steps[steps.len() - 1].distance_units);
        lemma_last_reached(steps.drop_last(), i, distance);
    }
}

/// Where no step is reached, none is found.
pub proof fn lemma_none_reached(steps: Seq<SpeedStep>, distance: int)
    requires
        forall|j: int| 0 <= j < steps.len() ==> distance < #[trigger] steps[j].distance_units,
    ensures
        engine::last_reached(steps, distance) is None,
    decreases steps.len(),
{
    if steps.len() > 0 {
        assert(distance < steps[steps.len() - 1].distance_units);
        lemma_none_reached(steps.drop_last(), distance);
    }
}

} // verus!
