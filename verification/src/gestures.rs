//! What the engine makes of presses, movements and waiting, told in plain
//! numbers.

use vstd::prelude::*;

use crate::binary64::Binary64;
use crate::config::{CoreConfig, Mode};
use crate::engine::{EngineModel, WheelTask};
use crate::laws;
use crate::model::{CoreAction, CoreInputEvent, EngineState, MouseButton};

verus! {

/// While the middle button is down or scroll mode is on, every movement is
/// added to the distance from the press point: the vertical part always, the
/// horizontal part with horizontal scrolling, and each within the largest
/// offset on either side. The rest of the gesture's account is not touched:
/// neither the accumulators, nor the time that the button was held.
pub proof fn law_motion_adds_up(m: EngineModel, config: CoreConfig, dx: i32, dy: i32)
    requires
        m.state == EngineState::MiddlePending || m.state == EngineState::Scrolling,
        0 <= config.max_offset_units,
    ensures
        ({
            let after = m.step(config, CoreInputEvent::Motion { dx, dy });
            let max = config.max_offset_units;
            &&& -max <= m.offset_y + dy <= max ==> after.engine.offset_y == m.offset_y + dy
            &&& m.offset_y + dy > max ==> after.engine.offset_y == max
            &&& m.offset_y + dy < -max ==> after.engine.offset_y == -max
            &&& config.horizontal_scroll ==> {
                &&& -max <= m.offset_x + dx <= max ==> after.engine.offset_x == m.offset_x + dx
                &&& m.offset_x + dx > max ==> after.engine.offset_x == max
                &&& m.offset_x + dx < -max ==> after.engine.offset_x == -max
            }
            &&& !config.horizontal_scroll ==> after.engine.offset_x == m.offset_x
            &&& after.engine.detents_y == m.detents_y
            &&& after.engine.detents_x == m.detents_x
            &&& after.engine.hires_y == m.hires_y
            &&& after.engine.hires_x == m.hires_x
            &&& after.engine.pending_elapsed_us == m.pending_elapsed_us
            &&& after.task == WheelTask::Done
        }),
{
}

/// A pending press turns into scroll mode with the movement that takes the
/// pointer further from the press point than the deadzone, vertically or, with
/// horizontal scrolling, to a side; with no other movement. That scroll mode
/// ends with the release of the button. The movement itself is held back or
/// passed on as configured.
pub proof fn law_leaving_the_deadzone(m: EngineModel, config: CoreConfig, dx: i32, dy: i32)
    requires
        m.state == EngineState::MiddlePending,
        0 <= config.max_offset_units,
    ensures
        ({
            let after = m.step(config, CoreInputEvent::Motion { dx, dy });
            let zone = config.deadzone_units;
            let y = after.engine.offset_y;
            let x = after.engine.offset_x;
            let left = y > zone || y < -zone || config.horizontal_scroll && (x > zone || x < -zone);
            &&& left ==> {
                &&& after.engine.state == EngineState::Scrolling
                &&& !after.engine.toggle_locked
                &&& after.engine.pending_motion == (0int, 0int)
                &&& after.engine.since_click_us is None
                &&& after.actions.len() == 2
                &&& after.actions[1] == CoreAction::EnterScrollMode
            }
            &&& !left ==> {
                &&& after.engine.state == EngineState::MiddlePending
                &&& after.engine.toggle_locked == m.toggle_locked
                &&& after.engine.since_click_us == m.since_click_us
                &&& after.actions.len() == 1
            }
            &&& config.suppress_motion_while_pending ==> after.actions[0] == CoreAction::Suppress
            &&& !config.suppress_motion_while_pending ==> after.actions[0] == (
            CoreAction::ForwardMotion { dx, dy })
        }),
{
}

/// While a press is pending, what is held back of the motion is the sum of what
/// was held back before and of the movement, each way, as far as that can be
/// counted; nothing is noted where it is not to be given back, or was passed on.
pub proof fn law_held_back_motion_is_a_sum(m: EngineModel, config: CoreConfig, dx: i32, dy: i32)
    requires
        m.state == EngineState::MiddlePending,
        m.step(config, CoreInputEvent::Motion { dx, dy }).engine.state
            == EngineState::MiddlePending,
    ensures
        ({
            let held = m.step(config, CoreInputEvent::Motion { dx, dy }).engine.pending_motion;
            let x = m.pending_motion.0 + dx;
            let y = m.pending_motion.1 + dy;
            let noted = config.suppress_motion_while_pending
                && config.replay_pending_motion_on_click;
            &&& noted && -0x8000_0000 <= x <= 0x7fff_ffff ==> held.0 == x
            &&& noted && x > 0x7fff_ffff ==> held.0 == 0x7fff_ffff
            &&& noted && x < -0x8000_0000 ==> held.0 == -0x8000_0000
            &&& noted && -0x8000_0000 <= y <= 0x7fff_ffff ==> held.1 == y
            &&& noted && y > 0x7fff_ffff ==> held.1 == 0x7fff_ffff
            &&& noted && y < -0x8000_0000 ==> held.1 == -0x8000_0000
            &&& !noted ==> held == m.pending_motion
        }),
{
}

/// The sum of the vertical parts of some movements.
pub open spec fn total_y(movements: Seq<(i32, i32)>) -> int
    decreases movements.len(),
{
    if movements.len() == 0 {
        0
    } else {
        total_y(movements.drop_last()) + movements.last().1
    }
}

/// The sum of the horizontal parts of some movements.
pub open spec fn total_x(movements: Seq<(i32, i32)>) -> int
    decreases movements.len(),
{
    if movements.len() == 0 {
        0
    } else {
        total_x(movements.drop_last()) + movements.last().0
    }
}

/// Whether the first `k` movements add up to more than the deadzone.
pub open spec fn beyond_deadzone(
    config: CoreConfig,
    movements: Seq<(i32, i32)>,
    k: int,
) -> bool {
    let y = total_y(movements.take(k));
    let x = total_x(movements.take(k));
    ||| y > config.deadzone_units
    ||| y < -config.deadzone_units
    ||| config.horizontal_scroll && x > config.deadzone_units
    ||| config.horizontal_scroll && x < -config.deadzone_units
}

/// After a press the offsets are the sums of all movements since, as long as no
/// sum on the way exceeds the largest offset, and scroll mode is on exactly
/// once a sum on the way has exceeded the deadzone.
pub proof fn law_movements_sum_up(
    m: EngineModel,
    config: CoreConfig,
    movements: Seq<(i32, i32)>,
)
    requires
        m.state == EngineState::Idle,
        0 <= config.deadzone_units,
        0 <= config.max_offset_units,
        forall|k: int|
            0 <= k <= movements.len() ==> -config.max_offset_units <= #[trigger] total_y(
                movements.take(k),
            ) <= config.max_offset_units,
        forall|k: int|
            0 <= k <= movements.len() ==> -config.max_offset_units <= #[trigger] total_x(
                movements.take(k),
            ) <= config.max_offset_units,
    ensures
        ({
            let pressed = m.step(config, CoreInputEvent::MiddleDown).engine;
            let after = laws::after_movements(pressed, config, movements);
            &&& after.offset_y == total_y(movements)
            &&& config.horizontal_scroll ==> after.offset_x == total_x(movements)
            &&& !config.horizontal_scroll ==> after.offset_x == 0
            &&& after.state == EngineState::Scrolling <==> exists|k: int|
                0 <= k <= movements.len() && #[trigger] beyond_deadzone(config, movements, k)
            &&& after.state == EngineState::MiddlePending <==> forall|k: int|
                0 <= k <= movements.len() ==> !#[trigger] beyond_deadzone(config, movements, k)
        }),
    decreases movements.len(),
{
    let pressed = m.step(config, CoreInputEvent::MiddleDown).engine;
    let n = movements.len() as int;
    assert(movements.take(n) =~= movements);
    if n > 0 {
        let before = movements.drop_last();
        assert forall|k: int| 0 <= k <= before.len() implies before.take(k) == movements.take(
            k,
        ) by {
            assert(before.take(k) =~= movements.take(k));
        }
        assert forall|k: int| 0 <= k <= before.len() implies -config.max_offset_units
            <= #[trigger] total_y(before.take(k)) <= config.max_offset_units by {
            assert(before.take(k) == movements.take(k));
        }
        assert forall|k: int| 0 <= k <= before.len() implies -config.max_offset_units
            <= #[trigger] total_x(before.take(k)) <= config.max_offset_units by {
            assert(before.take(k) == movements.take(k));
        }
        law_movements_sum_up(m, config, before);
        let earlier = laws::after_movements(pressed, config, before);
        assert(earlier.state != EngineState::Idle);
        assert(-config.max_offset_units <= total_y(movements.take(n)) <= config.max_offset_units);
        assert(-config.max_offset_units <= total_x(movements.take(n)) <= config.max_offset_units);
        law_motion_adds_up(earlier, config, movements.last().0, movements.last().1);
        assert forall|k: int| 0 <= k < n implies beyond_deadzone(config, before, k)
            == #[trigger] beyond_deadzone(config, movements, k) by {
            assert(before.take(k) == movements.take(k));
        }
        if earlier.state == EngineState::Scrolling {
            let k = choose|k: int|
                0 <= k <= before.len() && #[trigger] beyond_deadzone(config, before, k);
            assert(beyond_deadzone(config, movements, k));
        } else {
            law_leaving_the_deadzone(earlier, config, movements.last().0, movements.last().1);
            assert forall|k: int| 0 <= k < n implies !#[trigger] beyond_deadzone(
                config,
                movements,
                k,
            ) by {
                assert(!beyond_deadzone(config, before, k));
            }
            assert(laws::after_movements(pressed, config, movements).state
                == EngineState::Scrolling <==> beyond_deadzone(config, movements, n));
        }
    } else {
        assert(!beyond_deadzone(config, movements, 0)) by {
            assert(movements.take(0) =~= movements);
        }
    }
}

/// A press at rest is held back. It starts to count from nothing: the distance,
/// what is due to the wheel, the motion held back and the time held. A click
/// that was deferred stays so.
pub proof fn law_press_is_held_back(m: EngineModel, config: CoreConfig)
    requires
        m.state == EngineState::Idle,
    ensures
        ({
            let pressed = m.step(config, CoreInputEvent::MiddleDown);
            &&& pressed.actions == seq![CoreAction::Suppress]
            &&& pressed.task == WheelTask::Done
            &&& pressed.engine.state == EngineState::MiddlePending
            &&& pressed.engine.offset_y == 0
            &&& pressed.engine.offset_x == 0
            &&& pressed.engine.detents_y == (Binary64 { bits: 0 })
            &&& pressed.engine.detents_x == (Binary64 { bits: 0 })
            &&& pressed.engine.hires_y == (Binary64 { bits: 0 })
            &&& pressed.engine.hires_x == (Binary64 { bits: 0 })
            &&& pressed.engine.pending_motion == (0int, 0int)
            &&& pressed.engine.pending_elapsed_us == 0
            &&& pressed.engine.since_click_us == m.since_click_us
            &&& pressed.engine.toggle_locked == m.toggle_locked
        }),
{
}

/// A new engine is at rest, with nothing counted and no click deferred.
pub proof fn law_new_engine_is_at_rest()
    ensures
        ({
            let m = EngineModel::initial();
            &&& m.state == EngineState::Idle
            &&& m.offset_y == 0
            &&& m.offset_x == 0
            &&& m.detents_y == (Binary64 { bits: 0 })
            &&& m.detents_x == (Binary64 { bits: 0 })
            &&& m.hires_y == (Binary64 { bits: 0 })
            &&& m.hires_x == (Binary64 { bits: 0 })
            &&& m.pending_motion == (0int, 0int)
            &&& m.pending_elapsed_us == 0
            &&& m.since_click_us is None
            &&& !m.toggle_locked
        }),
{
}

/// Whether a gesture is over: the engine is at rest and has forgotten all of the
/// gesture, while a deferred click is still what it was before.
pub open spec fn gesture_is_over(m: EngineModel, before: EngineModel) -> bool {
    &&& m.state == EngineState::Idle
    &&& m.offset_y == 0
    &&& m.offset_x == 0
    &&& m.detents_y == (Binary64 { bits: 0 })
    &&& m.detents_x == (Binary64 { bits: 0 })
    &&& m.hires_y == (Binary64 { bits: 0 })
    &&& m.hires_x == (Binary64 { bits: 0 })
    &&& m.pending_motion == (0int, 0int)
    &&& m.pending_elapsed_us == 0
    &&& !m.toggle_locked
    &&& m.since_click_us == before.since_click_us
}

/// In hold mode the release of a pending press is a click, however long the
/// button was held and wherever the pointer is. The motion that was held back
/// comes just before it where it is to be given back and is not nothing.
pub proof fn law_hold_mode_release_clicks(m: EngineModel, config: CoreConfig)
    requires
        m.state == EngineState::MiddlePending,
        config.mode == Mode::HoldProgressive,
        -0x8000_0000 <= m.pending_motion.0 <= 0x7fff_ffff,
        -0x8000_0000 <= m.pending_motion.1 <= 0x7fff_ffff,
    ensures
        ({
            let released = m.step(config, CoreInputEvent::MiddleUp);
            let gives_back = config.replay_pending_motion_on_click && (m.pending_motion.0 != 0
                || m.pending_motion.1 != 0);
            &&& gesture_is_over(released.engine, m)
            &&& released.task == WheelTask::Done
            &&& gives_back ==> {
                &&& released.actions.len() == 2
                &&& released.actions[0] matches CoreAction::ForwardMotion { dx, dy } && dx
                    == m.pending_motion.0 && dy == m.pending_motion.1
                &&& released.actions[1] == CoreAction::EmitMiddleClick
            }
            &&& !gives_back ==> released.actions == seq![CoreAction::EmitMiddleClick]
        }),
{
}

/// In toggle mode with a hold threshold, the release of a pending press with no
/// click deferred defers one, however long the button was held and wherever the
/// pointer is: nothing is emitted, and the window for a second click begins.
pub proof fn law_first_release_defers_a_click(m: EngineModel, config: CoreConfig)
    requires
        m.state == EngineState::MiddlePending,
        m.since_click_us is None,
        config.mode == Mode::Toggle,
        config.hold_threshold_ms > 0,
    ensures
        ({
            let released = m.step(config, CoreInputEvent::MiddleUp);
            &&& released.actions == Seq::<CoreAction>::empty()
            &&& released.task == WheelTask::Done
            &&& released.engine.state == EngineState::Idle
            &&& released.engine.since_click_us == Some(0int)
            &&& released.engine.pending_motion == (0int, 0int)
            &&& released.engine.toggle_locked == m.toggle_locked
        }),
{
}

/// In toggle mode the release of a pending press locks scroll mode where a click
/// was deferred, and also where no hold threshold is set, however long the
/// button was held and wherever the pointer is. The distance from the press
/// point is kept.
pub proof fn law_second_release_locks(m: EngineModel, config: CoreConfig)
    requires
        m.state == EngineState::MiddlePending,
        config.mode == Mode::Toggle,
        m.since_click_us is Some || config.hold_threshold_ms == 0,
    ensures
        ({
            let released = m.step(config, CoreInputEvent::MiddleUp);
            &&& released.actions == seq![CoreAction::EnterScrollMode]
            &&& released.task == WheelTask::Done
            &&& released.engine.state == EngineState::Scrolling
            &&& released.engine.toggle_locked
            &&& released.engine.pending_motion == (0int, 0int)
            &&& released.engine.offset_y == m.offset_y
            &&& released.engine.offset_x == m.offset_x
            &&& config.hold_threshold_ms > 0 ==> released.engine.since_click_us is None
        }),
{
}

/// Time passes while a press is pending. In toggle mode with a hold threshold,
/// scroll mode is locked as soon as the button has been held that long; before,
/// and in every other case, nothing happens but that the time is counted.
pub proof fn law_holding_is_timed(m: EngineModel, config: CoreConfig, dt_micros: u64)
    requires
        m.state == EngineState::MiddlePending,
        m.pending_elapsed_us + dt_micros <= u64::MAX,
    ensures
        ({
            let after = m.step(config, CoreInputEvent::Tick { dt_micros });
            let long_enough = config.mode == Mode::Toggle && config.hold_threshold_ms > 0
                && m.pending_elapsed_us + dt_micros >= config.hold_threshold_ms * 1000;
            &&& after.task == WheelTask::Done
            &&& after.engine.pending_elapsed_us == m.pending_elapsed_us + dt_micros
            &&& after.engine.offset_y == m.offset_y
            &&& after.engine.offset_x == m.offset_x
            &&& long_enough ==> {
                &&& after.actions == seq![CoreAction::EnterScrollMode]
                &&& after.engine.state == EngineState::Scrolling
                &&& after.engine.toggle_locked
                &&& after.engine.since_click_us is None
                &&& after.engine.pending_motion == (0int, 0int)
            }
            &&& !long_enough ==> {
                &&& after.actions == Seq::<CoreAction>::empty()
                &&& after.engine == EngineModel {
                    pending_elapsed_us: m.pending_elapsed_us + dt_micros,
                    ..m
                }
            }
        }),
{
}

/// Time passes at rest. A click that was deferred is emitted, once, with the
/// tick that takes its age beyond the hold threshold; before, its age is
/// counted; and without such a click nothing happens at all.
pub proof fn law_deferred_click_is_timed(m: EngineModel, config: CoreConfig, dt_micros: u64)
    requires
        m.state == EngineState::Idle,
    ensures
        ({
            let after = m.step(config, CoreInputEvent::Tick { dt_micros });
            &&& after.task == WheelTask::Done
            &&& m.since_click_us is None ==> {
                &&& after.actions == Seq::<CoreAction>::empty()
                &&& after.engine == m
            }
            &&& m.since_click_us matches Some(age) ==> {
                &&& age + dt_micros > config.hold_threshold_ms * 1000 ==> {
                    &&& after.actions == seq![CoreAction::EmitMiddleClick]
                    &&& after.engine == EngineModel { since_click_us: None, ..m }
                }
                &&& age + dt_micros <= config.hold_threshold_ms * 1000 ==> {
                    &&& after.actions == Seq::<CoreAction>::empty()
                    &&& after.engine == EngineModel { since_click_us: Some(age + dt_micros), ..m }
                }
            }
        }),
{
}

/// The engine after some ticks, one after another.
pub open spec fn after_ticks(m: EngineModel, config: CoreConfig, ticks: Seq<u64>) -> EngineModel
    decreases ticks.len(),
{
    if ticks.len() == 0 {
        m
    } else {
        after_ticks(m, config, ticks.drop_last()).step(
            config,
            CoreInputEvent::Tick { dt_micros: ticks.last() },
        ).engine
    }
}

/// The time that some ticks take.
pub open spec fn duration(ticks: Seq<u64>) -> int
    decreases ticks.len(),
{
    if ticks.len() == 0 {
        0
    } else {
        duration(ticks.drop_last()) + ticks.last()
    }
}

proof fn lemma_duration_counts_up(ticks: Seq<u64>)
    ensures
        0 <= duration(ticks),
    decreases ticks.len(),
{
    if ticks.len() > 0 {
        lemma_duration_counts_up(ticks.drop_last());
    }
}

/// In toggle mode a press that is released before the hold threshold defers a
/// click, whatever the ticks in between.
pub proof fn law_short_press_defers_a_click(m: EngineModel, config: CoreConfig, held: Seq<u64>)
    requires
        m.state == EngineState::Idle,
        m.since_click_us is None,
        config.mode == Mode::Toggle,
        config.hold_threshold_ms * 1000 <= u64::MAX,
        duration(held) < config.hold_threshold_ms * 1000,
    ensures
        ({
            let pressed = m.step(config, CoreInputEvent::MiddleDown).engine;
            let waited = after_ticks(pressed, config, held);
            let released = waited.step(config, CoreInputEvent::MiddleUp);
            &&& waited.state == EngineState::MiddlePending
            &&& released.actions == Seq::<CoreAction>::empty()
            &&& released.engine.state == EngineState::Idle
            &&& released.engine.since_click_us == Some(0int)
        }),
{
    let pressed = m.step(config, CoreInputEvent::MiddleDown).engine;
    lemma_duration_counts_up(held);
    lemma_waiting_while_pending(pressed, config, held);
}

/// A press is still pending after ticks that come to less than the hold
/// threshold.
proof fn lemma_waiting_while_pending(m: EngineModel, config: CoreConfig, held: Seq<u64>)
    requires
        m.state == EngineState::MiddlePending,
        m.pending_elapsed_us == 0,
        config.hold_threshold_ms * 1000 <= u64::MAX,
        duration(held) < config.hold_threshold_ms * 1000,
    ensures
        after_ticks(m, config, held) == (EngineModel { pending_elapsed_us: duration(held), ..m }),
    decreases held.len(),
{
    if held.len() > 0 {
        lemma_waiting_while_pending(m, config, held.drop_last());
    }
}

/// In toggle mode a press that is held through the hold threshold locks scroll
/// mode with the very tick that completes it.
pub proof fn law_long_press_locks(
    m: EngineModel,
    config: CoreConfig,
    held: Seq<u64>,
    dt_micros: u64,
)
    requires
        m.state == EngineState::Idle,
        config.mode == Mode::Toggle,
        0 < config.hold_threshold_ms,
        config.hold_threshold_ms * 1000 <= u64::MAX,
        duration(held) < config.hold_threshold_ms * 1000 <= duration(held) + dt_micros,
    ensures
        ({
            let pressed = m.step(config, CoreInputEvent::MiddleDown).engine;
            let locked = after_ticks(pressed, config, held).step(
                config,
                CoreInputEvent::Tick { dt_micros },
            );
            &&& locked.actions == seq![CoreAction::EnterScrollMode]
            &&& locked.engine.state == EngineState::Scrolling
            &&& locked.engine.toggle_locked
        }),
{
    let pressed = m.step(config, CoreInputEvent::MiddleDown).engine;
    lemma_waiting_while_pending(pressed, config, held);
}

/// A deferred click is emitted with the tick that completes the window and not
/// before, however the time is cut into ticks.
pub proof fn law_click_comes_after_the_window(
    m: EngineModel,
    config: CoreConfig,
    waited: Seq<u64>,
    dt_micros: u64,
)
    requires
        m.state == EngineState::Idle,
        m.since_click_us == Some(0int),
        duration(waited) <= config.hold_threshold_ms * 1000,
    ensures
        ({
            let due = after_ticks(m, config, waited).step(
                config,
                CoreInputEvent::Tick { dt_micros },
            );
            &&& after_ticks(m, config, waited).since_click_us == Some(duration(waited))
            &&& due.actions.len() > 0 <==> duration(waited) + dt_micros > config.hold_threshold_ms
                * 1000
            &&& due.actions.len() > 0 ==> due.actions == seq![CoreAction::EmitMiddleClick]
                && due.engine.since_click_us is None
        }),
{
    lemma_waiting_for_second_click(m, config, waited);
}

proof fn lemma_waiting_for_second_click(m: EngineModel, config: CoreConfig, waited: Seq<u64>)
    requires
        m.state == EngineState::Idle,
        m.since_click_us == Some(0int),
        duration(waited) <= config.hold_threshold_ms * 1000,
    ensures
        after_ticks(m, config, waited) == (EngineModel {
            since_click_us: Some(duration(waited)),
            ..m
        }),
    decreases waited.len(),
{
    if waited.len() > 0 {
        lemma_waiting_for_second_click(m, config, waited.drop_last());
    }
}

/// Two clicks in toggle mode, the second pressed within the window and released
/// before the hold threshold, lock scroll mode and emit no click, whatever the
/// ticks on the way.
pub proof fn law_two_clicks_lock(
    m: EngineModel,
    config: CoreConfig,
    held: Seq<u64>,
    waited: Seq<u64>,
    held_again: Seq<u64>,
)
    requires
        m.state == EngineState::Idle,
        m.since_click_us is None,
        config.mode == Mode::Toggle,
        config.hold_threshold_ms * 1000 <= u64::MAX,
        duration(held) < config.hold_threshold_ms * 1000,
        duration(waited) <= config.hold_threshold_ms * 1000,
        duration(held_again) < config.hold_threshold_ms * 1000,
    ensures
        ({
            let pressed = m.step(config, CoreInputEvent::MiddleDown).engine;
            let released = after_ticks(pressed, config, held).step(
                config,
                CoreInputEvent::MiddleUp,
            ).engine;
            let pressed_again = after_ticks(released, config, waited).step(
                config,
                CoreInputEvent::MiddleDown,
            ).engine;
            let locked = after_ticks(pressed_again, config, held_again).step(
                config,
                CoreInputEvent::MiddleUp,
            );
            &&& locked.actions == seq![CoreAction::EnterScrollMode]
            &&& locked.engine.state == EngineState::Scrolling
            &&& locked.engine.toggle_locked
            &&& locked.engine.since_click_us is None
        }),
{
    let pressed = m.step(config, CoreInputEvent::MiddleDown).engine;
    lemma_duration_counts_up(held);
    lemma_waiting_while_pending(pressed, config, held);
    let released = after_ticks(pressed, config, held).step(config, CoreInputEvent::MiddleUp).engine;
    lemma_waiting_for_second_click(released, config, waited);
    let pressed_again = after_ticks(released, config, waited).step(
        config,
        CoreInputEvent::MiddleDown,
    ).engine;
    lemma_waiting_while_pending(pressed_again, config, held_again);
}

/// Whether an event came and went: the engine did not notice it, and `actions`
/// hold it as it came.
pub open spec fn passed_on(event: CoreInputEvent, actions: Seq<CoreAction>) -> bool {
    actions.len() == 1 && actions[0] == match event {
        CoreInputEvent::MiddleDown => CoreAction::ForwardMouseButton {
            button: MouseButton::Middle,
            pressed: true,
        },
        CoreInputEvent::MiddleUp => CoreAction::ForwardMouseButton {
            button: MouseButton::Middle,
            pressed: false,
        },
        CoreInputEvent::LeftDown => CoreAction::ForwardMouseButton {
            button: MouseButton::Left,
            pressed: true,
        },
        CoreInputEvent::LeftUp => CoreAction::ForwardMouseButton {
            button: MouseButton::Left,
            pressed: false,
        },
        CoreInputEvent::RightDown => CoreAction::ForwardMouseButton {
            button: MouseButton::Right,
            pressed: true,
        },
        CoreInputEvent::RightUp => CoreAction::ForwardMouseButton {
            button: MouseButton::Right,
            pressed: false,
        },
        CoreInputEvent::Motion { dx, dy } => CoreAction::ForwardMotion { dx, dy },
        CoreInputEvent::Wheel { vertical, horizontal } => CoreAction::ForwardWheel {
            vertical,
            horizontal,
        },
        CoreInputEvent::WheelHiRes { vertical_units, horizontal_units } =>
            CoreAction::EmitWheelHiRes { vertical_units, horizontal_units },
        CoreInputEvent::Tick { .. } => CoreAction::Suppress,
    }
}

/// What is not for the engine passes it by, each event under its own name and
/// with its own numbers: everything but the press of the middle button and the
/// passing of time at rest; the other buttons and the wheel while a press is
/// pending; the wheel, and the other buttons unless it is locked, in scroll
/// mode.
pub proof fn law_the_rest_is_passed_on(m: EngineModel, config: CoreConfig, event: CoreInputEvent)
    requires
        !(event is Tick),
        match m.state {
            EngineState::Idle => event != CoreInputEvent::MiddleDown,
            EngineState::MiddlePending => !(event is MiddleDown || event is MiddleUp
                || event is Motion),
            EngineState::Scrolling => event is Wheel || event is WheelHiRes || !m.toggle_locked && (
            event is LeftDown || event is LeftUp || event is RightDown || event is RightUp),
        },
    ensures
        m.step(config, event).engine == m,
        m.step(config, event).task == WheelTask::Done,
        passed_on(event, m.step(config, event).actions),
{
}

/// Scroll mode that is not locked ends with the release of the middle button and
/// with nothing else; locked, with the press of any of the three buttons and
/// with nothing else. The event that ends it is swallowed, and so are the other
/// events of the middle button, and in locked mode the releases.
pub proof fn law_scroll_mode_ends(m: EngineModel, config: CoreConfig, event: CoreInputEvent)
    requires
        m.state == EngineState::Scrolling,
    ensures
        ({
            let after = m.step(config, event);
            let ends = if m.toggle_locked {
                event is MiddleDown || event is LeftDown || event is RightDown
            } else {
                event is MiddleUp
            };
            let swallowed = event is MiddleDown || event is MiddleUp || m.toggle_locked && (
            event is LeftUp || event is RightUp);
            &&& ends ==> {
                &&& after.actions == seq![CoreAction::ExitScrollMode]
                &&& after.task == WheelTask::Done
                &&& gesture_is_over(after.engine, m)
            }
            &&& !ends ==> after.engine.state == EngineState::Scrolling && after.engine.toggle_locked
                == m.toggle_locked
            &&& !ends && swallowed ==> {
                &&& after.actions == Seq::<CoreAction>::empty()
                &&& after.task == WheelTask::Done
                &&& after.engine == m
            }
        }),
{
}

/// In scroll mode a movement is held back or passed on as configured, and
/// changes nothing but the distance from the press point.
pub proof fn law_motion_in_scroll_mode(m: EngineModel, config: CoreConfig, dx: i32, dy: i32)
    requires
        m.state == EngineState::Scrolling,
    ensures
        ({
            let after = m.step(config, CoreInputEvent::Motion { dx, dy });
            &&& config.suppress_motion_while_scrolling ==> after.actions == seq![
                CoreAction::Suppress,
            ]
            &&& !config.suppress_motion_while_scrolling ==> after.actions == seq![
                CoreAction::ForwardMotion { dx, dy },
            ]
            &&& after.engine == EngineModel {
                offset_y: after.engine.offset_y,
                offset_x: after.engine.offset_x,
                ..m
            }
        }),
{
}

/// The press of a button that is already down is swallowed.
pub proof fn law_repeated_press_is_swallowed(m: EngineModel, config: CoreConfig)
    requires
        m.state == EngineState::MiddlePending,
    ensures
        m.step(config, CoreInputEvent::MiddleDown).actions == Seq::<CoreAction>::empty(),
        m.step(config, CoreInputEvent::MiddleDown).engine == m,
{
}

/// In hold mode a press and a release with movements in between whose sums never
/// leave the deadzone make a click, and give the movements back as one just
/// before it, where that is configured: the sum of all, each way, and none where
/// the sum is nothing.
pub proof fn law_hold_mode_gives_back_the_sum(
    m: EngineModel,
    config: CoreConfig,
    movements: Seq<(i32, i32)>,
)
    requires
        m.state == EngineState::Idle,
        config.mode == Mode::HoldProgressive,
        config.replay_pending_motion_on_click,
        config.suppress_motion_while_pending,
        0 <= config.deadzone_units <= config.max_offset_units,
        forall|k: int|
            0 <= k <= movements.len() ==> !#[trigger] beyond_deadzone(config, movements, k),
        forall|k: int|
            0 <= k <= movements.len() ==> -0x8000_0000 <= #[trigger] total_x(movements.take(k))
                <= 0x7fff_ffff,
    ensures
        ({
            let pressed = m.step(config, CoreInputEvent::MiddleDown).engine;
            let released = laws::after_movements(pressed, config, movements).step(
                config,
                CoreInputEvent::MiddleUp,
            );
            let nothing = total_x(movements) == 0 && total_y(movements) == 0;
            &&& released.engine.state == EngineState::Idle
            &&& nothing ==> released.actions == seq![CoreAction::EmitMiddleClick]
            &&& !nothing ==> {
                &&& released.actions.len() == 2
                &&& released.actions[0] matches CoreAction::ForwardMotion { dx, dy } && dx
                    == total_x(movements) && dy == total_y(movements)
                &&& released.actions[1] == CoreAction::EmitMiddleClick
            }
        }),
{
    let pressed = m.step(config, CoreInputEvent::MiddleDown).engine;
    lemma_held_back_sum(pressed, config, movements);
    assert(movements.take(movements.len() as int) =~= movements);
    assert(!beyond_deadzone(config, movements, movements.len() as int));
    assert(-0x8000_0000 <= total_x(movements.take(movements.len() as int)) <= 0x7fff_ffff);
}

proof fn lemma_held_back_sum(
    pressed: EngineModel,
    config: CoreConfig,
    movements: Seq<(i32, i32)>,
)
    requires
        pressed.state == EngineState::MiddlePending,
        pressed.offset_y == 0,
        pressed.offset_x == 0,
        pressed.pending_motion == (0int, 0int),
        config.replay_pending_motion_on_click,
        config.suppress_motion_while_pending,
        0 <= config.deadzone_units <= config.max_offset_units,
        forall|k: int|
            0 <= k <= movements.len() ==> !#[trigger] beyond_deadzone(config, movements, k),
        forall|k: int|
            0 <= k <= movements.len() ==> -0x8000_0000 <= #[trigger] total_x(movements.take(k))
                <= 0x7fff_ffff,
    ensures
        ({
            let moved = laws::after_movements(pressed, config, movements);
            &&& moved.state == EngineState::MiddlePending
            &&& moved.offset_y == total_y(movements)
            &&& config.horizontal_scroll ==> moved.offset_x == total_x(movements)
            &&& moved.pending_motion == (total_x(movements), total_y(movements))
        }),
    decreases movements.len(),
{
    if movements.len() > 0 {
        let n = movements.len() as int;
        let before = movements.drop_last();
        assert forall|k: int| 0 <= k <= before.len() implies !#[trigger] beyond_deadzone(
            config,
            before,
            k,
        ) by {
            assert(before.take(k) =~= movements.take(k));
            assert(!beyond_deadzone(config, movements, k));
        }
        assert forall|k: int| 0 <= k <= before.len() implies -0x8000_0000 <= #[trigger] total_x(
            before.take(k),
        ) <= 0x7fff_ffff by {
            assert(before.take(k) =~= movements.take(k));
        }
        lemma_held_back_sum(pressed, config, before);
        assert(movements.take(n) =~= movements);
        assert(!beyond_deadzone(config, movements, n));
        assert(-0x8000_0000 <= total_x(movements.take(n)) <= 0x7fff_ffff);
        let earlier = laws::after_movements(pressed, config, before);
        let (dx, dy) = movements.last();
        law_motion_adds_up(earlier, config, dx, dy);
        law_leaving_the_deadzone(earlier, config, dx, dy);
        law_held_back_motion_is_a_sum(earlier, config, dx, dy);
    }
}

} // verus!
