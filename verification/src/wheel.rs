//! What a tick in scroll mode does to the wheel, told in plain numbers.

use vstd::prelude::*;

use crate::binary64::Binary64;
use crate::config::CoreConfig;
use crate::engine::{Axis, EngineModel, Outcome, WheelTask};
use crate::laws;
use crate::model::{CoreAction, CoreInputEvent, EngineState};

verus! {

/// The distance from the press point along an axis, whichever way.
pub open spec fn distance(m: EngineModel, axis: Axis) -> int {
    match axis {
        Axis::Vertical => if m.offset_y >= 0 { m.offset_y } else { -m.offset_y },
        Axis::Horizontal => if m.offset_x >= 0 { m.offset_x } else { -m.offset_x },
    }
}

/// Whether a tick that starts now works on `axis` first: the pointer has left
/// the deadzone along it, and before the horizontal axis comes the vertical one.
pub open spec fn comes_first(m: EngineModel, config: CoreConfig, axis: Axis) -> bool {
    match axis {
        Axis::Vertical => distance(m, Axis::Vertical) > config.deadzone_units,
        Axis::Horizontal => {
            &&& config.horizontal_scroll
            &&& distance(m, Axis::Vertical) <= config.deadzone_units
            &&& distance(m, Axis::Horizontal) > config.deadzone_units
        },
    }
}

/// A tick in scroll mode changes nothing by itself and emits nothing. Where the
/// pointer is within the deadzone, vertically and, with horizontal scrolling,
/// to the sides, it wants no computation either.
pub proof fn law_tick_rests_within_the_deadzone(m: EngineModel, config: CoreConfig, dt_micros: u64)
    requires
        m.state == EngineState::Scrolling,
        0 <= config.deadzone_units,
    ensures
        ({
            let after = m.step(config, CoreInputEvent::Tick { dt_micros });
            &&& after.engine == m
            &&& after.actions == Seq::<CoreAction>::empty()
            &&& distance(m, Axis::Vertical) <= config.deadzone_units && (!config.horizontal_scroll
                || distance(m, Axis::Horizontal) <= config.deadzone_units) ==> after.task
                == WheelTask::Done
        }),
{
}

/// Where no speed step is reached, a tick asks for the speed on the progressive
/// curve: with the distance beyond the deadzone, the distance of full speed, and
/// the least speed, the greatest speed and the exponent of the configuration.
pub proof fn law_tick_asks_the_curve(
    m: EngineModel,
    config: CoreConfig,
    axis: Axis,
    dt_micros: u64,
)
    requires
        m.state == EngineState::Scrolling,
        0 <= config.deadzone_units,
        distance(m, Axis::Vertical) <= i32::MAX,
        distance(m, Axis::Horizontal) <= i32::MAX,
        comes_first(m, config, axis),
        forall|i: int|
            0 <= i < config.scroll_speed_steps@.len() ==> distance(m, axis)
                < #[trigger] config.scroll_speed_steps@[i].distance_units,
    ensures
        ({
            let task = m.step(config, CoreInputEvent::Tick { dt_micros }).task;
            task matches WheelTask::Curve {
                axis: on,
                dt_micros: time,
                active_units,
                full_speed_units,
                min_speed,
                max_speed,
                exponent,
            } && {
                &&& on == axis
                &&& time == dt_micros
                &&& active_units == distance(m, axis) - config.deadzone_units
                &&& full_speed_units == config.full_speed_units
                &&& min_speed == config.min_speed_detents_per_second
                &&& max_speed == config.max_speed_detents_per_second
                &&& exponent == config.acceleration_exponent
            }
        }),
{
    laws::lemma_none_reached(config.scroll_speed_steps@, distance(m, axis));
}

/// Of the speed steps that are reached, the last one sets the speed, and the
/// tick asks how far that goes.
pub proof fn law_tick_takes_the_last_step(
    m: EngineModel,
    config: CoreConfig,
    axis: Axis,
    dt_micros: u64,
    i: int,
)
    requires
        m.state == EngineState::Scrolling,
        0 <= config.deadzone_units,
        comes_first(m, config, axis),
        0 <= i < config.scroll_speed_steps@.len(),
        config.scroll_speed_steps@[i].distance_units <= distance(m, axis),
        config.scroll_speed_steps@[i].speed_detents_per_second.units() != 0,
        forall|j: int|
            i < j < config.scroll_speed_steps@.len() ==> distance(m, axis)
                < #[trigger] config.scroll_speed_steps@[j].distance_units,
    ensures
        ({
            let task = m.step(config, CoreInputEvent::Tick { dt_micros }).task;
            task matches WheelTask::Delta { axis: on, dt_micros: time, direction, speed } && {
                &&& on == axis
                &&& time == dt_micros
                &&& speed == config.scroll_speed_steps@[i].speed_detents_per_second
                &&& turns(m, config, axis, direction as int)
            }
        }),
{
    laws::lemma_last_reached(config.scroll_speed_steps@, i, distance(m, axis));
}

/// Whether the wheel turns as the pointer says: 1 is up or to the right, -1 is
/// down or to the left. A pointer below the press point scrolls down, one to
/// the right of it to the right, and an inverted axis is turned around.
pub open spec fn turns(m: EngineModel, config: CoreConfig, axis: Axis, direction: int) -> bool {
    match axis {
        Axis::Vertical => {
            &&& m.offset_y > config.deadzone_units && !config.invert_vertical ==> direction == -1
            &&& m.offset_y > config.deadzone_units && config.invert_vertical ==> direction == 1
            &&& m.offset_y < -config.deadzone_units && !config.invert_vertical ==> direction == 1
            &&& m.offset_y < -config.deadzone_units && config.invert_vertical ==> direction == -1
        },
        Axis::Horizontal => {
            &&& m.offset_x > config.deadzone_units && !config.invert_horizontal ==> direction == 1
            &&& m.offset_x > config.deadzone_units && config.invert_horizontal ==> direction == -1
            &&& m.offset_x < -config.deadzone_units && !config.invert_horizontal ==> direction == -1
            &&& m.offset_x < -config.deadzone_units && config.invert_horizontal ==> direction == 1
        },
    }
}

/// Whether a tick that is done with `axis` goes on as it should: after the
/// vertical axis just as a tick would start with the pointer displaced to the
/// side only, and after the horizontal axis not at all.
pub open spec fn moves_on(config: CoreConfig, axis: Axis, dt_micros: u64, after: Outcome) -> bool {
    after.task == match axis {
        Axis::Vertical => (EngineModel {
            state: EngineState::Scrolling,
            offset_y: 0,
            ..after.engine
        }).step(config, CoreInputEvent::Tick { dt_micros }).task,
        Axis::Horizontal => WheelTask::Done,
    }
}

/// The speed that the curve gives is turned into a movement at that speed; a
/// speed of zero ends the work on the axis.
pub proof fn law_curve_gives_the_speed(
    m: EngineModel,
    config: CoreConfig,
    task: WheelTask,
    value: Binary64,
)
    requires
        task is Curve,
        0 <= config.deadzone_units,
    ensures
        ({
            let after = m.resume(config, task, value);
            let axis = task->Curve_axis;
            let dt_micros = task->Curve_dt_micros;
            &&& after.engine == m
            &&& after.actions == Seq::<CoreAction>::empty()
            &&& value.units() == 0 ==> moves_on(config, axis, dt_micros, after)
            &&& value.units() != 0 ==> {
                after.task matches WheelTask::Delta { axis: on, dt_micros: time, direction, speed }
                    && on == axis && time == dt_micros && speed == value && turns(
                    m,
                    config,
                    axis,
                    direction as int,
                )
            }
        }),
{
}

/// A movement is added to what waits along its axis: to the detents, where the
/// detent wheel is on, else to the high-resolution units, where that wheel is.
/// One that is not a finite number empties both accumulators of the axis.
pub proof fn law_movement_is_accumulated(
    m: EngineModel,
    config: CoreConfig,
    task: WheelTask,
    value: Binary64,
)
    requires
        task is Delta,
        0 <= config.deadzone_units,
    ensures
        ({
            let after = m.resume(config, task, value);
            let axis = task->Delta_axis;
            let dt_micros = task->Delta_dt_micros;
            let zero = Binary64 { bits: 0 };
            &&& after.actions == Seq::<CoreAction>::empty()
            &&& !value.spec_is_finite() ==> {
                &&& moves_on(config, axis, dt_micros, after)
                &&& after.engine == match axis {
                    Axis::Vertical => EngineModel { detents_y: zero, hires_y: zero, ..m },
                    Axis::Horizontal => EngineModel { detents_x: zero, hires_x: zero, ..m },
                }
            }
            &&& value.spec_is_finite() ==> {
                &&& after.engine == m
                &&& config.emit_legacy_wheel ==> after.task == WheelTask::AddDetents {
                    axis,
                    dt_micros,
                    accumulator: if axis == Axis::Vertical { m.detents_y } else { m.detents_x },
                    delta: value,
                }
                &&& !config.emit_legacy_wheel && config.emit_hires_wheel ==> after.task
                    == WheelTask::AddHiRes {
                    axis,
                    dt_micros,
                    accumulator: if axis == Axis::Vertical { m.hires_y } else { m.hires_x },
                    delta: value,
                }
                &&& !config.emit_legacy_wheel && !config.emit_hires_wheel ==> moves_on(
                    config,
                    axis,
                    dt_micros,
                    after,
                )
            }
        }),
{
}

/// Whether a tick that has settled the detents of an axis goes on as it should:
/// to the high-resolution units of the axis where that wheel is on.
pub open spec fn turns_to_hires(
    config: CoreConfig,
    axis: Axis,
    dt_micros: u64,
    delta: Binary64,
    after: Outcome,
) -> bool {
    &&& config.emit_hires_wheel ==> after.task == (WheelTask::AddHiRes {
        axis,
        dt_micros,
        accumulator: if axis == Axis::Vertical {
            after.engine.hires_y
        } else {
            after.engine.hires_x
        },
        delta,
    })
    &&& !config.emit_hires_wheel ==> moves_on(config, axis, dt_micros, after)
}

/// Of the detents that wait along an axis, all whole ones are emitted at once,
/// along that axis and no other, and asked to be taken out; more than the cap
/// come to the cap and leave nothing waiting; less than one stays waiting.
pub proof fn law_whole_detents_are_emitted(
    m: EngineModel,
    config: CoreConfig,
    task: WheelTask,
    value: Binary64,
)
    requires
        task is AddDetents || task is TakeDetents,
        0 <= config.deadzone_units,
        0 <= config.max_detents_per_tick,
    ensures
        ({
            let after = m.resume(config, task, value);
            let (axis, dt_micros, delta) = match task {
                WheelTask::AddDetents { axis, dt_micros, delta, .. } => (axis, dt_micros, delta),
                _ => (
                    task->TakeDetents_axis,
                    task->TakeDetents_dt_micros,
                    task->TakeDetents_delta,
                ),
            };
            let whole = value.spec_whole();
            let cap = config.max_detents_per_tick;
            let zero = Binary64 { bits: 0 };
            &&& -cap <= whole <= cap ==> after.engine == match axis {
                Axis::Vertical => EngineModel { detents_y: value, ..m },
                Axis::Horizontal => EngineModel { detents_x: value, ..m },
            }
            &&& whole > cap || whole < -cap ==> {
                &&& turns_to_hires(config, axis, dt_micros, delta, after)
                &&& after.engine == match axis {
                    Axis::Vertical => EngineModel { detents_y: zero, ..m },
                    Axis::Horizontal => EngineModel { detents_x: zero, ..m },
                }
            }
            &&& whole == 0 ==> {
                &&& after.actions == Seq::<CoreAction>::empty()
                &&& turns_to_hires(config, axis, dt_micros, delta, after)
            }
            &&& whole != 0 ==> {
                &&& after.actions.len() == 1
                &&& after.actions[0] matches CoreAction::EmitWheelDetents {
                    vertical,
                    horizontal,
                } && {
                    let (along, across) = if axis == Axis::Vertical {
                        (vertical, horizontal)
                    } else {
                        (horizontal, vertical)
                    };
                    &&& across == 0
                    &&& -cap <= whole <= cap ==> along == whole
                    &&& whole > cap ==> along == cap
                    &&& whole < -cap ==> along == -cap
                }
            }
            &&& whole != 0 && -cap <= whole <= cap ==> {
                after.task matches WheelTask::TakeDetents {
                    axis: on,
                    dt_micros: time,
                    accumulator,
                    count,
                    delta: kept,
                } && on == axis && time == dt_micros && accumulator == value && count == whole
                    && kept == delta
            }
        }),
{
}

/// Of the high-resolution units that wait along an axis, all whole ones are
/// emitted at once, along that axis and no other, and asked to be taken out,
/// once they are as many as are worth an event; more than the cap, which is the
/// cap on detents at 120 units each, come to the cap and leave nothing waiting;
/// fewer than are worth an event stay waiting. A negative setting for what is
/// worth an event reads as its unsigned bit pattern.
pub proof fn law_whole_units_are_emitted(
    m: EngineModel,
    config: CoreConfig,
    task: WheelTask,
    value: Binary64,
)
    requires
        task is AddHiRes,
        0 <= config.deadzone_units,
        0 <= config.max_detents_per_tick,
    ensures
        ({
            let after = m.resume(config, task, value);
            let axis = task->AddHiRes_axis;
            let dt_micros = task->AddHiRes_dt_micros;
            let whole = value.spec_whole();
            let cap = if config.max_detents_per_tick * 120 <= i32::MAX {
                config.max_detents_per_tick * 120
            } else {
                i32::MAX as int
            };
            let least = if config.min_hires_units_per_event >= 0 {
                config.min_hires_units_per_event as int
            } else {
                0x1_0000_0000 + config.min_hires_units_per_event
            };
            let due = whole >= least || whole <= -least;
            let capped = whole > cap || whole < -cap;
            let zero = Binary64 { bits: 0 };
            &&& !due || !capped ==> after.engine == match axis {
                Axis::Vertical => EngineModel { hires_y: value, ..m },
                Axis::Horizontal => EngineModel { hires_x: value, ..m },
            }
            &&& due && capped ==> {
                &&& moves_on(config, axis, dt_micros, after)
                &&& after.engine == match axis {
                    Axis::Vertical => EngineModel { hires_y: zero, ..m },
                    Axis::Horizontal => EngineModel { hires_x: zero, ..m },
                }
            }
            &&& !due ==> {
                &&& after.actions == Seq::<CoreAction>::empty()
                &&& moves_on(config, axis, dt_micros, after)
            }
            &&& due ==> {
                &&& after.actions.len() == 1
                &&& after.actions[0] matches CoreAction::EmitWheelHiRes {
                    vertical_units,
                    horizontal_units,
                } && {
                    let (along, across) = if axis == Axis::Vertical {
                        (vertical_units, horizontal_units)
                    } else {
                        (horizontal_units, vertical_units)
                    };
                    &&& across == 0
                    &&& !capped ==> along == whole
                    &&& whole > cap ==> along == cap
                    &&& whole < -cap ==> along == -cap
                }
            }
            &&& due && !capped ==> {
                after.task matches WheelTask::TakeHiRes {
                    axis: on,
                    dt_micros: time,
                    accumulator,
                    count,
                } && on == axis && time == dt_micros && accumulator == value && count == whole
            }
        }),
{
}

/// What is left of the high-resolution units stays waiting along its axis, and
/// the work on the axis is over.
pub proof fn law_rest_of_units_waits(
    m: EngineModel,
    config: CoreConfig,
    task: WheelTask,
    value: Binary64,
)
    requires
        task is TakeHiRes,
        0 <= config.deadzone_units,
    ensures
        ({
            let after = m.resume(config, task, value);
            let axis = task->TakeHiRes_axis;
            &&& after.actions == Seq::<CoreAction>::empty()
            &&& moves_on(config, axis, task->TakeHiRes_dt_micros, after)
            &&& after.engine == match axis {
                Axis::Vertical => EngineModel { hires_y: value, ..m },
                Axis::Horizontal => EngineModel { hires_x: value, ..m },
            }
        }),
{
}

/// A tick that is over stays over, whatever is handed in.
pub proof fn law_finished_tick_is_inert(m: EngineModel, config: CoreConfig, value: Binary64)
    ensures
        ({
            let after = m.resume(config, WheelTask::Done, value);
            &&& after.engine == m
            &&& after.actions == Seq::<CoreAction>::empty()
            &&& after.task == WheelTask::Done
        }),
{
}

} // verus!
