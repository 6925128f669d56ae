//! Tunable parameters of the scroll engine and their validation.

use vstd::prelude::*;

use crate::binary64::Binary64;

verus! {

#[derive(Debug, Clone, Copy, PartialEq, Eq, Structural)]
pub enum Mode {
    Toggle,
    HoldProgressive,
}

impl Default for Mode {
    fn default() -> (r: Mode)
        ensures
            r == Mode::Toggle,
    {
        Mode::Toggle
    }
}

/// From `distance_units` on, scrolling runs at `speed_detents_per_second`.
#[derive(Debug, Clone, Copy, PartialEq, Eq, Structural)]
pub struct SpeedStep {
    pub distance_units: i32,
    pub speed_detents_per_second: Binary64,
}

#[derive(Debug, Clone, PartialEq, Eq)]
pub struct CoreConfig {
    pub mode: Mode,

    /// Time (ms) the middle button must be held before entering scroll mode.
    /// Release before this threshold = normal middle click.
    /// Only used in Toggle mode. 0 = enter on release.
    pub hold_threshold_ms: u64,

    pub deadzone_units: i32,
    pub full_speed_units: i32,
    pub max_offset_units: i32,

    pub min_speed_detents_per_second: Binary64,
    pub max_speed_detents_per_second: Binary64,
    pub acceleration_exponent: Binary64,
    pub scroll_speed_steps: Vec<SpeedStep>,

    pub tick_hz: u32,

    pub invert_vertical: bool,
    pub invert_horizontal: bool,

    pub suppress_motion_while_pending: bool,
    pub suppress_motion_while_scrolling: bool,
    pub replay_pending_motion_on_click: bool,

    pub emit_hires_wheel: bool,
    pub emit_legacy_wheel: bool,
    pub min_hires_units_per_event: i32,

    pub horizontal_scroll: bool,
    pub max_detents_per_tick: i32,
}

/// The bit patterns of the default speeds and exponent: 1.5, 32 and 1.6.
pub const DEFAULT_MIN_SPEED_BITS: u64 = 0x3FF8_0000_0000_0000;
pub const DEFAULT_MAX_SPEED_BITS: u64 = 0x4040_0000_0000_0000;
pub const DEFAULT_EXPONENT_BITS: u64 = 0x3FF9_9999_9999_999A;

#[derive(Debug, Clone, Copy, PartialEq, Eq, Structural)]
pub enum ConfigError {
    NegativeDeadzone(i32),
    NonPositiveFullSpeed(i32),
    MaxOffsetTooSmall { max: i32, deadzone: i32 },
    NonPositiveMinSpeed(Binary64),
    MaxSpeedLessThanMin { max: Binary64, min: Binary64 },
    BadExponent(Binary64),
    BadTickHz(u32),
    BadMaxDetents(i32),
    BadMinHiResUnits(i32),
    NoWheelEmitter,
    BadSpeedStepDistance { index: usize, deadzone: i32, distance: i32 },
    SpeedStepBeyondMaxOffset { index: usize, distance: i32, max: i32 },
    SpeedStepsNotSorted { index: usize, previous: i32, current: i32 },
    BadSpeedStepSpeed { index: usize, speed: Binary64 },
}

/// Whether a speed or an exponent is usable: finite and above zero.
pub open spec fn usable_rate(x: Binary64) -> bool {
    x.spec_is_finite() && x.units() > 0
}

impl CoreConfig {
    /// What is wrong with the fields other than the speed steps: the first
    /// complaint, in the order in which the fields are checked.
    pub open spec fn scalar_error(self) -> Option<ConfigError> {
        if self.deadzone_units < 0 {
            Some(ConfigError::NegativeDeadzone(self.deadzone_units))
        } else if self.full_speed_units <= 0 {
            Some(ConfigError::NonPositiveFullSpeed(self.full_speed_units))
        } else if self.max_offset_units <= self.deadzone_units {
            Some(
                ConfigError::MaxOffsetTooSmall {
                    max: self.max_offset_units,
                    deadzone: self.deadzone_units,
                },
            )
        } else if !usable_rate(self.min_speed_detents_per_second) {
            Some(ConfigError::NonPositiveMinSpeed(self.min_speed_detents_per_second))
        } else if !self.max_speed_detents_per_second.spec_is_finite()
            || self.max_speed_detents_per_second.units()
            < self.min_speed_detents_per_second.units() {
            Some(
                ConfigError::MaxSpeedLessThanMin {
                    max: self.max_speed_detents_per_second,
                    min: self.min_speed_detents_per_second,
                },
            )
        } else if !usable_rate(self.acceleration_exponent) {
            Some(ConfigError::BadExponent(self.acceleration_exponent))
        } else if self.tick_hz == 0 || self.tick_hz > 10_000 {
            Some(ConfigError::BadTickHz(self.tick_hz))
        } else if self.max_detents_per_tick < 1 {
            Some(ConfigError::BadMaxDetents(self.max_detents_per_tick))
        } else if !(1 <= self.min_hires_units_per_event <= 120) {
            Some(ConfigError::BadMinHiResUnits(self.min_hires_units_per_event))
        } else if !self.emit_hires_wheel && !self.emit_legacy_wheel {
            Some(ConfigError::NoWheelEmitter)
        } else {
            None
        }
    }

    /// What is wrong with the speed step at `i`, given the one before it.
    pub open spec fn step_error(self, i: int) -> Option<ConfigError> {
        let step = self.scroll_speed_steps@[i];
        let previous = self.scroll_speed_steps@[i - 1].distance_units;
        if step.distance_units <= self.deadzone_units {
            Some(
                ConfigError::BadSpeedStepDistance {
                    index: i as usize,
                    deadzone: self.deadzone_units,
                    distance: step.distance_units,
                },
            )
        } else if step.distance_units > self.max_offset_units {
            Some(
                ConfigError::SpeedStepBeyondMaxOffset {
                    index: i as usize,
                    distance: step.distance_units,
                    max: self.max_offset_units,
                },
            )
        } else if i > 0 && step.distance_units <= previous {
            Some(
                ConfigError::SpeedStepsNotSorted {
                    index: i as usize,
                    previous,
                    current: step.distance_units,
                },
            )
        } else if !usable_rate(step.speed_detents_per_second) {
            Some(
                ConfigError::BadSpeedStepSpeed {
                    index: i as usize,
                    speed: step.speed_detents_per_second,
                },
            )
        } else {
            None
        }
    }

    /// Every field within its bounds, and the speed steps strictly ordered
    /// between the deadzone and the largest offset.
    pub open spec fn valid(self) -> bool {
        &&& 0 <= self.deadzone_units < self.max_offset_units
        &&& 0 < self.full_speed_units
        &&& usable_rate(self.min_speed_detents_per_second)
        &&& self.max_speed_detents_per_second.spec_is_finite()
        &&& self.min_speed_detents_per_second.units() <= self.max_speed_detents_per_second.units()
        &&& usable_rate(self.acceleration_exponent)
        &&& 1 <= self.tick_hz <= 10_000
        &&& 1 <= self.max_detents_per_tick
        &&& 1 <= self.min_hires_units_per_event <= 120
        &&& self.emit_hires_wheel || self.emit_legacy_wheel
        &&& forall|i: int|
            #![trigger self.scroll_speed_steps@[i]]
            0 <= i < self.scroll_speed_steps@.len() ==> {
                &&& self.deadzone_units < self.scroll_speed_steps@[i].distance_units
                    <= self.max_offset_units
                &&& usable_rate(self.scroll_speed_steps@[i].speed_detents_per_second)
            }
        &&& forall|i: int, j: int|
            0 <= i < j < self.scroll_speed_steps@.len()
                ==> self.scroll_speed_steps@[i].distance_units
                < self.scroll_speed_steps@[j].distance_units
    }

    /// What the engine needs of its configuration to run without a fault in
    /// its integer arithmetic. A validated configuration has all of it but the
    /// bound on the hold threshold, which counts in toggle mode only.
    pub open spec fn runnable(self) -> bool {
        &&& 0 <= self.max_offset_units
        &&& i32::MIN < self.deadzone_units
        &&& self.max_offset_units - self.deadzone_units <= i32::MAX
        &&& 0 <= self.max_detents_per_tick
        &&& self.mode == Mode::Toggle ==> self.hold_threshold_ms * 1000 <= u64::MAX
    }

    /// The settings that apply where nothing is configured.
    pub open spec fn is_default(self) -> bool {
        &&& self.mode == Mode::Toggle
        &&& self.hold_threshold_ms == 155
        &&& self.deadzone_units == 10
        &&& self.full_speed_units == 120
        &&& self.max_offset_units == 240
        &&& self.min_speed_detents_per_second.bits == DEFAULT_MIN_SPEED_BITS
        &&& self.max_speed_detents_per_second.bits == DEFAULT_MAX_SPEED_BITS
        &&& self.acceleration_exponent.bits == DEFAULT_EXPONENT_BITS
        &&& self.scroll_speed_steps@ == Seq::<SpeedStep>::empty()
        &&& self.tick_hz == 120
        &&& !self.invert_vertical
        &&& !self.invert_horizontal
        &&& self.suppress_motion_while_pending
        &&& self.suppress_motion_while_scrolling
        &&& !self.replay_pending_motion_on_click
        &&& self.emit_hires_wheel
        &&& self.emit_legacy_wheel
        &&& self.min_hires_units_per_event == 15
        &&& self.horizontal_scroll
        &&& self.max_detents_per_tick == 4
    }

    /// What `validate` complains of: the first fault of the scalar fields,
    /// else that of the first faulty speed step.
    pub open spec fn complaint(self, e: ConfigError) -> bool {
        match self.scalar_error() {
            Some(first) => e == first,
            None => exists|i: int|
                #![trigger self.step_error(i)]
                0 <= i < self.scroll_speed_steps@.len() && self.step_error(i) == Some(e) && (
                forall|j: int|
                    #![trigger self.step_error(j)]
                    0 <= j < i ==> self.step_error(j) is None),
        }
    }

    /// Whether an engine can run on this configuration.
    pub fn can_run(&self) -> (r: bool)
        ensures
            r == self.runnable(),
    {
        0 <= self.max_offset_units && i32::MIN < self.deadzone_units
            && self.max_offset_units as i64 - self.deadzone_units as i64 <= i32::MAX as i64
            && 0 <= self.max_detents_per_tick && (self.mode != Mode::Toggle
            || self.hold_threshold_ms <= u64::MAX / 1000)
    }

    /// Accepts the configuration, or names the first thing wrong with it.
    pub fn validate(&self) -> (r: Result<(), ConfigError>)
        ensures
            r is Ok <==> self.valid(),
            r matches Err(e) ==> self.complaint(e),
    {
        proof {
            lemma_finite_is_number(self.min_speed_detents_per_second);
            lemma_finite_is_number(self.max_speed_detents_per_second);
            lemma_finite_is_number(self.acceleration_exponent);
        }
        if self.deadzone_units < 0 {
            return Err(ConfigError::NegativeDeadzone(self.deadzone_units));
        }
        if self.full_speed_units <= 0 {
            return Err(ConfigError::NonPositiveFullSpeed(self.full_speed_units));
        }
        if self.max_offset_units <= self.deadzone_units {
            return Err(
                ConfigError::MaxOffsetTooSmall {
                    max: self.max_offset_units,
                    deadzone: self.deadzone_units,
                },
            );
        }
        if !self.min_speed_detents_per_second.is_finite()
            || !self.min_speed_detents_per_second.is_positive() {
            return Err(ConfigError::NonPositiveMinSpeed(self.min_speed_detents_per_second));
        }
        if !self.max_speed_detents_per_second.is_finite()
            || self.max_speed_detents_per_second.less_than(self.min_speed_detents_per_second) {
            return Err(
                ConfigError::MaxSpeedLessThanMin {
                    max: self.max_speed_detents_per_second,
                    min: self.min_speed_detents_per_second,
                },
            );
        }
        if !self.acceleration_exponent.is_finite() || !self.acceleration_exponent.is_positive() {
            return Err(ConfigError::BadExponent(self.acceleration_exponent));
        }
        if self.tick_hz == 0 || self.tick_hz > 10_000 {
            return Err(ConfigError::BadTickHz(self.tick_hz));
        }
        if self.max_detents_per_tick < 1 {
            return Err(ConfigError::BadMaxDetents(self.max_detents_per_tick));
        }
        if self.min_hires_units_per_event < 1 || self.min_hires_units_per_event > 120 {
            return Err(ConfigError::BadMinHiResUnits(self.min_hires_units_per_event));
        }
        if !self.emit_hires_wheel && !self.emit_legacy_wheel {
            return Err(ConfigError::NoWheelEmitter);
        }
        let mut index: usize = 0;
        while index < self.scroll_speed_steps.len()
            invariant
                index <= self.scroll_speed_steps@.len(),
                self.scalar_error() is None,
                forall|j: int|
                    #![trigger self.step_error(j)]
                    0 <= j < index ==> self.step_error(j) is None,
                forall|i: int, j: int|
                    0 <= i < j < index ==> self.scroll_speed_steps@[i].distance_units
                        < self.scroll_speed_steps@[j].distance_units,
            decreases self.scroll_speed_steps@.len() - index,
        {
            let step: SpeedStep = self.scroll_speed_steps[index];
            proof {
                lemma_finite_is_number(step.speed_detents_per_second);
                assert(self.step_error(index as int) is Some ==> !self.valid());
            }
            if step.distance_units <= self.deadzone_units {
                return Err(
                    ConfigError::BadSpeedStepDistance {
                        index,
                        deadzone: self.deadzone_units,
                        distance: step.distance_units,
                    },
                );
            }
            if step.distance_units > self.max_offset_units {
                return Err(
                    ConfigError::SpeedStepBeyondMaxOffset {
                        index,
                        distance: step.distance_units,
                        max: self.max_offset_units,
                    },
                );
            }
            if index > 0 {
                let previous: i32 = self.scroll_speed_steps[index - 1].distance_units;
                if step.distance_units <= previous {
                    return Err(
                        ConfigError::SpeedStepsNotSorted {
                            index,
                            previous,
                            current: step.distance_units,
                        },
                    );
                }
            }
            if !step.speed_detents_per_second.is_finite()
                || !step.speed_detents_per_second.is_positive() {
                return Err(
                    ConfigError::BadSpeedStepSpeed { index, speed: step.speed_detents_per_second },
                );
            }
            index += 1;
        }
        proof {
            assert forall|i: int|
                #![trigger self.scroll_speed_steps@[i]]
                0 <= i < self.scroll_speed_steps@.len() implies {
                &&& self.deadzone_units < self.scroll_speed_steps@[i].distance_units
                    <= self.max_offset_units
                &&& usable_rate(self.scroll_speed_steps@[i].speed_detents_per_second)
            } by {
                assert(self.step_error(i) is None);
            }
        }
        Ok(())
    }
}

/// A finite number is not a NaN.
proof fn lemma_finite_is_number(x: Binary64)
    ensures
        x.spec_is_finite() ==> !x.spec_is_nan(),
{
}

/// Whether the pattern of a number is that of a finite number above zero.
pub open spec fn above_zero(x: Binary64) -> bool {
    0 < x.bits < 0x7ff0_0000_0000_0000
}

proof fn lemma_above_zero(x: Binary64)
    ensures
        usable_rate(x) <==> above_zero(x),
{
    x.lemma_abs_units_zero();
}

/// Among numbers above zero the order is that of the patterns; what is not
/// above zero is below all of them.
proof fn lemma_order_of_patterns(min: Binary64, max: Binary64)
    requires
        above_zero(min),
    ensures
        max.spec_is_finite() && min.units() <= max.units() <==> min.bits <= max.bits
            < 0x7ff0_0000_0000_0000,
{
    min.lemma_abs_units_zero();
    max.lemma_abs_units_zero();
    crate::binary64::lemma_abs_units_ordered(min, max);
    crate::binary64::lemma_abs_units_ordered(max, min);
}

/// What a configuration may hold. It is valid exactly where the deadzone is not
/// negative and less than the largest offset, the distance of full speed is
/// positive, the speeds and the exponent are finite and above zero with the
/// least speed no more than the greatest, there are 1 to 10,000 ticks in a
/// second, at least one detent in a tick and 1 to 120 units in an event, one of
/// the wheels is on, and the speed steps, each at a finite speed above zero, go
/// outward between the deadzone and the largest offset.
pub proof fn law_bounds_of_the_settings(config: CoreConfig)
    ensures
        config.valid() <==> {
            &&& config.deadzone_units >= 0
            &&& config.max_offset_units > config.deadzone_units
            &&& config.full_speed_units >= 1
            &&& above_zero(config.min_speed_detents_per_second)
            &&& config.min_speed_detents_per_second.bits <= config.max_speed_detents_per_second.bits
            &&& above_zero(config.max_speed_detents_per_second)
            &&& above_zero(config.acceleration_exponent)
            &&& config.tick_hz > 0
            &&& config.tick_hz < 10_001
            &&& config.max_detents_per_tick > 0
            &&& config.min_hires_units_per_event > 0
            &&& config.min_hires_units_per_event < 121
            &&& !(!config.emit_hires_wheel && !config.emit_legacy_wheel)
            &&& forall|i: int|
                0 <= i < config.scroll_speed_steps@.len() ==> {
                    let step = #[trigger] config.scroll_speed_steps@[i];
                    &&& step.distance_units > config.deadzone_units
                    &&& step.distance_units < config.max_offset_units + 1
                    &&& above_zero(step.speed_detents_per_second)
                }
            &&& forall|i: int, j: int|
                0 <= i < j < config.scroll_speed_steps@.len() ==> (
                #[trigger] config.scroll_speed_steps@[j]).distance_units > (
                #[trigger] config.scroll_speed_steps@[i]).distance_units
        },
{
    lemma_above_zero(config.min_speed_detents_per_second);
    lemma_above_zero(config.acceleration_exponent);
    if above_zero(config.min_speed_detents_per_second) {
        lemma_order_of_patterns(
            config.min_speed_detents_per_second,
            config.max_speed_detents_per_second,
        );
    }
    assert forall|i: int| 0 <= i < config.scroll_speed_steps@.len() implies usable_rate(
        (#[trigger] config.scroll_speed_steps@[i]).speed_detents_per_second,
    ) <==> above_zero(config.scroll_speed_steps@[i].speed_detents_per_second) by {
        lemma_above_zero(config.scroll_speed_steps@[i].speed_detents_per_second);
    }
}

/// A complaint names what is at fault, with its value, and only where
/// everything that is looked at before it is in order.
pub proof fn law_complaints_name_the_first_fault(config: CoreConfig, e: ConfigError)
    requires
        config.complaint(e),
        config.scroll_speed_steps@.len() <= usize::MAX,
    ensures
        ({
            let min = config.min_speed_detents_per_second;
            let max = config.max_speed_detents_per_second;
            let steps = config.scroll_speed_steps@;
            let deadzone = config.deadzone_units >= 0;
            let full = deadzone && config.full_speed_units > 0;
            let offset = full && config.max_offset_units > config.deadzone_units;
            let least = offset && above_zero(min);
            let greatest = least && above_zero(max) && min.bits <= max.bits;
            let exponent = greatest && above_zero(config.acceleration_exponent);
            let hz = exponent && 0 < config.tick_hz < 10_001;
            let detents = hz && config.max_detents_per_tick > 0;
            let units = detents && 0 < config.min_hires_units_per_event < 121;
            let scalars = units && (config.emit_hires_wheel || config.emit_legacy_wheel);
            match e {
                ConfigError::NegativeDeadzone(v) => !deadzone && v == config.deadzone_units,
                ConfigError::NonPositiveFullSpeed(v) => deadzone && !full && v
                    == config.full_speed_units,
                ConfigError::MaxOffsetTooSmall { max: m, deadzone: d } => full && !offset && m
                    == config.max_offset_units && d == config.deadzone_units,
                ConfigError::NonPositiveMinSpeed(v) => offset && !least && v == min,
                ConfigError::MaxSpeedLessThanMin { max: a, min: b } => least && !greatest && a
                    == max && b == min,
                ConfigError::BadExponent(v) => greatest && !exponent && v
                    == config.acceleration_exponent,
                ConfigError::BadTickHz(v) => exponent && !hz && v == config.tick_hz,
                ConfigError::BadMaxDetents(v) => hz && !detents && v == config.max_detents_per_tick,
                ConfigError::BadMinHiResUnits(v) => detents && !units && v
                    == config.min_hires_units_per_event,
                ConfigError::NoWheelEmitter => units && !scalars,
                ConfigError::BadSpeedStepDistance { index, deadzone: d, distance } => {
                    &&& scalars && steps_in_order(config, index as int)
                    &&& d == config.deadzone_units
                    &&& distance == steps[index as int].distance_units
                    &&& distance <= d
                },
                ConfigError::SpeedStepBeyondMaxOffset { index, distance, max: m } => {
                    &&& scalars && steps_in_order(config, index as int)
                    &&& m == config.max_offset_units
                    &&& distance == steps[index as int].distance_units
                    &&& distance > m
                },
                ConfigError::SpeedStepsNotSorted { index, previous, current } => {
                    &&& scalars && steps_in_order(config, index as int)
                    &&& 0 < index
                    &&& config.deadzone_units < current <= config.max_offset_units
                    &&& previous == steps[index - 1].distance_units
                    &&& current == steps[index as int].distance_units
                    &&& current <= previous
                },
                ConfigError::BadSpeedStepSpeed { index, speed } => {
                    &&& scalars && steps_in_order(config, index as int)
                    &&& config.deadzone_units < steps[index as int].distance_units
                        <= config.max_offset_units
                    &&& 0 < index ==> steps[index - 1].distance_units
                        < steps[index as int].distance_units
                    &&& speed == steps[index as int].speed_detents_per_second
                    &&& !above_zero(speed)
                },
            }
        }),
{
    lemma_above_zero(config.min_speed_detents_per_second);
    lemma_above_zero(config.acceleration_exponent);
    if above_zero(config.min_speed_detents_per_second) {
        lemma_order_of_patterns(
            config.min_speed_detents_per_second,
            config.max_speed_detents_per_second,
        );
    }
    if config.scalar_error() is None {
        let i = choose|i: int|
            #![trigger config.step_error(i)]
            0 <= i < config.scroll_speed_steps@.len() && config.step_error(i) == Some(e) && (
            forall|j: int|
                #![trigger config.step_error(j)]
                0 <= j < i ==> config.step_error(j) is None);
        lemma_above_zero(config.scroll_speed_steps@[i].speed_detents_per_second);
        assert forall|j: int| 0 <= j < i implies {
            let step = #[trigger] config.scroll_speed_steps@[j];
            &&& config.deadzone_units < step.distance_units <= config.max_offset_units
            &&& 0 < j ==> config.scroll_speed_steps@[j - 1].distance_units < step.distance_units
            &&& above_zero(step.speed_detents_per_second)
        } by {
            assert(config.step_error(j) is None);
            lemma_above_zero(config.scroll_speed_steps@[j].speed_detents_per_second);
        }
    }
}

/// Whether there is a speed step at `count` and all before it are in order.
pub open spec fn steps_in_order(config: CoreConfig, count: int) -> bool {
    &&& count < config.scroll_speed_steps@.len()
    &&& forall|j: int|
        0 <= j < count ==> {
            let step = #[trigger] config.scroll_speed_steps@[j];
            &&& config.deadzone_units < step.distance_units <= config.max_offset_units
            &&& 0 < j ==> config.scroll_speed_steps@[j - 1].distance_units < step.distance_units
            &&& above_zero(step.speed_detents_per_second)
        }
}

/// Where nothing is configured, the settings are these.
pub proof fn law_defaults_of_the_settings(config: CoreConfig)
    requires
        config.is_default(),
    ensures
        config.mode == Mode::Toggle && config.hold_threshold_ms == 155,
        config.deadzone_units == 10 && config.full_speed_units == 120,
        config.max_offset_units == 240,
        config.min_speed_detents_per_second.units() * 2 == 3 * vstd::arithmetic::power2::pow2(1074),
        config.max_speed_detents_per_second.units() == 32 * vstd::arithmetic::power2::pow2(1074),
        config.acceleration_exponent.bits == 0x3ff9_9999_9999_999a,
        config.scroll_speed_steps@.len() == 0 && config.tick_hz == 120,
        !config.invert_vertical && !config.invert_horizontal,
        config.suppress_motion_while_pending && config.suppress_motion_while_scrolling,
        !config.replay_pending_motion_on_click && config.horizontal_scroll,
        config.emit_hires_wheel && config.emit_legacy_wheel,
        config.min_hires_units_per_event == 15 && config.max_detents_per_tick == 4,
{
    let min = config.min_speed_detents_per_second;
    let max = config.max_speed_detents_per_second;
    vstd::arithmetic::power2::lemma2_to64();
    vstd::arithmetic::power2::lemma2_to64_rest();
    assert(min.exponent() == 1023 && min.fraction() == 0x8_0000_0000_0000);
    assert(max.exponent() == 1028 && max.fraction() == 0);
    vstd::arithmetic::power2::lemma_pow2_adds(52, 1022);
    vstd::arithmetic::power2::lemma_pow2_adds(5, 1074);
    vstd::arithmetic::power2::lemma_pow2_adds(52, 1027);
}

impl Default for CoreConfig {
    fn default() -> (r: CoreConfig)
        ensures
            r.is_default(),
    {
        CoreConfig {
            mode: Mode::Toggle,
            hold_threshold_ms: 155,
            deadzone_units: 10,
            full_speed_units: 120,
            max_offset_units: 240,
            min_speed_detents_per_second: Binary64 { bits: DEFAULT_MIN_SPEED_BITS },
            max_speed_detents_per_second: Binary64 { bits: DEFAULT_MAX_SPEED_BITS },
            acceleration_exponent: Binary64 { bits: DEFAULT_EXPONENT_BITS },
            // Empty by default: scrolling follows the smooth progressive curve
            // (min/max speed, full_speed_units, acceleration_exponent).
            scroll_speed_steps: Vec::new(),
            tick_hz: 120,
            invert_vertical: false,
            invert_horizontal: false,
            suppress_motion_while_pending: true,
            suppress_motion_while_scrolling: true,
            replay_pending_motion_on_click: false,
            emit_hires_wheel: true,
            emit_legacy_wheel: true,
            min_hires_units_per_event: 15,
            horizontal_scroll: true,
            max_detents_per_tick: 4,
        }
    }
}

} // verus!
