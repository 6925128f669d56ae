//! Sorts raw input records into engine events, and turns events back into
//! actions where the engine is bypassed.

use vstd::prelude::*;

use crate::model::{CoreAction, CoreInputEvent, MouseButton};
use crate::record::{
    summarize, InputRecord, InputSummary, BTN_BACK, BTN_EXTRA, BTN_FORWARD, BTN_LEFT, BTN_MIDDLE,
    BTN_RIGHT, BTN_SIDE, REL_HWHEEL, REL_HWHEEL_HI_RES, REL_WHEEL, REL_WHEEL_HI_RES, REL_X, REL_Y,
};

verus! {

#[derive(Debug, Clone, Copy, PartialEq, Eq, Structural)]
pub enum RoutedEvent {
    Core(CoreInputEvent),
    DirectButton { button: MouseButton, pressed: bool },
    Ignore,
}

/// A button that goes straight to the virtual device: 1 is a press, 0 a
/// release, and nothing else counts.
pub open spec fn direct(value: i32, button: MouseButton) -> RoutedEvent {
    if value == 1 {
        RoutedEvent::DirectButton { button, pressed: true }
    } else if value == 0 {
        RoutedEvent::DirectButton { button, pressed: false }
    } else {
        RoutedEvent::Ignore
    }
}

/// A button that the engine sees: 1 is a press, 0 a release, and nothing else
/// counts.
pub open spec fn pressed_or_released(
    value: i32,
    down: CoreInputEvent,
    up: CoreInputEvent,
) -> RoutedEvent {
    if value == 1 {
        RoutedEvent::Core(down)
    } else if value == 0 {
        RoutedEvent::Core(up)
    } else {
        RoutedEvent::Ignore
    }
}

/// Where a record goes.
pub open spec fn routed(summary: InputSummary) -> RoutedEvent {
    match summary {
        InputSummary::Key { code, value } => if code == BTN_MIDDLE {
            pressed_or_released(value, CoreInputEvent::MiddleDown, CoreInputEvent::MiddleUp)
        } else if code == BTN_LEFT {
            pressed_or_released(value, CoreInputEvent::LeftDown, CoreInputEvent::LeftUp)
        } else if code == BTN_RIGHT {
            pressed_or_released(value, CoreInputEvent::RightDown, CoreInputEvent::RightUp)
        } else if code == BTN_SIDE {
            direct(value, MouseButton::Side)
        } else if code == BTN_EXTRA {
            direct(value, MouseButton::Extra)
        } else if code == BTN_FORWARD {
            direct(value, MouseButton::Forward)
        } else if code == BTN_BACK {
            direct(value, MouseButton::Back)
        } else {
            RoutedEvent::Ignore
        },
        InputSummary::RelativeAxis { code, value } => if code == REL_X {
            RoutedEvent::Core(CoreInputEvent::Motion { dx: value, dy: 0 })
        } else if code == REL_Y {
            RoutedEvent::Core(CoreInputEvent::Motion { dx: 0, dy: value })
        } else if code == REL_WHEEL {
            RoutedEvent::Core(CoreInputEvent::Wheel { vertical: value, horizontal: 0 })
        } else if code == REL_HWHEEL {
            RoutedEvent::Core(CoreInputEvent::Wheel { vertical: 0, horizontal: value })
        } else if code == REL_WHEEL_HI_RES {
            RoutedEvent::Core(
                CoreInputEvent::WheelHiRes { vertical_units: value, horizontal_units: 0 },
            )
        } else if code == REL_HWHEEL_HI_RES {
            RoutedEvent::Core(
                CoreInputEvent::WheelHiRes { vertical_units: 0, horizontal_units: value },
            )
        } else {
            RoutedEvent::Ignore
        },
        InputSummary::Other => RoutedEvent::Ignore,
    }
}

/// The actions that pass an event on as it came.
pub open spec fn passed_through(event: RoutedEvent) -> Seq<CoreAction> {
    match event {
        RoutedEvent::Core(event) => crate::engine::transparent(event),
        RoutedEvent::DirectButton { button, pressed } => crate::engine::forwarded(button, pressed),
        RoutedEvent::Ignore => seq![],
    }
}

/// Sorts a raw record.
pub fn classify(event: &InputRecord) -> (r: RoutedEvent)
    ensures
        r == routed(event.summary()),
{
    route(summarize(event))
}

/// Sorts a record by what it reports.
pub fn route(summary: InputSummary) -> (r: RoutedEvent)
    ensures
        r == routed(summary),
{
    match summary {
        InputSummary::Key { code, value } => {
            if code == BTN_MIDDLE {
                press_or_release(value, CoreInputEvent::MiddleDown, CoreInputEvent::MiddleUp)
            } else if code == BTN_LEFT {
                press_or_release(value, CoreInputEvent::LeftDown, CoreInputEvent::LeftUp)
            } else if code == BTN_RIGHT {
                press_or_release(value, CoreInputEvent::RightDown, CoreInputEvent::RightUp)
            } else if code == BTN_SIDE {
                button_passthrough(value, MouseButton::Side)
            } else if code == BTN_EXTRA {
                button_passthrough(value, MouseButton::Extra)
            } else if code == BTN_FORWARD {
                button_passthrough(value, MouseButton::Forward)
            } else if code == BTN_BACK {
                button_passthrough(value, MouseButton::Back)
            } else {
                RoutedEvent::Ignore
            }
        },
        InputSummary::RelativeAxis { code, value } => {
            if code == REL_X {
                RoutedEvent::Core(CoreInputEvent::Motion { dx: value, dy: 0 })
            } else if code == REL_Y {
                RoutedEvent::Core(CoreInputEvent::Motion { dx: 0, dy: value })
            } else if code == REL_WHEEL {
                RoutedEvent::Core(CoreInputEvent::Wheel { vertical: value, horizontal: 0 })
            } else if code == REL_HWHEEL {
                RoutedEvent::Core(CoreInputEvent::Wheel { vertical: 0, horizontal: value })
            } else if code == REL_WHEEL_HI_RES {
                RoutedEvent::Core(
                    CoreInputEvent::WheelHiRes { vertical_units: value, horizontal_units: 0 },
                )
            } else if code == REL_HWHEEL_HI_RES {
                RoutedEvent::Core(
                    CoreInputEvent::WheelHiRes { vertical_units: 0, horizontal_units: value },
                )
            } else {
                RoutedEvent::Ignore
            }
        },
        InputSummary::Other => RoutedEvent::Ignore,
    }
}

fn press_or_release(value: i32, down: CoreInputEvent, up: CoreInputEvent) -> (r: RoutedEvent)
    ensures
        r == pressed_or_released(value, down, up),
{
    match value {
        1 => RoutedEvent::Core(down),
        0 => RoutedEvent::Core(up),
        _ => RoutedEvent::Ignore,
    }
}

fn button_passthrough(value: i32, button: MouseButton) -> (r: RoutedEvent)
    ensures
        r == direct(value, button),
{
    match value {
        1 => RoutedEvent::DirectButton { button, pressed: true },
        0 => RoutedEvent::DirectButton { button, pressed: false },
        _ => RoutedEvent::Ignore,
    }
}

/// Converts a routed event into the `CoreAction`s that forward it untouched.
///
/// Used when the foreground filter disables autoscroll for the active app:
/// because the daemon grabs the physical device, simply dropping the events
/// would make the mouse appear dead, so every event is re-emitted verbatim on
/// the virtual device instead.
#[must_use]
pub fn passthrough_actions(routed: &RoutedEvent) -> (r: Vec<CoreAction>)
    ensures
        r@ == passed_through(*routed),
{
    let actions: Vec<CoreAction> = match routed {
        RoutedEvent::Core(event) => passthrough_core_event(*event),
        RoutedEvent::DirectButton { button, pressed } => vec![
            CoreAction::ForwardMouseButton { button: *button, pressed: *pressed },
        ],
        RoutedEvent::Ignore => Vec::new(),
    };
    assert(actions@ =~= passed_through(*routed));
    actions
}

fn passthrough_core_event(event: CoreInputEvent) -> (r: Vec<CoreAction>)
    ensures
        r@ == crate::engine::transparent(event),
{
    let actions: Vec<CoreAction> = match event {
        CoreInputEvent::MiddleDown => button_action(MouseButton::Middle, true),
        CoreInputEvent::MiddleUp => button_action(MouseButton::Middle, false),
        CoreInputEvent::LeftDown => button_action(MouseButton::Left, true),
        CoreInputEvent::LeftUp => button_action(MouseButton::Left, false),
        CoreInputEvent::RightDown => button_action(MouseButton::Right, true),
        CoreInputEvent::RightUp => button_action(MouseButton::Right, false),
        CoreInputEvent::Motion { dx, dy } => vec![CoreAction::ForwardMotion { dx, dy }],
        CoreInputEvent::Wheel { vertical, horizontal } => vec![
            CoreAction::ForwardWheel { vertical, horizontal },
        ],
        CoreInputEvent::WheelHiRes { vertical_units, horizontal_units } => vec![
            CoreAction::EmitWheelHiRes { vertical_units, horizontal_units },
        ],
        CoreInputEvent::Tick { .. } => Vec::new(),
    };
    assert(actions@ =~= crate::engine::transparent(event));
    actions
}

fn button_action(button: MouseButton, pressed: bool) -> (r: Vec<CoreAction>)
    ensures
        r@ == crate::engine::forwarded(button, pressed),
{
    let actions: Vec<CoreAction> = vec![CoreAction::ForwardMouseButton { button, pressed }];
    assert(actions@ =~= crate::engine::forwarded(button, pressed));
    actions
}

/// The name of a button.
pub open spec fn button_label(button: MouseButton) -> Seq<char> {
    match button {
        MouseButton::Left => "Left"@,
        MouseButton::Right => "Right"@,
        MouseButton::Middle => "Middle"@,
        MouseButton::Side => "Side"@,
        MouseButton::Extra => "Extra"@,
        MouseButton::Forward => "Forward"@,
        MouseButton::Back => "Back"@,
    }
}

/// The sign of a wheel movement, as text.
pub open spec fn sign_label(v: i32) -> Seq<char> {
    if v > 0 {
        "+"@
    } else if v < 0 {
        "-"@
    } else {
        "0"@
    }
}

/// What a dry run says of an action. How far the pointer or the wheel moves
/// stays out of it, and what is suppressed is not mentioned.
pub open spec fn description(action: CoreAction) -> Option<Seq<char>> {
    match action {
        CoreAction::ForwardMouseButton { button, pressed } => Some(
            "ForwardMouseButton("@ + button_label(button) + ", pressed="@ + (if pressed {
                "true"@
            } else {
                "false"@
            }) + ")"@,
        ),
        CoreAction::ForwardMotion { .. } => Some("ForwardMotion(<redacted>)"@),
        CoreAction::ForwardWheel { .. } => Some("ForwardWheel(<redacted>)"@),
        CoreAction::EmitWheelDetents { vertical, .. } => Some(
            "EmitWheelDetents(direction="@ + sign_label(vertical) + ")"@,
        ),
        CoreAction::EmitWheelHiRes { vertical_units, .. } => Some(
            "EmitWheelHiRes(direction="@ + sign_label(vertical_units) + ")"@,
        ),
        CoreAction::EmitMiddleClick => Some("EmitMiddleClick"@),
        CoreAction::EnterScrollMode => Some("EnterScrollMode"@),
        CoreAction::ExitScrollMode => Some("ExitScrollMode"@),
        CoreAction::Suppress => None,
    }
}

/// Describes an action for a dry run.
pub fn dry_run_describe(action: &CoreAction) -> (r: Option<String>)
    ensures
        crate::text::text_of(r) == description(*action),
{
    let mut out: String = String::new();
    match action {
        CoreAction::ForwardMouseButton { button, pressed } => {
            out.append("ForwardMouseButton(");
            out.append(button_name(*button));
            out.append(", pressed=");
            out.append(if *pressed { "true" } else { "false" });
            out.append(")");
        },
        CoreAction::ForwardMotion { .. } => out.append("ForwardMotion(<redacted>)"),
        CoreAction::ForwardWheel { .. } => out.append("ForwardWheel(<redacted>)"),
        CoreAction::EmitWheelDetents { vertical, .. } => {
            out.append("EmitWheelDetents(direction=");
            out.append(sign(*vertical));
            out.append(")");
        },
        CoreAction::EmitWheelHiRes { vertical_units, .. } => {
            out.append("EmitWheelHiRes(direction=");
            out.append(sign(*vertical_units));
            out.append(")");
        },
        CoreAction::EmitMiddleClick => out.append("EmitMiddleClick"),
        CoreAction::EnterScrollMode => out.append("EnterScrollMode"),
        CoreAction::ExitScrollMode => out.append("ExitScrollMode"),
        CoreAction::Suppress => {
            return None;
        },
    }
    assert(out@ =~= description(*action)->0);
    Some(out)
}

fn button_name(button: MouseButton) -> (r: &'static str)
    ensures
        r@ == button_label(button),
{
    match button {
        MouseButton::Left => "Left",
        MouseButton::Right => "Right",
        MouseButton::Middle => "Middle",
        MouseButton::Side => "Side",
        MouseButton::Extra => "Extra",
        MouseButton::Forward => "Forward",
        MouseButton::Back => "Back",
    }
}

fn sign(v: i32) -> (r: &'static str)
    ensures
        r@ == sign_label(v),
{
    if v > 0 {
        "+"
    } else if v < 0 {
        "-"
    } else {
        "0"
    }
}

/// Bypassing the engine and running an engine at rest come to the same: but
/// for the press of the middle button and the passing of time, both pass an
/// event on as it came, as one action, and the engine stays as it is.
pub proof fn law_bypass_agrees_with_engine_at_rest(
    m: crate::engine::EngineModel,
    config: crate::config::CoreConfig,
    event: CoreInputEvent,
)
    requires
        m.state == crate::model::EngineState::Idle,
        event != CoreInputEvent::MiddleDown,
        !(event is Tick),
    ensures
        m.step(config, event) == m.with_actions(passed_through(RoutedEvent::Core(event))),
        passed_through(RoutedEvent::Core(event)).len() == 1,
{
}

/// What the kernel's codes of the three main buttons mean: each has a press and
/// a release of its own, and its repetition, or any other value, means nothing.
pub proof fn law_main_buttons(code: u16, value: i32)
    ensures
        ({
            let routed = routed(InputSummary::Key { code, value });
            &&& code == 0x110 && value == 1 ==> routed == RoutedEvent::Core(CoreInputEvent::LeftDown)
            &&& code == 0x110 && value == 0 ==> routed == RoutedEvent::Core(CoreInputEvent::LeftUp)
            &&& code == 0x111 && value == 1 ==> routed == RoutedEvent::Core(
                CoreInputEvent::RightDown,
            )
            &&& code == 0x111 && value == 0 ==> routed == RoutedEvent::Core(CoreInputEvent::RightUp)
            &&& code == 0x112 && value == 1 ==> routed == RoutedEvent::Core(
                CoreInputEvent::MiddleDown,
            )
            &&& code == 0x112 && value == 0 ==> routed == RoutedEvent::Core(
                CoreInputEvent::MiddleUp,
            )
            &&& value != 0 && value != 1 ==> routed == RoutedEvent::Ignore
        }),
{
}

/// The kernel's codes of the other four buttons: each goes straight to the
/// virtual device under its own name. Keys that are none of a mouse are ignored.
pub proof fn law_other_buttons(code: u16, value: i32)
    requires
        value == 0 || value == 1,
    ensures
        ({
            let routed = routed(InputSummary::Key { code, value });
            let pressed = value == 1;
            &&& code == 0x113 ==> routed == (RoutedEvent::DirectButton {
                button: MouseButton::Side,
                pressed,
            })
            &&& code == 0x114 ==> routed == (RoutedEvent::DirectButton {
                button: MouseButton::Extra,
                pressed,
            })
            &&& code == 0x115 ==> routed == (RoutedEvent::DirectButton {
                button: MouseButton::Forward,
                pressed,
            })
            &&& code == 0x116 ==> routed == (RoutedEvent::DirectButton {
                button: MouseButton::Back,
                pressed,
            })
            &&& code < 0x110 || code > 0x116 ==> routed == RoutedEvent::Ignore
        }),
{
}

/// The kernel's codes of the axes: movement to the right, movement down, the
/// wheel and the high-resolution wheel along each axis, each with the value of
/// the record and with nothing along the other axis. Other axes are ignored.
pub proof fn law_axes(code: u16, value: i32)
    ensures
        ({
            let routed = routed(InputSummary::RelativeAxis { code, value });
            &&& code == 0 ==> routed == RoutedEvent::Core(
                CoreInputEvent::Motion { dx: value, dy: 0 },
            )
            &&& code == 1 ==> routed == RoutedEvent::Core(
                CoreInputEvent::Motion { dx: 0, dy: value },
            )
            &&& code == 8 ==> routed == RoutedEvent::Core(
                CoreInputEvent::Wheel { vertical: value, horizontal: 0 },
            )
            &&& code == 6 ==> routed == RoutedEvent::Core(
                CoreInputEvent::Wheel { vertical: 0, horizontal: value },
            )
            &&& code == 11 ==> routed == RoutedEvent::Core(
                CoreInputEvent::WheelHiRes { vertical_units: value, horizontal_units: 0 },
            )
            &&& code == 12 ==> routed == RoutedEvent::Core(
                CoreInputEvent::WheelHiRes { vertical_units: 0, horizontal_units: value },
            )
            &&& code != 0 && code != 1 && code != 6 && code != 8 && code != 11 && code != 12
                ==> routed == RoutedEvent::Ignore
        }),
{
}

/// Records of the first kind are keys and those of the second are relative axes,
/// with their own codes and values; what is of another kind is ignored.
pub proof fn law_kinds_of_records(record: InputRecord)
    ensures
        record.kind == 1 ==> routed(record.summary()) == routed(
            InputSummary::Key { code: record.code, value: record.value },
        ),
        record.kind == 2 ==> routed(record.summary()) == routed(
            InputSummary::RelativeAxis { code: record.code, value: record.value },
        ),
        record.kind != 1 && record.kind != 2 ==> routed(record.summary()) == RoutedEvent::Ignore,
{
}

/// An event that the engine is spared comes out as the one action that repeats
/// it: the same button, pressed or released as it was, or the same movement with
/// the same numbers. The passing of time and what is ignored come to nothing.
pub proof fn law_spared_events_are_repeated(event: RoutedEvent)
    ensures
        match event {
            RoutedEvent::Core(CoreInputEvent::Tick { .. }) => passed_through(event)
                == Seq::<CoreAction>::empty(),
            RoutedEvent::Core(event) => crate::gestures::passed_on(
                event,
                passed_through(RoutedEvent::Core(event)),
            ),
            RoutedEvent::DirectButton { button, pressed } => passed_through(event) == seq![
                CoreAction::ForwardMouseButton { button, pressed },
            ],
            RoutedEvent::Ignore => passed_through(event) == Seq::<CoreAction>::empty(),
        },
{
}

/// A dry run does not give away how far the pointer or the wheel moved, but only
/// which way the wheel turned, and says nothing of what is suppressed. All else
/// that is done, it mentions.
pub proof fn law_dry_runs_keep_amounts_to_themselves(a: CoreAction, b: CoreAction)
    ensures
        description(a) is None <==> a == CoreAction::Suppress,
        a is ForwardMotion && b is ForwardMotion ==> description(a) == description(b),
        a is ForwardWheel && b is ForwardWheel ==> description(a) == description(b),
        match (a, b) {
            (
                CoreAction::EmitWheelDetents { vertical: v, .. },
                CoreAction::EmitWheelDetents { vertical: w, .. },
            ) => {
                &&& v > 0 && w > 0 ==> description(a) == description(b)
                &&& v < 0 && w < 0 ==> description(a) == description(b)
                &&& v == 0 && w == 0 ==> description(a) == description(b)
                &&& v > 0 ==> description(a) == Some("EmitWheelDetents(direction="@ + "+"@ + ")"@)
                &&& v < 0 ==> description(a) == Some("EmitWheelDetents(direction="@ + "-"@ + ")"@)
                &&& v == 0 ==> description(a) == Some("EmitWheelDetents(direction="@ + "0"@ + ")"@)
            },
            (
                CoreAction::EmitWheelHiRes { vertical_units: v, .. },
                CoreAction::EmitWheelHiRes { vertical_units: w, .. },
            ) => {
                &&& v > 0 && w > 0 ==> description(a) == description(b)
                &&& v < 0 && w < 0 ==> description(a) == description(b)
                &&& v == 0 && w == 0 ==> description(a) == description(b)
                &&& v > 0 ==> description(a) == Some("EmitWheelHiRes(direction="@ + "+"@ + ")"@)
                &&& v < 0 ==> description(a) == Some("EmitWheelHiRes(direction="@ + "-"@ + ")"@)
                &&& v == 0 ==> description(a) == Some("EmitWheelHiRes(direction="@ + "0"@ + ")"@)
            },
            _ => true,
        },
{
}

/// The name of each button in a dry run is that of the button.
pub proof fn law_buttons_go_by_their_names(button: MouseButton)
    ensures
        button_label(button) == match button {
            MouseButton::Left => "Left"@,
            MouseButton::Right => "Right"@,
            MouseButton::Middle => "Middle"@,
            MouseButton::Side => "Side"@,
            MouseButton::Extra => "Extra"@,
            MouseButton::Forward => "Forward"@,
            MouseButton::Back => "Back"@,
        },
        forall|pressed: bool|
            #[trigger] description(CoreAction::ForwardMouseButton { button, pressed }) == Some(
                "ForwardMouseButton("@ + button_label(button) + ", pressed="@ + (if pressed {
                    "true"@
                } else {
                    "false"@
                }) + ")"@,
            ),
        description(CoreAction::EmitMiddleClick) == Some("EmitMiddleClick"@),
        description(CoreAction::EnterScrollMode) == Some("EnterScrollMode"@),
        description(CoreAction::ExitScrollMode) == Some("ExitScrollMode"@),
{
}

} // verus!
