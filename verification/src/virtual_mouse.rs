//! The records that the virtual mouse is fed with.

use vstd::prelude::*;

use crate::model::{CoreAction, MouseButton};
use crate::record::{
    InputRecord, BTN_BACK, BTN_EXTRA, BTN_FORWARD, BTN_LEFT, BTN_MIDDLE, BTN_RIGHT, BTN_SIDE,
    EV_KEY, EV_REL, REL_HWHEEL, REL_HWHEEL_HI_RES, REL_WHEEL, REL_WHEEL_HI_RES, REL_X, REL_Y,
};

verus! {

pub const VIRTUAL_MOUSE_NAME: &'static str = "Scrollock virtual mouse";

pub const VENDOR_ID: u16 = 0x1209;

pub const PRODUCT_ID: u16 = 0x7771;

pub const VERSION: u16 = 0x0001;

/// The code of a button.
pub open spec fn button_code(button: MouseButton) -> u16 {
    match button {
        MouseButton::Left => BTN_LEFT,
        MouseButton::Right => BTN_RIGHT,
        MouseButton::Middle => BTN_MIDDLE,
        MouseButton::Side => BTN_SIDE,
        MouseButton::Extra => BTN_EXTRA,
        MouseButton::Forward => BTN_FORWARD,
        MouseButton::Back => BTN_BACK,
    }
}

/// The press or the release of a button.
pub open spec fn key_record(code: u16, pressed: bool) -> InputRecord {
    InputRecord { kind: EV_KEY, code, value: if pressed { 1 } else { 0 } }
}

/// A movement along an axis; none where nothing moves.
pub open spec fn rel_records(code: u16, value: i32) -> Seq<InputRecord> {
    if value != 0 {
        seq![InputRecord { kind: EV_REL, code, value }]
    } else {
        seq![]
    }
}

/// The records of an action. A middle click takes two batches of its own, and
/// the rest of the actions is not for the device.
pub open spec fn encoded(action: CoreAction) -> Seq<InputRecord> {
    match action {
        CoreAction::ForwardMouseButton { button, pressed } => seq![
            key_record(button_code(button), pressed),
        ],
        CoreAction::ForwardMotion { dx, dy } => rel_records(REL_X, dx) + rel_records(REL_Y, dy),
        CoreAction::ForwardWheel { vertical, horizontal } => rel_records(REL_WHEEL, vertical)
            + rel_records(REL_HWHEEL, horizontal),
        CoreAction::EmitWheelDetents { vertical, horizontal } => rel_records(REL_WHEEL, vertical)
            + rel_records(REL_HWHEEL, horizontal),
        CoreAction::EmitWheelHiRes { vertical_units, horizontal_units } => rel_records(
            REL_WHEEL_HI_RES,
            vertical_units,
        ) + rel_records(REL_HWHEEL_HI_RES, horizontal_units),
        _ => seq![],
    }
}

/// The records of a batch of actions, in order.
pub open spec fn encoded_all(actions: Seq<CoreAction>) -> Seq<InputRecord>
    decreases actions.len(),
{
    if actions.len() == 0 {
        seq![]
    } else {
        encoded_all(actions.drop_last()) + encoded(actions.last())
    }
}

/// The codes of all buttons, in the order in which they are released.
pub open spec fn all_buttons() -> Seq<u16> {
    seq![BTN_LEFT, BTN_RIGHT, BTN_MIDDLE, BTN_SIDE, BTN_EXTRA, BTN_FORWARD, BTN_BACK]
}

/// The codes of all axes.
pub open spec fn all_axes() -> Seq<u16> {
    seq![REL_X, REL_Y, REL_WHEEL, REL_HWHEEL, REL_WHEEL_HI_RES, REL_HWHEEL_HI_RES]
}

/// The buttons of the virtual mouse.
pub fn supported_buttons() -> (r: Vec<u16>)
    ensures
        r@ == all_buttons(),
{
    let codes: Vec<u16> = vec![
        BTN_LEFT,
        BTN_RIGHT,
        BTN_MIDDLE,
        BTN_SIDE,
        BTN_EXTRA,
        BTN_FORWARD,
        BTN_BACK,
    ];
    assert(codes@ =~= all_buttons());
    codes
}

/// The axes of the virtual mouse.
pub fn supported_axes() -> (r: Vec<u16>)
    ensures
        r@ == all_axes(),
{
    let codes: Vec<u16> = vec![
        REL_X,
        REL_Y,
        REL_WHEEL,
        REL_HWHEEL,
        REL_WHEEL_HI_RES,
        REL_HWHEEL_HI_RES,
    ];
    assert(codes@ =~= all_axes());
    codes
}

/// The records of a batch of actions, into a buffer that is emptied first.
pub fn encode_batch(actions: &[CoreAction], out: &mut Vec<InputRecord>)
    ensures
        final(out)@ == encoded_all(actions@),
{
    out.clear();
    let mut i: usize = 0;
    while i < actions.len()
        invariant
            i <= actions@.len(),
            out@ == encoded_all(actions@.take(i as int)),
        decreases actions@.len() - i,
    {
        encode_action(&actions[i], out);
        assert(actions@.take(i + 1).drop_last() =~= actions@.take(i as int));
        i += 1;
    }
    assert(actions@.take(i as int) =~= actions@);
}

/// Appends the records of an action.
pub fn encode_action(action: &CoreAction, out: &mut Vec<InputRecord>)
    ensures
        final(out)@ == old(out)@ + encoded(*action),
{
    match action {
        CoreAction::ForwardMouseButton { button, pressed } => {
            out.push(key_event(mouse_button_to_keycode(*button), *pressed));
        },
        CoreAction::ForwardMotion { dx, dy } => {
            rel_event(REL_X, *dx, out);
            rel_event(REL_Y, *dy, out);
        },
        CoreAction::ForwardWheel { vertical, horizontal } => {
            rel_event(REL_WHEEL, *vertical, out);
            rel_event(REL_HWHEEL, *horizontal, out);
        },
        CoreAction::EmitWheelDetents { vertical, horizontal } => {
            rel_event(REL_WHEEL, *vertical, out);
            rel_event(REL_HWHEEL, *horizontal, out);
        },
        CoreAction::EmitWheelHiRes { vertical_units, horizontal_units } => {
            rel_event(REL_WHEEL_HI_RES, *vertical_units, out);
            rel_event(REL_HWHEEL_HI_RES, *horizontal_units, out);
        },
        CoreAction::EmitMiddleClick => {},
        CoreAction::Suppress => {},
        CoreAction::EnterScrollMode => {},
        CoreAction::ExitScrollMode => {},
    }
    assert(out@ =~= old(out)@ + encoded(*action));
}

/// A middle click: the press and the release, each a batch of its own.
pub fn middle_click() -> (r: (InputRecord, InputRecord))
    ensures
        r == (key_record(BTN_MIDDLE, true), key_record(BTN_MIDDLE, false)),
{
    (key_event(BTN_MIDDLE, true), key_event(BTN_MIDDLE, false))
}

/// The release of every supported button. Used when the physical mouse
/// disconnects mid-gesture so a forwarded button press cannot stay stuck on
/// the virtual device. Releasing a button that was never pressed is a no-op
/// for the compositor.
pub fn release_all_buttons() -> (r: Vec<InputRecord>)
    ensures
        r@ == all_buttons().map_values(|code: u16| key_record(code, false)),
{
    let codes: Vec<u16> = supported_buttons();
    let mut out: Vec<InputRecord> = Vec::new();
    let mut i: usize = 0;
    while i < codes.len()
        invariant
            i <= codes@.len(),
            codes@ == all_buttons(),
            out@ == all_buttons().take(i as int).map_values(|code: u16| key_record(code, false)),
        decreases codes@.len() - i,
    {
        out.push(key_event(codes[i], false));
        i += 1;
        assert(out@ =~= all_buttons().take(i as int).map_values(
            |code: u16| key_record(code, false),
        ));
    }
    assert(all_buttons().take(i as int) =~= all_buttons());
    out
}

fn key_event(code: u16, pressed: bool) -> (r: InputRecord)
    ensures
        r == key_record(code, pressed),
{
    InputRecord { kind: EV_KEY, code, value: if pressed { 1 } else { 0 } }
}

fn rel_event(code: u16, value: i32, out: &mut Vec<InputRecord>)
    ensures
        final(out)@ == old(out)@ + rel_records(code, value),
{
    if value != 0 {
        out.push(InputRecord { kind: EV_REL, code, value });
    }
    assert(out@ =~= old(out)@ + rel_records(code, value));
}

fn mouse_button_to_keycode(button: MouseButton) -> (r: u16)
    ensures
        r == button_code(button),
{
    match button {
        MouseButton::Left => BTN_LEFT,
        MouseButton::Right => BTN_RIGHT,
        MouseButton::Middle => BTN_MIDDLE,
        MouseButton::Side => BTN_SIDE,
        MouseButton::Extra => BTN_EXTRA,
        MouseButton::Forward => BTN_FORWARD,
        MouseButton::Back => BTN_BACK,
    }
}

/// A mouse whose events all pass through does not appear dead: every record
/// that is not ignored, and that moves something, comes out as it went in.
pub proof fn law_passthrough_keeps_records(record: InputRecord)
    requires
        crate::event_router::routed(record.summary()) != crate::event_router::RoutedEvent::Ignore,
        record.kind == EV_REL ==> record.value != 0,
    ensures
        encoded_all(
            crate::event_router::passed_through(
                crate::event_router::routed(record.summary()),
            ),
        ) == seq![record],
{
    let routed = crate::event_router::routed(record.summary());
    let actions = crate::event_router::passed_through(routed);
    assert(actions.len() == 1);
    assert(encoded_all(actions.drop_last()) =~= seq![]);
    assert(encoded(actions.last()) =~= seq![record]);
    assert(encoded_all(actions) =~= seq![record]);
}

/// A record that moves nothing leaves nothing to emit.
pub proof fn law_passthrough_drops_stillness(record: InputRecord)
    requires
        record.kind == EV_REL,
        record.value == 0,
    ensures
        encoded_all(
            crate::event_router::passed_through(
                crate::event_router::routed(record.summary()),
            ),
        ) == Seq::<InputRecord>::empty(),
{
    let actions = crate::event_router::passed_through(
        crate::event_router::routed(record.summary()),
    );
    if actions.len() == 1 {
        assert(encoded_all(actions.drop_last()) =~= seq![]);
        assert(encoded(actions.last()) =~= seq![]);
    }
    assert(encoded_all(actions) =~= seq![]);
}

/// After the release of all buttons no supported button is left pressed.
pub proof fn law_release_reaches_every_button(button: MouseButton)
    ensures
        all_buttons().map_values(|code: u16| key_record(code, false)).contains(
            key_record(button_code(button), false),
        ),
{
    let released = all_buttons().map_values(|code: u16| key_record(code, false));
    let i: int = match button {
        MouseButton::Left => 0,
        MouseButton::Right => 1,
        MouseButton::Middle => 2,
        MouseButton::Side => 3,
        MouseButton::Extra => 4,
        MouseButton::Forward => 5,
        MouseButton::Back => 6,
    };
    assert(released[i] == key_record(button_code(button), false));
}

/// A button is written as one key record with the kernel's code of that button:
/// 1 for a press, 0 for a release.
pub proof fn law_buttons_are_written(button: MouseButton, pressed: bool)
    ensures
        encoded(CoreAction::ForwardMouseButton { button, pressed }) == seq![
            InputRecord {
                kind: 1,
                code: match button {
                    MouseButton::Left => 0x110,
                    MouseButton::Right => 0x111,
                    MouseButton::Middle => 0x112,
                    MouseButton::Side => 0x113,
                    MouseButton::Extra => 0x114,
                    MouseButton::Forward => 0x115,
                    MouseButton::Back => 0x116,
                },
                value: if pressed {
                    1
                } else {
                    0
                },
            },
        ],
{
}

/// Whether the records of a movement along two axes are right: first the one
/// along `first`, then the one along `second`, each with its own value, and none
/// where the value is zero.
pub open spec fn written_along(
    records: Seq<InputRecord>,
    first: u16,
    a: i32,
    second: u16,
    b: i32,
) -> bool {
    let along_first = InputRecord { kind: 2, code: first, value: a };
    let along_second = InputRecord { kind: 2, code: second, value: b };
    &&& a != 0 && b != 0 ==> records == seq![along_first, along_second]
    &&& a != 0 && b == 0 ==> records == seq![along_first]
    &&& a == 0 && b != 0 ==> records == seq![along_second]
    &&& a == 0 && b == 0 ==> records == Seq::<InputRecord>::empty()
}

/// Movements are written with the kernel's codes: those of the pointer to the
/// right and down, those of the wheel and of the high-resolution wheel up and to
/// the right. What is passed on and what the engine emits are written alike.
pub proof fn law_movements_are_written(a: i32, b: i32)
    ensures
        written_along(encoded(CoreAction::ForwardMotion { dx: a, dy: b }), 0, a, 1, b),
        written_along(
            encoded(CoreAction::ForwardWheel { vertical: a, horizontal: b }),
            8,
            a,
            6,
            b,
        ),
        written_along(
            encoded(CoreAction::EmitWheelDetents { vertical: a, horizontal: b }),
            8,
            a,
            6,
            b,
        ),
        written_along(
            encoded(CoreAction::EmitWheelHiRes { vertical_units: a, horizontal_units: b }),
            11,
            a,
            12,
            b,
        ),
{
    lemma_written_along(0, a, 1, b);
    lemma_written_along(8, a, 6, b);
    lemma_written_along(11, a, 12, b);
}

proof fn lemma_written_along(first: u16, a: i32, second: u16, b: i32)
    ensures
        written_along(rel_records(first, a) + rel_records(second, b), first, a, second, b),
{
    let records = rel_records(first, a) + rel_records(second, b);
    let along_first = InputRecord { kind: 2, code: first, value: a };
    let along_second = InputRecord { kind: 2, code: second, value: b };
    if a != 0 && b != 0 {
        assert(records =~= seq![along_first, along_second]);
    } else if a != 0 {
        assert(records =~= seq![along_first]);
    } else if b != 0 {
        assert(records =~= seq![along_second]);
    } else {
        assert(records =~= Seq::<InputRecord>::empty());
    }
}

/// What is not for the device leaves no record; a middle click is not among
/// those of a batch either.
pub proof fn law_the_rest_is_not_written(action: CoreAction)
    requires
        action == CoreAction::Suppress || action == CoreAction::EnterScrollMode || action
            == CoreAction::ExitScrollMode || action == CoreAction::EmitMiddleClick,
    ensures
        encoded(action) == Seq::<InputRecord>::empty(),
{
}

/// A batch is written action by action, in order: one batch after another is
/// written as the two together.
pub proof fn law_batches_are_written_in_order(first: Seq<CoreAction>, second: Seq<CoreAction>)
    ensures
        encoded_all(first + second) == encoded_all(first) + encoded_all(second),
        first.len() == 1 ==> encoded_all(first) == encoded(first[0]),
        encoded_all(Seq::<CoreAction>::empty()) == Seq::<InputRecord>::empty(),
    decreases second.len(),
{
    if second.len() == 0 {
        assert(first + second =~= first);
    } else {
        law_batches_are_written_in_order(first, second.drop_last());
        assert((first + second).drop_last() =~= first + second.drop_last());
        assert((first + second).last() == second.last());
        assert(encoded_all(first + second) =~= encoded_all(first) + encoded_all(second));
    }
    if first.len() == 1 {
        assert(encoded_all(first.drop_last()) =~= seq![]);
        assert(encoded_all(first) =~= encoded(first[0]));
    }
}

/// The virtual mouse has the seven buttons and the six axes of the kernel's
/// codes, each once, and a press or a release of the middle button is what it
/// should be.
pub proof fn law_virtual_mouse_has_what_a_mouse_has()
    ensures
        all_buttons() == seq![0x110u16, 0x111, 0x112, 0x113, 0x114, 0x115, 0x116],
        all_axes() == seq![0u16, 1, 8, 6, 11, 12],
        all_buttons().no_duplicates(),
        all_axes().no_duplicates(),
        key_record(0x112, true) == (InputRecord { kind: 1, code: 0x112, value: 1 }),
        key_record(0x112, false) == (InputRecord { kind: 1, code: 0x112, value: 0 }),
        BTN_MIDDLE == 0x112,
{
}

} // verus!
