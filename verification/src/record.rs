//! Input records as the kernel writes them, and the codes of a mouse.

use vstd::prelude::*;

verus! {

/// Record kinds.
pub const EV_KEY: u16 = 0x01;

pub const EV_REL: u16 = 0x02;

/// Button codes.
pub const BTN_LEFT: u16 = 0x110;

pub const BTN_RIGHT: u16 = 0x111;

pub const BTN_MIDDLE: u16 = 0x112;

pub const BTN_SIDE: u16 = 0x113;

pub const BTN_EXTRA: u16 = 0x114;

pub const BTN_FORWARD: u16 = 0x115;

pub const BTN_BACK: u16 = 0x116;

/// Axis codes.
pub const REL_X: u16 = 0x00;

pub const REL_Y: u16 = 0x01;

pub const REL_HWHEEL: u16 = 0x06;

pub const REL_WHEEL: u16 = 0x08;

pub const REL_WHEEL_HI_RES: u16 = 0x0b;

pub const REL_HWHEEL_HI_RES: u16 = 0x0c;

/// One input record: its kind, the code within that kind, and the value.
#[derive(Debug, Clone, Copy, PartialEq, Eq, Structural)]
pub struct InputRecord {
    pub kind: u16,
    pub code: u16,
    pub value: i32,
}

/// What sort of thing a record reports.
#[derive(Debug, Clone, Copy, PartialEq, Eq, Structural)]
pub enum InputSummary {
    Key { code: u16, value: i32 },
    RelativeAxis { code: u16, value: i32 },
    Other,
}

impl InputRecord {
    /// Keys and relative axes are told apart by the record's kind.
    pub open spec fn summary(self) -> InputSummary {
        if self.kind == EV_KEY {
            InputSummary::Key { code: self.code, value: self.value }
        } else if self.kind == EV_REL {
            InputSummary::RelativeAxis { code: self.code, value: self.value }
        } else {
            InputSummary::Other
        }
    }
}

/// `evdev::InputEvent::new` and `evdev::InputEvent::destructure`: an event of
/// the kind `EV_KEY` comes out as a key and one of the kind `EV_REL` as a
/// relative axis, each with the code and the value that went in; every other
/// kind comes out as something else.
#[verifier::external_body]
pub(crate) fn summarize(record: &InputRecord) -> (r: InputSummary)
    ensures
        r == record.summary(),
{
    match evdev::InputEvent::new(record.kind, record.code, record.value).destructure() {
        evdev::EventSummary::Key(_, code, value) => InputSummary::Key { code: code.0, value },
        evdev::EventSummary::RelativeAxis(_, code, value) => {
            InputSummary::RelativeAxis { code: code.0, value }
        },
        _ => InputSummary::Other,
    }
}

} // verus!
