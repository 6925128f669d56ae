//! Input and output types of the scroll engine.
//!
//! These types carry no reference to a kernel interface, so the engine can be
//! exercised on any host.

use vstd::prelude::*;

verus! {

#[derive(Debug, Clone, Copy, PartialEq, Eq, Hash, Structural)]
pub enum MouseButton {
    Left,
    Right,
    Middle,
    Back,
    Forward,
    Side,
    Extra,
}

#[derive(Debug, Clone, Copy, PartialEq, Eq, Structural)]
pub enum CoreInputEvent {
    MiddleDown,
    MiddleUp,
    LeftDown,
    LeftUp,
    RightDown,
    RightUp,
    Motion { dx: i32, dy: i32 },
    Wheel { vertical: i32, horizontal: i32 },
    WheelHiRes { vertical_units: i32, horizontal_units: i32 },
    Tick { dt_micros: u64 },
}

#[derive(Debug, Clone, Copy, PartialEq, Eq, Structural)]
pub enum CoreAction {
    ForwardMouseButton { button: MouseButton, pressed: bool },
    ForwardMotion { dx: i32, dy: i32 },
    ForwardWheel { vertical: i32, horizontal: i32 },
    EmitWheelDetents { vertical: i32, horizontal: i32 },
    EmitWheelHiRes { vertical_units: i32, horizontal_units: i32 },
    EmitMiddleClick,
    Suppress,
    EnterScrollMode,
    ExitScrollMode,
}

#[derive(Debug, Clone, Copy, PartialEq, Eq, Structural)]
pub enum EngineState {
    Idle,
    MiddlePending,
    Scrolling,
}

} // verus!
