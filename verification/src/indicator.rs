//! The indicator that shows that scroll mode is on.

use vstd::prelude::*;

verus! {

pub const OVERLAY_COMMAND: &'static str = "scrollock-indicator";

pub trait Indicator {
    fn enter_scroll(&mut self) {
    }

    fn exit_scroll(&mut self) {
    }
}

#[derive(Debug, Default)]
pub struct NoopIndicator;

impl Indicator for NoopIndicator {

}

/// What to do about the overlay process.
#[derive(Debug, Clone, Copy, PartialEq, Eq, Structural)]
pub enum OverlayAction {
    Nothing,
    Spawn,
    Kill,
}

/// Whether the overlay process is there.
#[derive(Debug, Clone, Copy, PartialEq, Eq, Structural)]
pub struct OverlayState {
    pub showing: bool,
}

impl OverlayState {
    /// No overlay yet.
    pub fn new() -> (r: OverlayState)
        ensures
            !r.showing,
    {
        OverlayState { showing: false }
    }

    /// Scroll mode begins: an overlay that is already there is kept.
    pub fn enter_scroll(&self) -> (r: OverlayAction)
        ensures
            r == (if self.showing { OverlayAction::Nothing } else { OverlayAction::Spawn }),
    {
        if self.showing {
            OverlayAction::Nothing
        } else {
            OverlayAction::Spawn
        }
    }

    /// The overlay was to be spawned; it is there only where that worked.
    pub fn spawn_tried(&mut self, worked: bool)
        ensures
            final(self).showing == worked,
    {
        self.showing = worked;
    }

    /// Scroll mode ends: an overlay that is there has to go.
    pub fn exit_scroll(&mut self) -> (r: OverlayAction)
        ensures
            r == (if old(self).showing { OverlayAction::Kill } else { OverlayAction::Nothing }),
            !final(self).showing,
    {
        if self.showing {
            self.showing = false;
            OverlayAction::Kill
        } else {
            OverlayAction::Nothing
        }
    }
}

} // verus!
