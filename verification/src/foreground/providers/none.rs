//! A provider that never resolves a foreground app. Used where none is wanted
//! and as the fallback when no session is detected.

use vstd::prelude::*;

use crate::foreground::filter::{ForegroundProvider, ForegroundSnapshot, SnapshotView};

verus! {

#[derive(Debug)]
pub struct NoneProvider {
    reason: String,
}

impl NoneProvider {
    /// Why nothing is resolved.
    pub closed spec fn spec_reason(self) -> Seq<char> {
        self.reason@
    }

    pub fn new(reason: String) -> (r: NoneProvider)
        ensures
            r.spec_reason() == reason@,
    {
        NoneProvider { reason }
    }
}

impl ForegroundProvider for NoneProvider {
    open spec fn may_show(&self, snapshot: SnapshotView) -> bool {
        snapshot == (SnapshotView::Unsupported { reason: self.spec_reason() })
    }

    fn snapshot(&self) -> (r: ForegroundSnapshot)
        ensures
            r@ == (SnapshotView::Unsupported { reason: self.spec_reason() }),
    {
        ForegroundSnapshot::Unsupported { reason: self.reason.clone() }
    }
}

} // verus!
