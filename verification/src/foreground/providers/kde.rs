//! KDE Plasma (`KWin`) provider.
//!
//! `KWin` (Wayland) exposes no readable D-Bus API for the focused window, so
//! this provider goes by what the `kdotool` helper prints, polled in the
//! background like the `command` provider's command.

use vstd::prelude::*;

use super::shared;
use super::shared::HelperRun;
use crate::foreground::filter::{
    AppView, ForegroundApp, ForegroundProvider, ForegroundSnapshot, ForegroundSourceKind,
    SnapshotView,
};
use crate::text;
use crate::text::{ends_with, joined, lines, read_lossy, starts_with, trim};

verus! {

/// `KWin`'s well-known session-bus name; present whenever a Plasma/`KWin`
/// session is running and reachable from this process.
pub const KWIN_BUS_NAME: &'static str = "org.kde.KWin";

/// Floor for the poll interval to avoid a busy loop on a misconfigured `0`.
pub const MIN_REFRESH_MS: u64 = 100;

/// Tracks what `kdotool` last said.
#[derive(Debug)]
pub struct KdeProvider {
    latest: ForegroundSnapshot,
}

/// Whether a line is a window id: `{uuid}`.
pub open spec fn window_id(s: Seq<char>) -> bool {
    "{"@.is_prefix_of(s) && "}"@.is_suffix_of(s)
}

/// The last of `lines` that names a class, without white space around it.
pub open spec fn last_class(lines: Seq<Seq<char>>) -> Option<Seq<char>>
    decreases lines.len(),
{
    if lines.len() == 0 {
        None
    } else {
        let line = text::trimmed(lines.last());
        if line.len() > 0 && !window_id(line) {
            Some(line)
        } else {
            last_class(lines.drop_last())
        }
    }
}

/// The class that `kdotool` printed.
pub open spec fn printed_class(stdout: Seq<char>) -> Option<Seq<char>> {
    last_class(text::lines_of(stdout))
}

/// The application of a class.
pub open spec fn class_app(class: Seq<char>) -> AppView {
    AppView {
        app_id: None,
        class: Some(class),
        resource_class: Some(class),
        title: None,
        pid: None,
        source: ForegroundSourceKind::Kde,
    }
}

/// What a run of `kdotool` says.
pub open spec fn run_snapshot(run: HelperRun) -> SnapshotView {
    match run {
        HelperRun::Failed { error } => SnapshotView::Unknown {
            reason: "failed to run kdotool: "@ + error@,
        },
        HelperRun::TimedOut => SnapshotView::Unknown { reason: "kdotool timed out (killed)"@ },
        HelperRun::Exited { success, status, stdout, .. } => if success {
            match printed_class(text::lossy_text(stdout@)) {
                Some(class) => SnapshotView::Known(class_app(class)),
                None => SnapshotView::Unknown { reason: "kdotool reported no active window"@ },
            }
        } else {
            SnapshotView::Unknown { reason: "kdotool exited with "@ + status@ }
        },
    }
}

/// True when `KWin` is on the session bus **and** `kdotool` is available: both
/// are required for this provider to resolve anything, so `auto` only selects KDE
/// when it can actually work (otherwise it falls through to `command`/`none`).
#[must_use]
pub fn is_available(owner_query: &HelperRun, kdotool_help: &HelperRun) -> (r: bool)
    ensures
        r == (shared::owned(*owner_query) && kdotool_help is Exited),
{
    shared::name_has_owner(owner_query) && shared::helper_available(kdotool_help)
}

impl KdeProvider {
    pub closed spec fn spec_latest(self) -> SnapshotView {
        self.latest@
    }

    /// A provider that has heard nothing yet; one without `kdotool` never will.
    pub fn start(kdotool_help: &HelperRun) -> (r: KdeProvider)
        ensures
            r.spec_latest() == (if kdotool_help is Exited {
                SnapshotView::Unknown { reason: "kde provider starting"@ }
            } else {
                SnapshotView::Unsupported {
                    reason: "kdotool not found (install kdotool for KDE support)"@,
                }
            }),
    {
        let latest: ForegroundSnapshot = if shared::helper_available(kdotool_help) {
            ForegroundSnapshot::Unknown { reason: "kde provider starting".to_owned() }
        } else {
            ForegroundSnapshot::Unsupported {
                reason: "kdotool not found (install kdotool for KDE support)".to_owned(),
            }
        };
        KdeProvider { latest }
    }

    /// Notes that `kdotool` cannot be polled in the background.
    pub fn spawn_failed(&mut self, error: &str)
        ensures
            final(self).spec_latest() == (SnapshotView::Unsupported {
                reason: "failed to spawn kde thread: "@ + error@,
            }),
    {
        self.latest = ForegroundSnapshot::Unsupported {
            reason: joined("failed to spawn kde thread: ", error),
        };
    }

    /// Notes what a run of `kdotool` said.
    pub fn observe(&mut self, run: &HelperRun)
        ensures
            final(self).spec_latest() == run_snapshot(*run),
    {
        self.latest = snapshot_of_run(run);
    }
}

impl ForegroundProvider for KdeProvider {
    open spec fn may_show(&self, snapshot: SnapshotView) -> bool {
        snapshot == self.spec_latest()
    }

    fn snapshot(&self) -> (r: ForegroundSnapshot)
        ensures
            r@ == self.spec_latest(),
    {
        self.latest.clone()
    }
}

/// What a run of `kdotool` says.
pub fn snapshot_of_run(run: &HelperRun) -> (r: ForegroundSnapshot)
    ensures
        r@ == run_snapshot(*run),
{
    match run {
        HelperRun::Failed { error } => ForegroundSnapshot::Unknown {
            reason: joined("failed to run kdotool: ", error.as_str()),
        },
        HelperRun::TimedOut => ForegroundSnapshot::Unknown {
            reason: "kdotool timed out (killed)".to_owned(),
        },
        HelperRun::Exited { success, status, stdout, .. } => {
            if *success {
                match parse_class_output(read_lossy(stdout.as_slice()).as_str()) {
                    Some(class) => ForegroundSnapshot::Known(app_from_class(class.as_str())),
                    None => ForegroundSnapshot::Unknown {
                        reason: "kdotool reported no active window".to_owned(),
                    },
                }
            } else {
                ForegroundSnapshot::Unknown {
                    reason: joined("kdotool exited with ", status.as_str()),
                }
            }
        },
    }
}

/// Builds a [`ForegroundApp`] from a `KWin` resource class. The same value is
/// used for `class` and `resource_class` (`kdotool` returns the WM resource
/// class, which for native KDE apps is typically the desktop id, e.g.
/// `org.kde.dolphin`, and the WM class for X/`XWayland` apps, e.g. `firefox`).
/// `app_id` is left unset because `kdotool` does not expose the native Wayland
/// `app_id` distinctly.
pub fn app_from_class(class: &str) -> (r: ForegroundApp)
    ensures
        r@ == class_app(class@),
{
    ForegroundApp {
        app_id: None,
        class: Some(class.to_owned()),
        resource_class: Some(class.to_owned()),
        title: None,
        pid: None,
        source: ForegroundSourceKind::Kde,
    }
}

/// Parses `kdotool getactivewindow getwindowclassname` stdout. The class is the
/// last meaningful line; a window-id line (`{uuid}`) or empty output means no
/// resolvable active window.
#[must_use]
pub fn parse_class_output(stdout: &str) -> (r: Option<String>)
    ensures
        text::text_of(r) == printed_class(stdout@),
{
    let all: Vec<&str> = lines(stdout);
    let ghost every = text::slices(all@);
    let mut left: usize = all.len();
    assert(every.take(left as int) =~= every);
    while left > 0
        invariant
            left <= all@.len(),
            every == text::slices(all@),
            every == text::lines_of(stdout@),
            last_class(every) == last_class(every.take(left as int)),
        decreases left,
    {
        let line: &str = trim(all[left - 1]);
        assert(every.take(left as int).last() == all@[left - 1]@);
        if !line.is_empty() && !is_window_id(line) {
            return Some(line.to_owned());
        }
        assert(every.take(left as int).drop_last() =~= every.take(left - 1));
        left -= 1;
    }
    None
}

/// `kdotool` prints `KWin` window ids as `{uuid}`; that is never a real class
/// name.
pub fn is_window_id(s: &str) -> (r: bool)
    ensures
        r == window_id(s@),
{
    starts_with(s, "{") && ends_with(s, "}")
}

/// A class that comes out of `kdotool` is never empty and never a window id.
pub proof fn law_class_is_meaningful(lines: Seq<Seq<char>>)
    ensures
        last_class(lines) matches Some(class) ==> class.len() > 0 && !window_id(class),
    decreases lines.len(),
{
    if lines.len() > 0 {
        law_class_is_meaningful(lines.drop_last());
    }
}

/// The class is the last line that is neither empty nor a window id, without the
/// white space around it; there is none only where every line is one or the
/// other.
pub proof fn law_last_meaningful_line_counts(lines: Seq<Seq<char>>)
    ensures
        last_class(lines) matches Some(class) ==> exists|i: int|
            0 <= i < lines.len() && text::trimmed(#[trigger] lines[i]) == class && no_class_after(
                lines,
                i,
            ) && !meaningless(lines[i]),
        last_class(lines) is None <==> no_class_after(lines, -1),
    decreases lines.len(),
{
    if lines.len() > 0 {
        let n = lines.len() - 1;
        let before = lines.drop_last();
        law_last_meaningful_line_counts(before);
        lemma_window_ids(text::trimmed(lines[n]));
        assert(lines.last() == lines[n]);
        if meaningless(lines[n]) {
            if let Some(class) = last_class(before) {
                let i = choose|i: int|
                    0 <= i < before.len() && text::trimmed(#[trigger] before[i]) == class
                        && no_class_after(before, i) && !meaningless(before[i]);
                assert(lines[i] == before[i]);
                assert forall|j: int| i < j < lines.len() implies meaningless(
                    #[trigger] lines[j],
                ) by {
                    if j < n {
                        assert(meaningless(before[j]));
                    }
                }
                assert(no_class_after(lines, i));
                assert(!no_class_after(lines, -1));
            } else {
                assert forall|j: int| -1 < j < lines.len() implies meaningless(
                    #[trigger] lines[j],
                ) by {
                    if j < n {
                        assert(meaningless(before[j]));
                    }
                }
            }
        } else {
            assert(no_class_after(lines, n));
            assert(!no_class_after(lines, -1));
        }
    }
}

/// Whether a line names no class: nothing but white space, or a text in braces.
pub open spec fn meaningless(line: Seq<char>) -> bool {
    let t = text::trimmed(line);
    t.len() == 0 || t[0] == '{' && t.last() == '}'
}

/// Whether no line after `i` names a class.
pub open spec fn no_class_after(lines: Seq<Seq<char>>, i: int) -> bool {
    forall|j: int| i < j < lines.len() ==> meaningless(#[trigger] lines[j])
}

proof fn lemma_window_ids(s: Seq<char>)
    ensures
        window_id(s) <==> s.len() > 0 && s[0] == '{' && s.last() == '}',
{
    reveal_strlit("{");
    reveal_strlit("}");
    if window_id(s) {
        assert(s[0] == "{"@[0]);
        assert(s.last() == "}"@[0]);
    }
    if s.len() > 0 && s[0] == '{' && s.last() == '}' {
        assert(s.take(1) =~= "{"@);
        assert(s.skip(s.len() - 1) =~= "}"@);
    }
}

/// The class that was printed serves as the class and as the resource class of
/// the application, of which nothing else is known; a run that failed, or that
/// printed no class, leaves it unknown.
pub proof fn law_runs_tell_of_the_class(run: HelperRun)
    ensures
        match run {
            HelperRun::Exited { success, stdout, .. } => match printed_class(
                text::lossy_text(stdout@),
            ) {
                Some(class) => if success {
                    run_snapshot(run) matches SnapshotView::Known(app) && {
                        &&& app.class == Some(class)
                        &&& app.resource_class == Some(class)
                        &&& app.app_id is None
                        &&& app.title is None
                        &&& app.pid is None
                        &&& app.source == ForegroundSourceKind::Kde
                    }
                } else {
                    run_snapshot(run) is Unknown
                },
                None => run_snapshot(run) is Unknown,
            },
            _ => run_snapshot(run) is Unknown,
        },
{
}

} // verus!
