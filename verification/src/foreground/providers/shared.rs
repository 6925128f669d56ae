//! What the providers have in common.

use vstd::prelude::*;

use crate::foreground::filter::{AppView, ForegroundApp, ForegroundSourceKind, SnapshotView};
use crate::json::{Json, JsonTree};
use crate::text;
use crate::text::{contains, trim};

verus! {

/// How long provider helper subprocesses (`gdbus`, `kdotool`, the user's
/// `command`) are allowed to run before being killed. Prevents a hung helper
/// from freezing a provider thread forever with a stale snapshot.
pub const HELPER_TIMEOUT_MS: u64 = 5000;

/// Interval between two looks at a helper that is still running.
pub const WAIT_POLL_INTERVAL_MS: u64 = 10;

/// Pause before the first reconnect, and the longest pause.
pub const BACKOFF_START_MS: u64 = 250;

pub const BACKOFF_MAX_MS: u64 = 2000;

/// What became of a helper process.
#[derive(Debug)]
pub enum HelperRun {
    /// It could not be started or waited for.
    Failed { error: String },
    /// It ran for too long and was killed.
    TimedOut,
    /// It ended, with this status and this output.
    Exited { success: bool, status: String, stdout: Vec<u8>, stderr: Vec<u8> },
}

/// What to do about a helper that was just looked at.
#[derive(Debug, Clone, Copy, PartialEq, Eq, Structural)]
pub enum WaitStep {
    /// It ended: collect its output.
    Collect,
    /// Its time is over: kill it.
    Kill,
    /// Look again after a while.
    Sleep,
}

/// What comes next for a helper.
pub open spec fn next_wait(exited: bool, elapsed_ms: u64, timeout_ms: u64) -> WaitStep {
    if exited {
        WaitStep::Collect
    } else if elapsed_ms >= timeout_ms {
        WaitStep::Kill
    } else {
        WaitStep::Sleep
    }
}

/// What to do about a helper after `elapsed_ms`: a helper that has ended is
/// heard even when its time is over.
pub fn wait_step(exited: bool, elapsed_ms: u64, timeout_ms: u64) -> (r: WaitStep)
    ensures
        r == next_wait(exited, elapsed_ms, timeout_ms),
        r == (if exited {
            WaitStep::Collect
        } else if elapsed_ms >= timeout_ms {
            WaitStep::Kill
        } else {
            WaitStep::Sleep
        }),
{
    if exited {
        WaitStep::Collect
    } else if elapsed_ms >= timeout_ms {
        WaitStep::Kill
    } else {
        WaitStep::Sleep
    }
}

/// The pause after a pause of `ms`.
pub open spec fn longer_pause(ms: int) -> int {
    if ms * 2 <= BACKOFF_MAX_MS {
        ms * 2
    } else {
        BACKOFF_MAX_MS as int
    }
}

/// The next pause: twice as long, up to the longest pause.
pub fn next_backoff(ms: u64) -> (r: u64)
    ensures
        r == longer_pause(ms as int),
{
    if ms <= BACKOFF_MAX_MS / 2 {
        ms * 2
    } else {
        BACKOFF_MAX_MS
    }
}

/// Pauses grow and never exceed the longest pause.
pub proof fn law_backoff_grows_to_a_limit(ms: int)
    requires
        BACKOFF_START_MS <= ms <= BACKOFF_MAX_MS,
    ensures
        ms <= longer_pause(ms) <= BACKOFF_MAX_MS,
        ms < BACKOFF_MAX_MS ==> ms < longer_pause(ms),
{
}

/// The pause between two polls: as configured, but no shorter than `floor_ms`.
pub fn refresh_interval(refresh_ms: u64, floor_ms: u64) -> (r: u64)
    ensures
        r >= refresh_ms && r >= floor_ms,
        r == refresh_ms || r == floor_ms,
        r == (if refresh_ms >= floor_ms { refresh_ms } else { floor_ms }),
{
    if refresh_ms >= floor_ms {
        refresh_ms
    } else {
        floor_ms
    }
}

/// Whether a helper could be run to its end at all, whatever its status.
pub fn helper_available(run: &HelperRun) -> (r: bool)
    ensures
        r == (run is Exited),
{
    match run {
        HelperRun::Exited { .. } => true,
        _ => false,
    }
}

/// What a bus query says of the owner of a name.
pub open spec fn owned(run: HelperRun) -> bool {
    match run {
        HelperRun::Exited { success, stdout, .. } => success && text::found(
            text::lossy_text(stdout@),
            "true"@,
        ) is Some,
        _ => false,
    }
}

/// True when the `NameHasOwner` query answered that the name has an owner on
/// the session bus. A missing helper, a failed call, or a timeout is treated as
/// "not owned". Shared by the GNOME and KDE providers.
pub fn name_has_owner(run: &HelperRun) -> (r: bool)
    ensures
        r == owned(*run),
{
    match run {
        HelperRun::Exited { success, stdout, .. } => *success && says_true(
            text::read_lossy(stdout.as_slice()).as_str(),
        ),
        _ => false,
    }
}

/// Whether a bus reply says true.
pub fn says_true(reply: &str) -> (r: bool)
    ensures
        r == (text::found(reply@, "true"@) is Some),
{
    contains(reply, "true")
}

/// The text of a field without the white space around it; none where nothing
/// is left.
pub open spec fn trimmed_field(tree: JsonTree, key: Seq<char>) -> Option<Seq<char>> {
    match tree.text_field(key) {
        Some(s) => if text::trimmed(s).len() > 0 {
            Some(text::trimmed(s))
        } else {
            None
        },
        None => None,
    }
}

/// The process id, where it is one.
pub open spec fn pid_field(tree: JsonTree) -> Option<u32> {
    match tree.u64_field("pid"@) {
        Some(pid) => if pid <= u32::MAX {
            Some(pid as u32)
        } else {
            None
        },
        None => None,
    }
}

/// The application that a JSON object describes.
pub open spec fn described_app(tree: JsonTree, source: ForegroundSourceKind) -> AppView {
    AppView {
        app_id: trimmed_field(tree, "app_id"@),
        class: trimmed_field(tree, "class"@),
        resource_class: trimmed_field(tree, "resource_class"@),
        title: trimmed_field(tree, "title"@),
        pid: pid_field(tree),
        source,
    }
}

fn text_of_field(v: &Json, key: &str) -> (r: Option<String>)
    ensures
        text::text_of(r) == trimmed_field(v@, key@),
{
    match v.text_field(key) {
        Some(s) => {
            let trimmed: &str = trim(s);
            if trimmed.is_empty() {
                None
            } else {
                Some(trimmed.to_owned())
            }
        },
        None => None,
    }
}

/// The process id of a window report.
pub(crate) fn pid_of(v: &Json) -> (r: Option<u32>)
    ensures
        r == pid_field(v@),
{
    match v.u64_field("pid") {
        Some(pid) => {
            if pid <= u32::MAX as u64 {
                Some(pid as u32)
            } else {
                None
            }
        },
        None => None,
    }
}

/// Builds a [`ForegroundApp`] from a JSON object shared by the `command` and
/// `gnome` providers: `{app_id, class, resource_class, title, pid}`.
pub fn json_to_app(v: &Json, source: ForegroundSourceKind) -> (r: ForegroundApp)
    ensures
        r@ == described_app(v@, source),
{
    ForegroundApp {
        app_id: text_of_field(v, "app_id"),
        class: text_of_field(v, "class"),
        resource_class: text_of_field(v, "resource_class"),
        title: text_of_field(v, "title"),
        pid: pid_of(v),
        source,
    }
}

/// A pause is doubled until it would exceed two seconds, which it never does; the
/// first one is a quarter of a second.
pub proof fn law_pauses_double(ms: int)
    requires
        0 <= ms,
    ensures
        ms <= 1000 ==> longer_pause(ms) == ms + ms,
        ms > 1000 ==> longer_pause(ms) == 2000,
        BACKOFF_START_MS == 250,
{
}

/// Whether a field of an application is what a JSON object says under a key: the
/// text without white space around it, and none where there is no text or
/// nothing is left of it.
pub open spec fn says(tree: JsonTree, key: Seq<char>, field: Option<Seq<char>>) -> bool {
    match tree.text_field(key) {
        Some(s) => if text::trimmed(s).len() == 0 {
            field is None
        } else {
            field == Some(text::trimmed(s))
        },
        None => field is None,
    }
}

/// Every field of an application comes from the entry of its own name, and the
/// process id only where it fits.
pub proof fn law_objects_are_read_by_name(tree: JsonTree, source: ForegroundSourceKind)
    ensures
        says(tree, "app_id"@, described_app(tree, source).app_id),
        says(tree, "class"@, described_app(tree, source).class),
        says(tree, "resource_class"@, described_app(tree, source).resource_class),
        says(tree, "title"@, described_app(tree, source).title),
        described_app(tree, source).source == source,
        match tree.u64_field("pid"@) {
            Some(pid) => if pid < 0x1_0000_0000 {
                described_app(tree, source).pid == Some(pid as u32)
            } else {
                described_app(tree, source).pid is None
            },
            None => described_app(tree, source).pid is None,
        },
{
}

/// A name is owned only where the query ran to its end, succeeded and answered
/// with a text that has a `true` in it.
pub proof fn law_owners_answer(run: HelperRun)
    ensures
        run is Failed || run is TimedOut ==> !owned(run),
        run matches HelperRun::Exited { success, stdout, .. } ==> (owned(run) <==> success
            && exists|i: int|
            0 <= i && i + "true"@.len() <= text::lossy_text(stdout@).len()
                && #[trigger] text::lossy_text(stdout@).subrange(i, i + "true"@.len())
                == "true"@),
{
    if let HelperRun::Exited { success, stdout, .. } = run {
        text::law_first_place_is_found(text::lossy_text(stdout@), "true"@);
        if let Some(i) = text::found(text::lossy_text(stdout@), "true"@) {
            assert(text::lossy_text(stdout@).subrange(i, i + "true"@.len()) == "true"@);
        }
    }
}

/// A helper is killed only where it still runs after its time, its output is
/// collected exactly where it has ended, and otherwise it is given more time.
pub proof fn law_helpers_get_their_time(exited: bool, elapsed_ms: u64, timeout_ms: u64)
    ensures
        next_wait(exited, elapsed_ms, timeout_ms) == WaitStep::Collect <==> exited,
        next_wait(exited, elapsed_ms, timeout_ms) == WaitStep::Kill <==> !exited && elapsed_ms
            >= timeout_ms,
        next_wait(exited, elapsed_ms, timeout_ms) == WaitStep::Sleep <==> !exited && elapsed_ms
            < timeout_ms,
{
}

/// What is known after some source told of an application, or of none.
pub open spec fn told(latest: SnapshotView, app: Option<AppView>) -> SnapshotView {
    match app {
        Some(app) => SnapshotView::Known(app),
        None => latest,
    }
}

/// An application that is told of is the one that is known from then on; where
/// none is told of, what was known stays known.
pub proof fn law_the_latest_counts(latest: SnapshotView, app: Option<AppView>)
    ensures
        app matches Some(app) ==> told(latest, Some(app)) == SnapshotView::Known(app),
        app is None ==> told(latest, app) == latest,
{
}

} // verus!
