//! GNOME Shell provider.
//!
//! GNOME (Wayland) deliberately exposes no portable API for the focused window,
//! so this provider goes by what the bundled GNOME Shell extension says over the
//! session bus, as printed by `gdbus`:
//!
//! - a low-latency push path: the lines of `gdbus monitor` that carry a
//!   `FocusedChanged` signal;
//! - an authoritative resync path: the periodic answers to `GetFocused`, which
//!   also show when the extension goes away (so `unknown_policy` can take over).

use vstd::prelude::*;

use super::shared;
use super::shared::{json_to_app, next_backoff, HelperRun, BACKOFF_START_MS};
use crate::foreground::filter;
use crate::foreground::filter::{
    AppView, ForegroundApp, ForegroundProvider, ForegroundSnapshot, ForegroundSourceKind,
    SnapshotView,
};
use crate::json;
use crate::json::{parse_text, Json, JsonTree};
use crate::text;
use crate::text::{chars_of, contains, joined, read_lossy, same, trim};

verus! {

pub const BUS_NAME: &'static str = "org.docloulou.WheeltaniForeground";

pub const OBJECT_PATH: &'static str = "/org/docloulou/WheeltaniForeground";

pub const INTERFACE: &'static str = "org.docloulou.WheeltaniForeground";

/// Push updates arrive through `gdbus monitor`, so the resync poll only needs
/// to catch a missed signal or the extension going away; 5s keeps that
/// liveness check while spawning far fewer subprocesses than a tight poll.
pub const RESYNC_INTERVAL_MS: u64 = 5000;

/// Tracks what the extension last said, and the pause before the monitor is
/// started again.
#[derive(Debug)]
pub struct GnomeProvider {
    latest: ForegroundSnapshot,
    backoff_ms: u64,
}

/// What stands in a quoted text up to the closing quote, with escapes undone:
/// a backslash lets the next character stand for itself. Nothing where the
/// closing quote is missing.
pub open spec fn unquoted(s: Seq<char>) -> Option<Seq<char>>
    decreases s.len(),
{
    if s.len() == 0 {
        None
    } else if s[0] == '\'' {
        Some(seq![])
    } else {
        let step: int = if s[0] == '\\' { 1 } else { 0 };
        if step < s.len() {
            match unquoted(s.skip(step + 1)) {
                Some(rest) => Some(seq![s[step]] + rest),
                None => None,
            }
        } else {
            None
        }
    }
}

/// The first quoted text.
pub open spec fn first_quoted(s: Seq<char>) -> Option<Seq<char>>
    decreases s.len(),
{
    if s.len() == 0 {
        None
    } else if s[0] == '\'' {
        unquoted(s.skip(1))
    } else {
        first_quoted(s.skip(1))
    }
}

/// The application that a payload describes; none where no identity field is
/// filled.
pub open spec fn identified(tree: JsonTree) -> Option<AppView> {
    let app = shared::described_app(tree, ForegroundSourceKind::Gnome);
    if app.app_id is None && app.class is None && app.resource_class is None {
        None
    } else {
        Some(app)
    }
}

/// What a payload says. An empty one and an empty object stand for no window.
pub open spec fn payload_app(payload: Seq<char>) -> Option<AppView> {
    let trimmed = text::trimmed(payload);
    if trimmed.len() == 0 || trimmed == "{}"@ {
        None
    } else {
        match json::json_of_text(trimmed) {
            Ok(tree) => identified(tree),
            Err(_) => None,
        }
    }
}

/// What the answer to `GetFocused` says.
pub open spec fn answer_app(output: Seq<char>) -> Option<AppView> {
    match first_quoted(output) {
        Some(payload) => payload_app(payload),
        None => None,
    }
}

/// What a line of the monitor says.
pub open spec fn monitor_app(line: Seq<char>) -> Option<AppView> {
    if text::found(line, "FocusedChanged"@) is Some {
        answer_app(line)
    } else {
        None
    }
}

/// What a call of `GetFocused` came to: the window in front, none, or a
/// complaint.
pub open spec fn call_result(run: HelperRun) -> Result<Option<AppView>, Seq<char>> {
    match run {
        HelperRun::Failed { error } => Err("failed to run gdbus: "@ + error@),
        HelperRun::TimedOut => Err("gdbus call timed out"@),
        HelperRun::Exited { success, stdout, stderr, .. } => if success {
            Ok(answer_app(text::lossy_text(stdout@)))
        } else {
            Err("gdbus call failed: "@ + text::trimmed(text::lossy_text(stderr@)))
        },
    }
}

/// What is known after an answer. A first call that failed changes nothing; a
/// later one that failed leaves nothing known.
pub open spec fn after_answer(
    latest: SnapshotView,
    answer: Result<Option<AppView>, Seq<char>>,
    first: bool,
) -> SnapshotView {
    match answer {
        Ok(app) => shared::told(latest, app),
        Err(reason) => if first {
            latest
        } else {
            SnapshotView::Unknown { reason }
        },
    }
}

/// True when `gdbus` is available and the extension's bus name is currently
/// owned on the session bus. This is the authoritative signal that GNOME and
/// the bundled extension are both running and reachable from THIS process.
///
/// Desktop-environment variables such as `XDG_CURRENT_DESKTOP` deliberately play
/// no part: those are frequently absent from the daemon's `systemd --user`
/// environment even though the session bus is perfectly reachable.
#[must_use]
pub fn is_available(gdbus_help: &HelperRun, owner_query: &HelperRun) -> (r: bool)
    ensures
        r == (gdbus_help is Exited && shared::owned(*owner_query)),
{
    shared::helper_available(gdbus_help) && shared::name_has_owner(owner_query)
}

impl GnomeProvider {
    pub closed spec fn spec_latest(self) -> SnapshotView {
        self.latest@
    }

    /// The pause before the monitor is started again.
    pub closed spec fn spec_backoff(self) -> int {
        self.backoff_ms as int
    }

    /// A provider that has heard nothing yet; one without `gdbus` never will.
    pub fn start(gdbus_help: &HelperRun) -> (r: GnomeProvider)
        ensures
            r.spec_latest() == (if gdbus_help is Exited {
                SnapshotView::Unknown { reason: "gnome provider starting"@ }
            } else {
                SnapshotView::Unsupported { reason: "gdbus not found (install glib2 / gdbus)"@ }
            }),
            r.spec_backoff() == BACKOFF_START_MS,
    {
        let latest: ForegroundSnapshot = if shared::helper_available(gdbus_help) {
            ForegroundSnapshot::Unknown { reason: "gnome provider starting".to_owned() }
        } else {
            ForegroundSnapshot::Unsupported {
                reason: "gdbus not found (install glib2 / gdbus)".to_owned(),
            }
        };
        GnomeProvider { latest, backoff_ms: BACKOFF_START_MS }
    }

    /// Notes the first answer, so the very first gesture already has the
    /// correct decision. A call that failed or found no window changes nothing:
    /// the extension may not be ready.
    pub fn observe_first(&mut self, run: &HelperRun)
        ensures
            final(self).spec_latest() == (match call_result(*run) {
                Ok(Some(app)) => SnapshotView::Known(app),
                _ => old(self).spec_latest(),
            }),
            final(self).spec_latest() == after_answer(
                old(self).spec_latest(),
                call_result(*run),
                true,
            ),
            final(self).spec_backoff() == old(self).spec_backoff(),
    {
        match focused_of_run(run) {
            Ok(Some(app)) => {
                self.latest = ForegroundSnapshot::Known(app);
            },
            _ => {},
        }
    }

    /// Notes a later answer: where the call failed, nothing is known any more.
    pub fn observe_resync(&mut self, run: &HelperRun)
        ensures
            final(self).spec_latest() == (match call_result(*run) {
                Ok(Some(app)) => SnapshotView::Known(app),
                Ok(None) => old(self).spec_latest(),
                Err(reason) => SnapshotView::Unknown { reason },
            }),
            final(self).spec_latest() == after_answer(
                old(self).spec_latest(),
                call_result(*run),
                false,
            ),
            final(self).spec_backoff() == old(self).spec_backoff(),
    {
        match focused_of_run(run) {
            Ok(Some(app)) => {
                self.latest = ForegroundSnapshot::Known(app);
            },
            Ok(None) => {},
            Err(reason) => {
                self.latest = ForegroundSnapshot::Unknown { reason };
            },
        }
    }

    /// Notes a line of the monitor. Only a monitor that actually produces output
    /// counts as healthy: the pause starts over with it.
    pub fn observe_line(&mut self, line: &str)
        ensures
            final(self).spec_latest() == (match monitor_app(line@) {
                Some(app) => SnapshotView::Known(app),
                None => old(self).spec_latest(),
            }),
            final(self).spec_latest() == shared::told(old(self).spec_latest(), monitor_app(line@)),
            final(self).spec_backoff() == BACKOFF_START_MS,
            final(self).spec_backoff() == 250,
    {
        self.backoff_ms = BACKOFF_START_MS;
        match parse_monitor_line(line) {
            Some(app) => {
                self.latest = ForegroundSnapshot::Known(app);
            },
            None => {},
        }
    }

    /// The monitor ended or could not be started: says how long to wait before
    /// the next attempt.
    pub fn monitor_ended(&mut self) -> (pause_ms: u64)
        ensures
            pause_ms == old(self).spec_backoff(),
            final(self).spec_backoff() == shared::longer_pause(old(self).spec_backoff()),
            final(self).spec_latest() == old(self).spec_latest(),
    {
        let pause_ms: u64 = self.backoff_ms;
        self.backoff_ms = next_backoff(pause_ms);
        pause_ms
    }
}

impl ForegroundProvider for GnomeProvider {
    open spec fn may_show(&self, snapshot: SnapshotView) -> bool {
        snapshot == self.spec_latest()
    }

    fn snapshot(&self) -> (r: ForegroundSnapshot)
        ensures
            r@ == self.spec_latest(),
    {
        self.latest.clone()
    }
}

/// What a call of `GetFocused` came to.
pub fn focused_of_run(run: &HelperRun) -> (r: Result<Option<ForegroundApp>, String>)
    ensures
        match r {
            Ok(app) => call_result(*run) == Ok::<Option<AppView>, Seq<char>>(filter::app_of(app)),
            Err(reason) => call_result(*run) == Err::<Option<AppView>, Seq<char>>(reason@),
        },
{
    match run {
        HelperRun::Failed { error } => Err(joined("failed to run gdbus: ", error.as_str())),
        HelperRun::TimedOut => Err("gdbus call timed out".to_owned()),
        HelperRun::Exited { success, stdout, stderr, .. } => {
            if *success {
                Ok(parse_call_output(read_lossy(stdout.as_slice()).as_str()))
            } else {
                let message: String = read_lossy(stderr.as_slice());
                Err(joined("gdbus call failed: ", trim(message.as_str())))
            }
        },
    }
}

/// Extracts and unescapes the first single-quoted `GVariant` string in `s`.
/// `gdbus` prints strings as `'...'` with `\'` and `\\` escapes.
pub fn extract_gvariant_string(s: &str) -> (r: Option<String>)
    ensures
        text::text_of(r) == first_quoted(s@),
{
    let chars: Vec<char> = chars_of(s);
    let mut i: usize = 0;
    assert(s@.skip(0) =~= s@);
    while i < chars.len() && chars[i] != '\''
        invariant
            i <= chars@.len(),
            chars@ == s@,
            first_quoted(s@) == first_quoted(s@.skip(i as int)),
        decreases chars@.len() - i,
    {
        assert(s@.skip(i as int).skip(1) =~= s@.skip(i + 1));
        i += 1;
    }
    if i == chars.len() {
        return None;
    }
    assert(s@.skip(i as int).skip(1) =~= s@.skip(i + 1));
    i += 1;
    let mut out: String = String::new();
    let ghost wanted = unquoted(s@.skip(i as int));
    while i < chars.len()
        invariant
            i <= chars@.len(),
            chars@ == s@,
            first_quoted(s@) == wanted,
            match unquoted(s@.skip(i as int)) {
                Some(rest) => wanted == Some(out@ + rest),
                None => wanted is None,
            },
        decreases chars@.len() - i,
    {
        let ghost here = s@.skip(i as int);
        assert(here[0] == s@[i as int]);
        if chars[i] == '\'' {
            assert(out@ + Seq::<char>::empty() =~= out@);
            return Some(out);
        }
        if chars[i] == '\\' {
            i += 1;
            if i == chars.len() {
                return None;
            }
        }
        let ghost before = out@;
        out.push(chars[i]);
        i += 1;
        proof {
            assert(here.skip(1) =~= s@.skip(i as int) || here.skip(2) =~= s@.skip(i as int));
            if let Some(rest) = unquoted(s@.skip(i as int)) {
                assert(out@ + rest =~= before + (seq![s@[i - 1]] + rest));
            }
        }
    }
    None
}

/// What the JSON object that the extension sent says.
pub fn app_of_payload(value: &Json) -> (r: Option<ForegroundApp>)
    ensures
        filter::app_of(r) == identified(value@),
{
    let app: ForegroundApp = json_to_app(value, ForegroundSourceKind::Gnome);
    if app.app_id.is_none() && app.class.is_none() && app.resource_class.is_none() {
        None
    } else {
        Some(app)
    }
}

fn parse_focused_payload(payload: &str) -> (r: Option<ForegroundApp>)
    ensures
        filter::app_of(r) == payload_app(payload@),
{
    let trimmed: &str = trim(payload);
    if trimmed.is_empty() || same(trimmed, "{}") {
        return None;
    }
    match parse_text(trimmed) {
        Ok(value) => app_of_payload(&value),
        Err(_) => None,
    }
}

/// Parses the JSON payload returned by `GetFocused` (a `GVariant` `(s)` tuple).
#[must_use]
pub fn parse_call_output(output: &str) -> (r: Option<ForegroundApp>)
    ensures
        filter::app_of(r) == answer_app(output@),
{
    match extract_gvariant_string(output) {
        Some(payload) => parse_focused_payload(payload.as_str()),
        None => None,
    }
}

/// Parses a `gdbus monitor` line carrying a `FocusedChanged` signal.
#[must_use]
pub fn parse_monitor_line(line: &str) -> (r: Option<ForegroundApp>)
    ensures
        filter::app_of(r) == monitor_app(line@),
{
    if !contains(line, "FocusedChanged") {
        return None;
    }
    parse_call_output(line)
}

/// A text with a backslash before every quote and backslash.
pub open spec fn escaped(s: Seq<char>) -> Seq<char>
    decreases s.len(),
{
    if s.len() == 0 {
        seq![]
    } else if s[0] == '\'' || s[0] == '\\' {
        seq!['\\', s[0]] + escaped(s.skip(1))
    } else {
        seq![s[0]] + escaped(s.skip(1))
    }
}

/// A text as `gdbus` prints it: escaped, between quotes.
pub open spec fn quoted(s: Seq<char>) -> Seq<char> {
    seq!['\''] + escaped(s) + seq!['\'']
}

/// Whatever `gdbus` quotes is read back as it was, escapes and all, whatever
/// stands before it without a quote and whatever stands after it.
pub proof fn law_quoting_is_undone(prefix: Seq<char>, s: Seq<char>, tail: Seq<char>)
    requires
        !prefix.contains('\''),
    ensures
        first_quoted(prefix + quoted(s) + tail) == Some(s),
{
    lemma_unquoted(s, seq!['\''] + tail);
    let whole = quoted(s) + tail;
    assert(whole.skip(1) =~= escaped(s) + (seq!['\''] + tail));
    assert((seq!['\''] + tail)[0] == '\'');
    assert(s + Seq::<char>::empty() =~= s);
    lemma_prefix_is_passed_over(prefix, whole);
    assert(prefix + quoted(s) + tail =~= prefix + whole);
}

/// A text whose closing quote is missing is none, even where it breaks off
/// behind a backslash; and without any quote there is none either.
pub proof fn law_open_quote_is_none(prefix: Seq<char>, s: Seq<char>)
    requires
        !prefix.contains('\''),
    ensures
        first_quoted(prefix) is None,
        first_quoted(prefix + (seq!['\''] + escaped(s))) is None,
        first_quoted(prefix + (seq!['\''] + escaped(s) + seq!['\\'])) is None,
{
    lemma_prefix_is_passed_over(prefix, seq![]);
    assert(prefix + Seq::<char>::empty() =~= prefix);
    lemma_unquoted(s, seq![]);
    assert(escaped(s) + Seq::<char>::empty() =~= escaped(s));
    let open = seq!['\''] + escaped(s);
    assert(open.skip(1) =~= escaped(s));
    lemma_prefix_is_passed_over(prefix, open);
    lemma_unquoted(s, seq!['\\']);
    let broken = seq!['\''] + escaped(s) + seq!['\\'];
    assert(broken.skip(1) =~= escaped(s) + seq!['\\']);
    lemma_prefix_is_passed_over(prefix, broken);
}

proof fn lemma_prefix_is_passed_over(prefix: Seq<char>, rest: Seq<char>)
    requires
        !prefix.contains('\''),
    ensures
        first_quoted(prefix + rest) == first_quoted(rest),
    decreases prefix.len(),
{
    let whole = prefix + rest;
    if prefix.len() == 0 {
        assert(whole =~= rest);
    } else {
        assert(prefix.contains(prefix[0]));
        assert forall|c: char| prefix.skip(1).contains(c) implies prefix.contains(c) by {
            let i = choose|i: int| 0 <= i < prefix.skip(1).len() && prefix.skip(1)[i] == c;
            assert(prefix[i + 1] == c);
        }
        assert(whole.skip(1) =~= prefix.skip(1) + rest);
        lemma_prefix_is_passed_over(prefix.skip(1), rest);
    }
}

/// An escaped text is read up to what follows it.
proof fn lemma_unquoted(s: Seq<char>, tail: Seq<char>)
    ensures
        unquoted(escaped(s) + tail) == (match unquoted(tail) {
            Some(rest) => Some(s + rest),
            None => None,
        }),
    decreases s.len(),
{
    let whole = escaped(s) + tail;
    if s.len() == 0 {
        assert(whole =~= tail);
        if let Some(rest) = unquoted(tail) {
            assert(s + rest =~= rest);
        }
    } else {
        lemma_unquoted(s.skip(1), tail);
        let rest = escaped(s.skip(1)) + tail;
        if let Some(after) = unquoted(tail) {
            assert(seq![s[0]] + (s.skip(1) + after) =~= s + after);
        }
        if s[0] == '\'' || s[0] == '\\' {
            assert(whole[0] == '\\' && whole[1] == s[0]);
            assert(whole.skip(2) =~= rest);
        } else {
            assert(whole[0] == s[0]);
            assert(whole.skip(1) =~= rest);
        }
    }
}

/// An application is told of only where something identifies it: its id, its
/// class or its resource class. A title or a process id alone does not.
pub proof fn law_windows_need_an_identity(tree: JsonTree)
    ensures
        ({
            let app = shared::described_app(tree, ForegroundSourceKind::Gnome);
            &&& identified(tree) is Some <==> app.app_id is Some || app.class is Some
                || app.resource_class is Some
            &&& identified(tree) is Some ==> identified(tree) == Some(app)
        }),
{
}

/// A payload tells of what the JSON object in it describes; an empty one, an
/// empty object and what is no JSON tell of no window. White space around it
/// plays no part.
pub proof fn law_payloads(payload: Seq<char>)
    ensures
        ({
            let trimmed = text::trimmed(payload);
            &&& trimmed.len() == 0 ==> payload_app(payload) is None
            &&& trimmed == seq!['{', '}'] ==> payload_app(payload) is None
            &&& json::json_of_text(trimmed) is Err ==> payload_app(payload) is None
            &&& trimmed.len() > 0 && trimmed != seq!['{', '}'] ==> (json::json_of_text(
                trimmed,
            ) matches Ok(tree) ==> payload_app(payload) == identified(tree))
        }),
{
    reveal_strlit("{}");
    assert("{}"@ =~= seq!['{', '}']);
}

/// What `gdbus` prints of a payload is read as that payload, in an answer and in
/// a line of the monitor that carries the signal; a line without the signal
/// tells nothing, whatever else it holds.
pub proof fn law_signals_are_read(prefix: Seq<char>, payload: Seq<char>, tail: Seq<char>)
    requires
        !prefix.contains('\''),
    ensures
        ({
            let line = prefix + quoted(payload) + tail;
            let signalled = exists|i: int|
                0 <= i && i + "FocusedChanged"@.len() <= line.len() && #[trigger] line.subrange(
                    i,
                    i + "FocusedChanged"@.len(),
                ) == "FocusedChanged"@;
            &&& answer_app(line) == payload_app(payload)
            &&& signalled ==> monitor_app(line) == payload_app(payload)
            &&& !signalled ==> monitor_app(line) is None
        }),
{
    let line = prefix + quoted(payload) + tail;
    law_quoting_is_undone(prefix, payload, tail);
    text::law_first_place_is_found(line, "FocusedChanged"@);
    if let Some(i) = text::found(line, "FocusedChanged"@) {
        assert(line.subrange(i, i + "FocusedChanged"@.len()) == "FocusedChanged"@);
    }
}

/// A call comes to an answer exactly where it ended with success, and the answer
/// is what it printed; every other end is a complaint.
pub proof fn law_calls_that_fail_are_complaints(run: HelperRun)
    ensures
        call_result(run) is Ok <==> (run matches HelperRun::Exited { success, .. } && success),
        run matches HelperRun::Exited { success: true, stdout, .. } ==> call_result(run) == Ok::<
            Option<AppView>,
            Seq<char>,
        >(answer_app(text::lossy_text(stdout@))),
{
}

/// An answer that names a window makes it known, at any time, and an answer that
/// names none changes nothing, at any time. A failed call makes what was known
/// unknown, with its complaint, but for the first call, which may come too early.
pub proof fn law_answers_are_noted(
    latest: SnapshotView,
    answer: Result<Option<AppView>, Seq<char>>,
    first: bool,
)
    ensures
        answer matches Ok(Some(app)) ==> after_answer(latest, answer, first)
            == SnapshotView::Known(app),
        answer matches Ok(None) ==> after_answer(latest, answer, first) == latest,
        answer matches Err(reason) ==> {
            &&& first ==> after_answer(latest, answer, first) == latest
            &&& !first ==> after_answer(latest, answer, first) == (SnapshotView::Unknown { reason })
        },
{
}

} // verus!
