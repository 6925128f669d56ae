//! Hyprland provider: follows the `.socket2.sock` event stream and tracks the
//! active window from `activewindow` lines.
//!
//! The socket is found even without `HYPRLAND_INSTANCE_SIGNATURE`: that variable
//! is set inside Hyprland's own children but is usually absent from a
//! `systemd --user` service environment. When it is missing, the runtime
//! directories are scanned for a live `.socket2.sock` instead.

use vstd::prelude::*;

use super::shared::{next_backoff, BACKOFF_MAX_MS, BACKOFF_START_MS};
use crate::foreground::filter;
use crate::foreground::filter::{
    AppView, ForegroundApp, ForegroundProvider, ForegroundSnapshot, ForegroundSourceKind,
    SnapshotView,
};
use crate::paths::join_path;
use crate::text;
use crate::text::{joined, same, split_once, trim};

verus! {

pub const SOCKET2_NAME: &'static str = ".socket2.sock";

/// Tracks the active window, and the pause before the next reconnect.
#[derive(Debug)]
pub struct HyprlandProvider {
    latest: ForegroundSnapshot,
    backoff_ms: u64,
}

/// A part of an event's data without white space around it; none where nothing
/// is left.
pub open spec fn part(s: Seq<char>) -> Option<Seq<char>> {
    if text::trimmed(s).len() > 0 {
        Some(text::trimmed(s))
    } else {
        None
    }
}

/// The application that the data of an `activewindow` event names.
pub open spec fn window_app(data: Seq<char>) -> AppView {
    let (class, title) = match text::halves(data, ","@) {
        Some((class, title)) => (part(class), part(title)),
        None => (part(data), None),
    };
    AppView {
        app_id: None,
        class,
        resource_class: None,
        title,
        pid: None,
        source: ForegroundSourceKind::Hyprland,
    }
}

/// What a line of the event stream says.
pub open spec fn event_app(line: Seq<char>) -> Option<AppView> {
    match text::halves(line, ">>"@) {
        Some((event, data)) => if event == "activewindow"@ {
            Some(window_app(data))
        } else {
            None
        },
        None => None,
    }
}

/// True when a Hyprland event socket can be located (via the instance
/// signature or by scanning the runtime directories) and is there.
#[must_use]
pub fn is_available(socket_exists: Option<bool>) -> (r: bool)
    ensures
        r == (socket_exists == Some(true)),
{
    match socket_exists {
        Some(exists) => exists,
        None => false,
    }
}

/// The directories that may hold instance directories: the one in the runtime
/// directory, where that is known, and the legacy location used by older
/// Hyprland releases.
pub fn hypr_base_dirs(runtime_dir: Option<&str>) -> (r: Vec<String>)
    ensures
        text::texts(r@) == (match runtime_dir {
            Some(dir) => if dir@.len() > 0 {
                seq![crate::paths::joined_path(dir@, "hypr"@), "/tmp/hypr"@]
            } else {
                seq!["/tmp/hypr"@]
            },
            None => seq!["/tmp/hypr"@],
        }),
{
    let mut dirs: Vec<String> = Vec::new();
    match runtime_dir {
        Some(dir) => {
            if !dir.is_empty() {
                dirs.push(join_path(dir, "hypr"));
            }
        },
        None => {},
    }
    dirs.push("/tmp/hypr".to_owned());
    assert(text::texts(dirs@) =~= (match runtime_dir {
        Some(dir) => if dir@.len() > 0 {
            seq![crate::paths::joined_path(dir@, "hypr"@), "/tmp/hypr"@]
        } else {
            seq!["/tmp/hypr"@]
        },
        None => seq!["/tmp/hypr"@],
    }));
    dirs
}

/// The socket of the instance with the given signature, in a base directory.
pub open spec fn socket_in(base: Seq<char>, instance: Seq<char>) -> Seq<char> {
    crate::paths::joined_path(crate::paths::joined_path(base, instance), ".socket2.sock"@)
}

/// The sockets that an instance signature stands for, in the order in which
/// they are tried. An empty signature stands for none.
pub fn signature_sockets(bases: &[String], signature: Option<&str>) -> (r: Vec<String>)
    ensures
        text::texts(r@) == (match signature {
            Some(his) => if his@.len() > 0 {
                text::texts(bases@).map_values(|base: Seq<char>| socket_in(base, his@))
            } else {
                seq![]
            },
            None => seq![],
        }),
{
    let mut out: Vec<String> = Vec::new();
    assert(text::texts(out@) =~= seq![]);
    let his: &str = match signature {
        Some(his) => his,
        None => {
            return out;
        },
    };
    if his.is_empty() {
        return out;
    }
    let mut i: usize = 0;
    while i < bases.len()
        invariant
            i <= bases@.len(),
            out@.len() == i,
            forall|j: int|
                0 <= j < i ==> (#[trigger] out@[j])@ == socket_in(bases@[j]@, his@),
        decreases bases@.len() - i,
    {
        let dir: String = join_path(bases[i].as_str(), his);
        out.push(join_path(dir.as_str(), SOCKET2_NAME));
        i += 1;
    }
    assert(text::texts(out@) =~= text::texts(bases@).map_values(
        |base: Seq<char>| socket_in(base, his@),
    ));
    out
}

impl HyprlandProvider {
    pub closed spec fn spec_latest(self) -> SnapshotView {
        self.latest@
    }

    /// The pause before the next reconnect.
    pub closed spec fn spec_backoff(self) -> int {
        self.backoff_ms as int
    }

    /// A provider that has heard nothing yet.
    pub fn start() -> (r: HyprlandProvider)
        ensures
            r.spec_latest() == (SnapshotView::Unknown { reason: "hyprland provider starting"@ }),
            r.spec_backoff() == BACKOFF_START_MS,
    {
        HyprlandProvider {
            latest: ForegroundSnapshot::Unknown {
                reason: "hyprland provider starting".to_owned(),
            },
            backoff_ms: BACKOFF_START_MS,
        }
    }

    /// Notes that the stream cannot be followed in the background.
    pub fn spawn_failed(&mut self, error: &str)
        ensures
            final(self).spec_latest() == (SnapshotView::Unsupported {
                reason: "failed to spawn hyprland thread: "@ + error@,
            }),
            final(self).spec_backoff() == old(self).spec_backoff(),
    {
        self.latest = ForegroundSnapshot::Unsupported {
            reason: joined("failed to spawn hyprland thread: ", error),
        };
    }

    /// Notes that there is no socket, and says how long to wait before looking
    /// again.
    pub fn socket_missing(&mut self) -> (pause_ms: u64)
        ensures
            pause_ms == BACKOFF_MAX_MS,
            final(self).spec_latest() == (SnapshotView::Unsupported {
                reason:
                    "no hyprland event socket found (HYPRLAND_INSTANCE_SIGNATURE unset and no live instance in the runtime dir)"@,
            }),
            final(self).spec_backoff() == old(self).spec_backoff(),
    {
        self.latest = ForegroundSnapshot::Unsupported {
            reason:
                "no hyprland event socket found (HYPRLAND_INSTANCE_SIGNATURE unset and no live instance in the runtime dir)".to_owned(),
        };
        BACKOFF_MAX_MS
    }

    /// Notes a line of the stream. Only a stream that actually delivers data
    /// counts as healthy: the pause starts over with it.
    pub fn observe_line(&mut self, line: &str)
        ensures
            final(self).spec_latest() == (match event_app(line@) {
                Some(app) => SnapshotView::Known(app),
                None => old(self).spec_latest(),
            }),
            final(self).spec_latest() == super::shared::told(
                old(self).spec_latest(),
                event_app(line@),
            ),
            final(self).spec_backoff() == BACKOFF_START_MS,
            final(self).spec_backoff() == 250,
    {
        self.backoff_ms = BACKOFF_START_MS;
        match parse_event_line(line) {
            Some(app) => {
                self.latest = ForegroundSnapshot::Known(app);
            },
            None => {},
        }
    }

    /// The stream ended or could not be opened: says how long to wait before
    /// the next attempt.
    pub fn stream_ended(&mut self) -> (pause_ms: u64)
        ensures
            pause_ms == old(self).spec_backoff(),
            final(self).spec_backoff() == super::shared::longer_pause(old(self).spec_backoff()),
            final(self).spec_latest() == old(self).spec_latest(),
    {
        let pause_ms: u64 = self.backoff_ms;
        self.backoff_ms = next_backoff(pause_ms);
        pause_ms
    }
}

impl ForegroundProvider for HyprlandProvider {
    open spec fn may_show(&self, snapshot: SnapshotView) -> bool {
        snapshot == self.spec_latest()
    }

    fn snapshot(&self) -> (r: ForegroundSnapshot)
        ensures
            r@ == self.spec_latest(),
    {
        self.latest.clone()
    }
}

/// Parses a single `.socket2.sock` line. Returns an app only for `activewindow`
/// events, whose data is `WINDOWCLASS,WINDOWTITLE` (the title may itself
/// contain commas, so only the first comma is treated as the separator).
#[must_use]
pub fn parse_event_line(line: &str) -> (r: Option<ForegroundApp>)
    ensures
        filter::app_of(r) == event_app(line@),
{
    match split_once(line, ">>") {
        Some((event, data)) => {
            if !same(event, "activewindow") {
                return None;
            }
            let (class, title): (Option<String>, Option<String>) = match split_once(data, ",") {
                Some((class, title)) => (trimmed_part(class), trimmed_part(title)),
                None => (trimmed_part(data), None),
            };
            Some(
                ForegroundApp {
                    app_id: None,
                    class,
                    resource_class: None,
                    title,
                    pid: None,
                    source: ForegroundSourceKind::Hyprland,
                },
            )
        },
        None => None,
    }
}

fn trimmed_part(s: &str) -> (r: Option<String>)
    ensures
        text::text_of(r) == part(s@),
{
    let trimmed: &str = trim(s);
    if trimmed.is_empty() {
        None
    } else {
        Some(trimmed.to_owned())
    }
}

/// An `activewindow` line tells of the class before the first comma and of the
/// title after it, both without the white space around them, and of nothing
/// else; a part of which nothing is left is not known. Commas in the title stay
/// in it.
pub proof fn law_active_window_lines(class: Seq<char>, title: Seq<char>)
    requires
        !class.contains(','),
    ensures
        event_app("activewindow>>"@ + class + ","@ + title) matches Some(app) && {
            &&& text::trimmed(class).len() > 0 ==> app.class == Some(text::trimmed(class))
            &&& text::trimmed(class).len() == 0 ==> app.class is None
            &&& text::trimmed(title).len() > 0 ==> app.title == Some(text::trimmed(title))
            &&& text::trimmed(title).len() == 0 ==> app.title is None
            &&& app.app_id is None
            &&& app.resource_class is None
            &&& app.pid is None
            &&& app.source == ForegroundSourceKind::Hyprland
        },
        event_app("activewindow>>"@ + class) matches Some(app) && {
            &&& text::trimmed(class).len() > 0 ==> app.class == Some(text::trimmed(class))
            &&& text::trimmed(class).len() == 0 ==> app.class is None
            &&& app.title is None
            &&& app.app_id is None
            &&& app.resource_class is None
            &&& app.pid is None
            &&& app.source == ForegroundSourceKind::Hyprland
        },
{
    reveal_strlit("activewindow>>");
    reveal_strlit("activewindow");
    reveal_strlit(">>");
    reveal_strlit(",");
    let data = class + ","@ + title;
    lemma_split_at(class, ","@, title);
    lemma_active_window(data);
    assert("activewindow>>"@ + class + ","@ + title =~= "activewindow>>"@ + data);
    lemma_active_window(class);
    text::law_halves_make_the_whole(class, ","@);
    if let Some((before, after)) = text::halves(class, ","@) {
        assert(class[before.len() as int] == ',');
    }
}

/// The data of a line with the name of the event before it.
proof fn lemma_active_window(data: Seq<char>)
    ensures
        event_app("activewindow>>"@ + data) == Some(window_app(data)),
{
    reveal_strlit("activewindow>>");
    reveal_strlit("activewindow");
    reveal_strlit(">>");
    let name = "activewindow"@;
    let line = "activewindow>>"@ + data;
    assert("activewindow>>"@ =~= name + ">>"@);
    assert(line =~= name + ">>"@ + data);
    text::law_halves_make_the_whole(line, ">>"@);
    assert(line.subrange(12, 14) =~= ">>"@);
    let (before, after) = text::halves(line, ">>"@)->0;
    assert(text::halves(line, ">>"@) is Some);
    if before.len() < 12 {
        assert(line[before.len() as int] == (before + ">>"@ + after)[before.len() as int]);
        assert(line[before.len() as int] == '>');
        assert(name[before.len() as int] == '>');
    }
    assert(before.len() == 12);
    assert(before =~= line.take(12));
    assert(line.take(12) =~= name);
    assert(after =~= line.skip(14));
    assert(line.skip(14) =~= data);
}

/// A text splits at the first place where its separator, a single character,
/// stands.
proof fn lemma_split_at(before: Seq<char>, separator: Seq<char>, after: Seq<char>)
    requires
        separator.len() == 1,
        !before.contains(separator[0]),
    ensures
        text::halves(before + separator + after, separator) == Some((before, after)),
{
    let s = before + separator + after;
    let n = before.len() as int;
    text::law_halves_make_the_whole(s, separator);
    assert(s.subrange(n, n + 1) =~= separator);
    let (a, b) = text::halves(s, separator)->0;
    assert(text::halves(s, separator) is Some);
    if a.len() < n {
        assert(s[a.len() as int] == (a + separator + b)[a.len() as int]);
        assert(before[a.len() as int] == separator[0]);
    }
    assert(a.len() == n);
    assert(a =~= s.take(n));
    assert(s.take(n) =~= before);
    assert(b =~= s.skip(n + 1));
    assert(s.skip(n + 1) =~= after);
}

/// Only lines of the event `activewindow` tell of an application: a line tells
/// of none where its event, up to the first `>>`, is another, or where it has no
/// `>>` at all.
pub proof fn law_other_lines_tell_nothing(line: Seq<char>)
    requires
        !"activewindow>>"@.is_prefix_of(line),
    ensures
        event_app(line) is None,
{
    reveal_strlit("activewindow>>");
    reveal_strlit("activewindow");
    reveal_strlit(">>");
    text::law_halves_make_the_whole(line, ">>"@);
    if let Some((event, data)) = text::halves(line, ">>"@) {
        if event == "activewindow"@ {
            assert("activewindow>>"@ =~= "activewindow"@ + ">>"@);
            assert(line.take(14) =~= "activewindow>>"@);
        }
    }
}

} // verus!
