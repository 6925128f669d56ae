//! An external-command provider: a user-configured command is run periodically
//! and its stdout parsed. The command is never run from the input hot path.
//! Intended as the escape hatch for `KWin` and other compositors.

use vstd::prelude::*;

use super::shared;
use super::shared::{json_to_app, HelperRun};
use crate::foreground::filter::{
    AppView, ForegroundApp, ForegroundProvider, ForegroundSnapshot, ForegroundSourceKind,
    SnapshotView,
};
use crate::json;
use crate::json::{parse_text, Json, JsonTree};
use crate::text;
use crate::text::{joined, lines, read_lossy, starts_with, trim};

verus! {

/// Floor for the refresh interval to avoid a busy loop on a misconfigured `0`.
pub const MIN_REFRESH_MS: u64 = 50;

/// Tracks what the command last said.
#[derive(Debug)]
pub struct CommandProvider {
    latest: ForegroundSnapshot,
}

/// What a bare line says: an application id, which also serves as the class.
pub open spec fn bare_app(id: Seq<char>) -> AppView {
    AppView {
        app_id: Some(id),
        class: Some(id),
        resource_class: None,
        title: None,
        pid: None,
        source: ForegroundSourceKind::Command,
    }
}

/// The first line of a text that is not empty, without white space around it.
pub open spec fn first_line(trimmed: Seq<char>) -> Seq<char> {
    if text::lines_of(trimmed).len() > 0 {
        text::trimmed(text::lines_of(trimmed)[0])
    } else {
        seq![]
    }
}

/// What the parser's answer to a JSON object means.
pub open spec fn json_snapshot(parsed: Result<JsonTree, Seq<char>>) -> SnapshotView {
    match parsed {
        Ok(tree) => SnapshotView::Known(shared::described_app(tree, ForegroundSourceKind::Command)),
        Err(message) => SnapshotView::Unknown {
            reason: "invalid JSON from command: "@ + message,
        },
    }
}

/// What the command's output says.
pub open spec fn stdout_snapshot(stdout: Seq<char>) -> SnapshotView {
    let trimmed = text::trimmed(stdout);
    if trimmed.len() == 0 {
        SnapshotView::Unknown { reason: "command produced no output"@ }
    } else if "{"@.is_prefix_of(trimmed) {
        json_snapshot(json::json_of_text(trimmed))
    } else {
        SnapshotView::Known(bare_app(first_line(trimmed)))
    }
}

/// What a run of the command says.
pub open spec fn run_snapshot(command: Seq<String>, run: HelperRun) -> SnapshotView {
    if command.len() == 0 {
        SnapshotView::Unsupported { reason: "foreground.command is empty"@ }
    } else {
        match run {
            HelperRun::Exited { success, status, stdout, .. } => if success {
                stdout_snapshot(text::lossy_text(stdout@))
            } else {
                SnapshotView::Unknown { reason: "command exited with "@ + status@ }
            },
            HelperRun::TimedOut => SnapshotView::Unknown { reason: "command timed out (killed)"@ },
            HelperRun::Failed { error } => SnapshotView::Unknown {
                reason: "command failed to run: "@ + error@,
            },
        }
    }
}

impl CommandProvider {
    pub closed spec fn spec_latest(self) -> SnapshotView {
        self.latest@
    }

    /// A provider for `command`, which is still to be run; an empty command
    /// never is.
    pub fn start(command: &[String]) -> (r: CommandProvider)
        ensures
            r.spec_latest() == (if command@.len() == 0 {
                SnapshotView::Unsupported { reason: "foreground.command is empty"@ }
            } else {
                SnapshotView::Unknown { reason: "command provider starting"@ }
            }),
    {
        let latest: ForegroundSnapshot = if command.len() == 0 {
            ForegroundSnapshot::Unsupported { reason: "foreground.command is empty".to_owned() }
        } else {
            ForegroundSnapshot::Unknown { reason: "command provider starting".to_owned() }
        };
        CommandProvider { latest }
    }

    /// Notes that the command cannot be run in the background.
    pub fn spawn_failed(&mut self, error: &str)
        ensures
            final(self).spec_latest() == (SnapshotView::Unsupported {
                reason: "failed to spawn command thread: "@ + error@,
            }),
    {
        self.latest = ForegroundSnapshot::Unsupported {
            reason: joined("failed to spawn command thread: ", error),
        };
    }

    /// Notes what a run of the command said.
    pub fn observe(&mut self, command: &[String], run: &HelperRun)
        ensures
            final(self).spec_latest() == run_snapshot(command@, *run),
    {
        self.latest = snapshot_of_run(command, run);
    }
}

impl ForegroundProvider for CommandProvider {
    open spec fn may_show(&self, snapshot: SnapshotView) -> bool {
        snapshot == self.spec_latest()
    }

    fn snapshot(&self) -> (r: ForegroundSnapshot)
        ensures
            r@ == self.spec_latest(),
    {
        self.latest.clone()
    }
}

/// What a run of the command says.
pub fn snapshot_of_run(command: &[String], run: &HelperRun) -> (r: ForegroundSnapshot)
    ensures
        r@ == run_snapshot(command@, *run),
{
    if command.len() == 0 {
        return ForegroundSnapshot::Unsupported { reason: "foreground.command is empty".to_owned() };
    }
    match run {
        HelperRun::Exited { success, status, stdout, .. } => {
            if *success {
                parse_stdout(read_lossy(stdout.as_slice()).as_str())
            } else {
                ForegroundSnapshot::Unknown {
                    reason: joined("command exited with ", status.as_str()),
                }
            }
        },
        HelperRun::TimedOut => ForegroundSnapshot::Unknown {
            reason: "command timed out (killed)".to_owned(),
        },
        HelperRun::Failed { error } => ForegroundSnapshot::Unknown {
            reason: joined("command failed to run: ", error.as_str()),
        },
    }
}

/// Parses provider command stdout. A payload starting with `{` is parsed as the
/// shared JSON object; otherwise the first non-empty line is taken as a bare app
/// id.
#[must_use]
pub fn parse_stdout(stdout: &str) -> (r: ForegroundSnapshot)
    ensures
        r@ == stdout_snapshot(stdout@),
{
    let trimmed: &str = trim(stdout);
    if trimmed.is_empty() {
        return ForegroundSnapshot::Unknown { reason: "command produced no output".to_owned() };
    }
    if starts_with(trimmed, "{") {
        return snapshot_of_json(parse_text(trimmed));
    }
    let first: Vec<&str> = lines(trimmed);
    proof {
        let all = text::slices(first@);
        assert(first@.len() > 0 ==> all[0] == first@[0]@);
    }
    let id: &str = if first.len() > 0 {
        trim(first[0])
    } else {
        ""
    };
    proof {
        reveal_strlit("");
        assert(id@ =~= first_line(trimmed@));
    }
    ForegroundSnapshot::Known(
        ForegroundApp {
            app_id: Some(id.to_owned()),
            class: Some(id.to_owned()),
            resource_class: None,
            title: None,
            pid: None,
            source: ForegroundSourceKind::Command,
        },
    )
}

/// The content of a parser's answer.
pub open spec fn answer(parsed: Result<Json, String>) -> Result<JsonTree, Seq<char>> {
    match parsed {
        Ok(json) => Ok(json@),
        Err(message) => Err(message@),
    }
}

/// What the JSON object that the command printed says, or what the parser's
/// complaint about it means.
pub fn snapshot_of_json(parsed: Result<Json, String>) -> (r: ForegroundSnapshot)
    ensures
        r@ == json_snapshot(answer(parsed)),
{
    match parsed {
        Ok(v) => ForegroundSnapshot::Known(json_to_app(&v, ForegroundSourceKind::Command)),
        Err(message) => ForegroundSnapshot::Unknown {
            reason: joined("invalid JSON from command: ", message.as_str()),
        },
    }
}

/// What the command printed. Nothing but white space tells nothing; a line is an
/// id, which serves as the class too and as nothing else; and what follows that
/// line plays no part.
pub proof fn law_bare_line_is_the_id(line: Seq<char>, rest: Seq<char>)
    requires
        text::trimmed(line) == line,
        line.len() > 0,
        line[0] != '{',
        !line.contains('\n'),
    ensures
        stdout_snapshot(Seq::<char>::empty()) is Unknown,
        stdout_snapshot(line) matches SnapshotView::Known(app) && {
            &&& app.app_id == Some(line)
            &&& app.class == Some(line)
            &&& app.resource_class is None
            &&& app.title is None
            &&& app.pid is None
            &&& app.source == ForegroundSourceKind::Command
        },
        text::trimmed(line + seq!['\n'] + rest) == line + seq!['\n'] + rest ==> stdout_snapshot(
            line + seq!['\n'] + rest,
        ) == stdout_snapshot(line),
{
    reveal_strlit("{");
    text::law_lines_come_out_as_put_in(line, rest);
    assert(!"{"@.is_prefix_of(line)) by {
        if "{"@.is_prefix_of(line) {
            assert(line[0] == "{"@[0]);
        }
    }
    let more = line + seq!['\n'] + rest;
    assert(more[0] == line[0]);
    assert(!"{"@.is_prefix_of(more)) by {
        if "{"@.is_prefix_of(more) {
            assert(more[0] == "{"@[0]);
        }
    }
    assert(text::trimmed(Seq::<char>::empty()) =~= Seq::<char>::empty());
    assert(text::lines_of(line)[0] == line);
    text::law_trimming_takes_white_space_only(line);
    assert(line.last() != '\r');
    assert(text::lines_of(more)[0] == line);
}

/// White space around the output of the command plays no part.
pub proof fn law_output_is_trimmed(stdout: Seq<char>, other: Seq<char>)
    requires
        text::trimmed(stdout) == text::trimmed(other),
    ensures
        stdout_snapshot(stdout) == stdout_snapshot(other),
        text::trimmed(stdout).len() == 0 ==> stdout_snapshot(stdout) is Unknown,
{
}

/// Output that begins with a brace is read as a JSON object: what it describes
/// where it is one, and nothing where it is none.
pub proof fn law_braces_are_read_as_json(stdout: Seq<char>)
    requires
        text::trimmed(stdout).len() > 0,
        text::trimmed(stdout)[0] == '{',
    ensures
        match json::json_of_text(text::trimmed(stdout)) {
            Ok(tree) => stdout_snapshot(stdout) == SnapshotView::Known(
                shared::described_app(tree, ForegroundSourceKind::Command),
            ),
            Err(_) => stdout_snapshot(stdout) is Unknown,
        },
{
    reveal_strlit("{");
    assert(text::trimmed(stdout).take(1) =~= "{"@);
}

/// A run of the command tells of an application only where there is a command and
/// it ended with success; then it tells what it printed. No command at all is no
/// support, and every other failure leaves the application unknown.
pub proof fn law_failed_commands_tell_nothing(command: Seq<String>, run: HelperRun)
    ensures
        run_snapshot(command, run) is Unsupported <==> command.len() == 0,
        run_snapshot(command, run) is Known ==> {
            &&& run matches HelperRun::Exited { success, stdout, .. }
            &&& success
            &&& run_snapshot(command, run) == stdout_snapshot(text::lossy_text(stdout@))
        },
        command.len() > 0 ==> (run matches HelperRun::Exited { success: true, stdout, .. }
            ==> run_snapshot(command, run) == stdout_snapshot(text::lossy_text(stdout@))),
{
}

/// Only the first line counts, without the white space around it, however many
/// lines there are.
pub proof fn law_first_line_is_trimmed(line: Seq<char>, rest: Seq<char>)
    requires
        line.len() > 0,
        line[0] != '{',
        line.last() != '\r',
        !line.contains('\n'),
        text::trimmed(line + seq!['\n'] + rest) == line + seq!['\n'] + rest,
    ensures
        stdout_snapshot(line + seq!['\n'] + rest) matches SnapshotView::Known(app) && {
            &&& app.app_id == Some(text::trimmed(line))
            &&& app.class == Some(text::trimmed(line))
        },
{
    reveal_strlit("{");
    text::law_lines_come_out_as_put_in(line, rest);
    let more = line + seq!['\n'] + rest;
    assert(more[0] == line[0]);
    assert(!"{"@.is_prefix_of(more)) by {
        if "{"@.is_prefix_of(more) {
            assert(more[0] == "{"@[0]);
        }
    }
    assert(text::lines_of(more)[0] == line);
}

} // verus!
