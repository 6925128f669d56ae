//! The systemd user service that runs the daemon.

use vstd::prelude::*;

use crate::cli::Args;
use crate::paths::parent_of;
use crate::text::{chars_of, is_whitespace};

verus! {

pub const SERVICE_NAME: &'static str = "scrollock.service";

#[derive(Debug, Clone, Copy, PartialEq, Eq, Structural)]
pub enum ServiceAction {
    Start,
    Stop,
    Restart,
    Remove,
}

/// What the command line asks of the service: the first of starting, stopping,
/// restarting and removing it.
pub fn requested_action(args: &Args) -> (r: Option<ServiceAction>)
    ensures
        r == (if args.start {
            Some(ServiceAction::Start)
        } else if args.stop {
            Some(ServiceAction::Stop)
        } else if args.restart {
            Some(ServiceAction::Restart)
        } else if args.remove_service {
            Some(ServiceAction::Remove)
        } else {
            None
        }),
{
    if args.start {
        Some(ServiceAction::Start)
    } else if args.stop {
        Some(ServiceAction::Stop)
    } else if args.restart {
        Some(ServiceAction::Restart)
    } else if args.remove_service {
        Some(ServiceAction::Remove)
    } else {
        None
    }
}

/// The `systemctl` verb of an action and its past tense; removing takes more
/// than a verb.
pub fn systemctl_verb(action: ServiceAction) -> (r: Option<(&'static str, &'static str)>)
    ensures
        match r {
            Some((verb, past)) => match action {
                ServiceAction::Start => verb@ == "start"@ && past@ == "Started"@,
                ServiceAction::Stop => verb@ == "stop"@ && past@ == "Stopped"@,
                ServiceAction::Restart => verb@ == "restart"@ && past@ == "Restarted"@,
                ServiceAction::Remove => false,
            },
            None => action == ServiceAction::Remove,
        },
{
    match action {
        ServiceAction::Start => Some(("start", "Started")),
        ServiceAction::Stop => Some(("stop", "Stopped")),
        ServiceAction::Restart => Some(("restart", "Restarted")),
        ServiceAction::Remove => None,
    }
}

/// Why a user service cannot be managed, where it cannot.
pub fn user_objection(is_root: bool) -> (r: Option<&'static str>)
    ensures
        match r {
            Some(reason) => is_root && reason@
                == "refusing to manage a systemd user service as root; run this command without sudo"@,
            None => !is_root,
        },
{
    if is_root {
        Some("refusing to manage a systemd user service as root; run this command without sudo")
    } else {
        None
    }
}

/// Whether a character makes quotes necessary.
pub open spec fn needs_quotes(c: char) -> bool {
    crate::text::whitespace(c) || c == '"' || c == '\\'
}

/// A character with a backslash before it, where it is a quote or a backslash.
pub open spec fn escape(c: char) -> Seq<char> {
    if c == '"' || c == '\\' {
        seq!['\\', c]
    } else {
        seq![c]
    }
}

/// A text with a backslash before every quote and backslash.
pub open spec fn escaped(s: Seq<char>) -> Seq<char>
    decreases s.len(),
{
    if s.len() == 0 {
        seq![]
    } else {
        escape(s[0]) + escaped(s.skip(1))
    }
}

proof fn lemma_escaped_push(s: Seq<char>, c: char)
    ensures
        escaped(s.push(c)) == escaped(s) + escape(c),
    decreases s.len(),
{
    let longer = s.push(c);
    if s.len() == 0 {
        assert(escaped(longer.skip(1)) =~= seq![]);
        assert(longer[0] == c);
        assert(escaped(longer) =~= escape(c));
        assert(escaped(s) + escape(c) =~= escape(c));
    } else {
        lemma_escaped_push(s.skip(1), c);
        assert(longer.skip(1) =~= s.skip(1).push(c));
        assert(escaped(longer) =~= escaped(s) + escape(c));
    }
}

/// A path as an argument in a unit file.
pub open spec fn unit_argument(raw: Seq<char>) -> Seq<char> {
    if exists|i: int| 0 <= i < raw.len() && needs_quotes(#[trigger] raw[i]) {
        seq!['"'] + escaped(raw) + seq!['"']
    } else {
        raw
    }
}

/// The unit file.
pub open spec fn unit_text(exe: Seq<char>, config: Seq<char>, config_dir: Seq<char>) -> Seq<char> {
    "[Unit]\nDescription=Progressive middle-button autoscroll daemon for Wayland\nDocumentation=https://github.com/docloulou/Scrollock\nAfter=graphical-session.target\nPartOf=graphical-session.target\n\n[Service]\nType=simple\nExecStart="@
        + unit_argument(exe) + " --no-interactive --config "@ + unit_argument(config)
        + "\nRestart=on-failure\nRestartSec=2\nPrivateTmp=true\nNoNewPrivileges=true\nProtectSystem=strict\nProtectHome=read-only\nReadWritePaths="@
        + unit_argument(config_dir) + "\n\n[Install]\nWantedBy=default.target\n"@
}

/// The unit file for a binary and a configuration file; none where the
/// configuration file has no directory.
pub fn render_user_service(exe: &str, config_path: &str) -> (r: Option<String>)
    ensures
        crate::text::text_of(r) == (match crate::paths::parent_path(config_path@) {
            Some(config_dir) => Some(unit_text(exe@, config_path@, config_dir)),
            None => None,
        }),
{
    match parent_of(config_path) {
        Some(config_dir) => Some(render_unit(exe, config_path, config_dir.as_str())),
        None => None,
    }
}

/// The unit file for a binary, a configuration file and its directory.
pub fn render_unit(exe: &str, config_path: &str, config_dir: &str) -> (r: String)
    ensures
        r@ == unit_text(exe@, config_path@, config_dir@),
{
    let mut out: String = String::new();
    out.append(
        "[Unit]\nDescription=Progressive middle-button autoscroll daemon for Wayland\nDocumentation=https://github.com/docloulou/Scrollock\nAfter=graphical-session.target\nPartOf=graphical-session.target\n\n[Service]\nType=simple\nExecStart=",
    );
    out.append(quote_systemd_arg(exe).as_str());
    out.append(" --no-interactive --config ");
    out.append(quote_systemd_arg(config_path).as_str());
    out.append(
        "\nRestart=on-failure\nRestartSec=2\nPrivateTmp=true\nNoNewPrivileges=true\nProtectSystem=strict\nProtectHome=read-only\nReadWritePaths=",
    );
    out.append(quote_systemd_arg(config_dir).as_str());
    out.append("\n\n[Install]\nWantedBy=default.target\n");
    assert(out@ =~= unit_text(exe@, config_path@, config_dir@));
    out
}

/// A path as an argument in a unit file: between quotes where white space,
/// quotes or backslashes call for them.
pub fn quote_systemd_arg(raw: &str) -> (r: String)
    ensures
        r@ == unit_argument(raw@),
{
    let chars: Vec<char> = chars_of(raw);
    let mut plain: bool = true;
    let mut out: String = String::new();
    out.push('"');
    let mut i: usize = 0;
    while i < chars.len()
        invariant
            i <= chars@.len(),
            chars@ == raw@,
            out@ == seq!['"'] + escaped(raw@.take(i as int)),
            plain == !(exists|j: int| 0 <= j < i && needs_quotes(#[trigger] raw@[j])),
        decreases chars@.len() - i,
    {
        let c: char = chars[i];
        assert(raw@.take(i + 1) =~= raw@.take(i as int).push(c));
        proof {
            lemma_escaped_push(raw@.take(i as int), c);
        }
        if is_whitespace(c) || c == '"' || c == '\\' {
            assert(needs_quotes(raw@[i as int]));
            plain = false;
        }
        if c == '"' || c == '\\' {
            out.push('\\');
        }
        out.push(c);
        assert(out@ =~= seq!['"'] + escaped(raw@.take(i + 1)));
        i += 1;
    }
    assert(raw@.take(i as int) =~= raw@);
    if plain {
        return raw.to_owned();
    }
    out.push('"');
    assert(out@ =~= seq!['"'] + escaped(raw@) + seq!['"']);
    out
}

/// What a text with escapes stands for: a backslash lets the next character
/// stand for itself.
pub open spec fn unescaped(s: Seq<char>) -> Seq<char>
    decreases s.len(),
{
    if s.len() == 0 {
        seq![]
    } else if s[0] == '\\' && s.len() > 1 {
        seq![s[1]] + unescaped(s.skip(2))
    } else {
        seq![s[0]] + unescaped(s.skip(1))
    }
}

/// Escaping loses nothing: undoing it gives back the text.
pub proof fn law_escapes_are_undone(s: Seq<char>)
    ensures
        unescaped(escaped(s)) == s,
    decreases s.len(),
{
    if s.len() > 0 {
        law_escapes_are_undone(s.skip(1));
        let whole = escaped(s);
        assert(s =~= seq![s[0]] + s.skip(1));
        if s[0] == '"' || s[0] == '\\' {
            assert(whole[0] == '\\' && whole[1] == s[0]);
            assert(whole.skip(2) =~= escaped(s.skip(1)));
        } else {
            assert(whole[0] == s[0]);
            assert(whole.skip(1) =~= escaped(s.skip(1)));
        }
    }
}

/// An argument without white space, quotes and backslashes stands as it is. Any
/// other stands between quotes, and what stands between them is the argument
/// once the escapes are undone.
pub proof fn law_arguments_are_quoted_where_needed(raw: Seq<char>)
    ensures
        ({
            let plain = forall|i: int|
                0 <= i < raw.len() ==> !crate::text::whitespace(#[trigger] raw[i]) && raw[i] != '"'
                    && raw[i] != '\\';
            let r = unit_argument(raw);
            &&& plain ==> r == raw
            &&& !plain ==> {
                &&& r.len() >= 2 && r[0] == '"' && r.last() == '"'
                &&& unescaped(r.subrange(1, r.len() - 1)) == raw
            }
        }),
{
    let r = unit_argument(raw);
    law_escapes_are_undone(raw);
    if exists|i: int| 0 <= i < raw.len() && needs_quotes(#[trigger] raw[i]) {
        let i = choose|i: int| 0 <= i < raw.len() && needs_quotes(#[trigger] raw[i]);
        assert(crate::text::whitespace(raw[i]) || raw[i] == '"' || raw[i] == '\\');
        assert(r.subrange(1, r.len() - 1) =~= escaped(raw));
    } else {
        assert forall|i: int| 0 <= i < raw.len() implies !crate::text::whitespace(#[trigger] raw[i])
            && raw[i] != '"' && raw[i] != '\\' by {
            assert(!needs_quotes(raw[i]));
        }
    }
}

/// No quote within an escaped text ends it: each has a backslash of its own
/// before it.
pub proof fn law_quotes_are_escaped(s: Seq<char>, c: char)
    ensures
        escaped(s.push(c)) == escaped(s) + (if c == '"' || c == '\\' {
            seq!['\\', c]
        } else {
            seq![c]
        }),
        escaped(Seq::<char>::empty()).len() == 0,
{
    lemma_escaped_push(s, c);
}

/// The unit starts the given binary with the given configuration file, and may
/// write to the given directory: each is named, quoted where needed, in its own
/// place.
pub proof fn law_unit_names_its_paths(exe: Seq<char>, config: Seq<char>, config_dir: Seq<char>)
    ensures
        exists|head: Seq<char>, middle: Seq<char>, tail: Seq<char>|
            #![trigger head + middle + tail]
            unit_text(exe, config, config_dir) == head + unit_argument(exe)
                + " --no-interactive --config "@ + unit_argument(config) + middle + unit_argument(
                config_dir,
            ) + tail && "ExecStart="@.is_suffix_of(head) && "ReadWritePaths="@.is_suffix_of(middle),
{
    let head = "[Unit]\nDescription=Progressive middle-button autoscroll daemon for Wayland\nDocumentation=https://github.com/docloulou/Scrollock\nAfter=graphical-session.target\nPartOf=graphical-session.target\n\n[Service]\nType=simple\nExecStart="@;
    let middle = "\nRestart=on-failure\nRestartSec=2\nPrivateTmp=true\nNoNewPrivileges=true\nProtectSystem=strict\nProtectHome=read-only\nReadWritePaths="@;
    let tail = "\n\n[Install]\nWantedBy=default.target\n"@;
    reveal_strlit("ExecStart=");
    reveal_strlit("ReadWritePaths=");
    reveal_strlit(
        "[Unit]\nDescription=Progressive middle-button autoscroll daemon for Wayland\nDocumentation=https://github.com/docloulou/Scrollock\nAfter=graphical-session.target\nPartOf=graphical-session.target\n\n[Service]\nType=simple\nExecStart=",
    );
    reveal_strlit(
        "\nRestart=on-failure\nRestartSec=2\nPrivateTmp=true\nNoNewPrivileges=true\nProtectSystem=strict\nProtectHome=read-only\nReadWritePaths=",
    );
    assert(head.skip(head.len() - 10) =~= "ExecStart="@);
    assert(middle.skip(middle.len() - 15) =~= "ReadWritePaths="@);
    let all = head + middle + tail;
    assert(unit_text(exe, config, config_dir) =~= head + unit_argument(exe)
        + " --no-interactive --config "@ + unit_argument(config) + middle + unit_argument(
        config_dir,
    ) + tail);
}

} // verus!
