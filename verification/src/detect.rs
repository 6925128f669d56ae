//! What `--detect-foreground` says.

use vstd::prelude::*;

use crate::digits;
use crate::digits::decimal_text;
use crate::foreground::config::{
    ForegroundConfig, ForegroundProviderKind, ForegroundSettings,
};
use crate::foreground::filter::{
    AppView, ForegroundApp, ForegroundSnapshot, ForegroundSourceKind, SnapshotView,
};
use crate::foreground::matcher;
use crate::foreground::matcher::normalize;
use crate::text;
use crate::text::{same, to_lower, trim};

verus! {

/// Countdown shown so the user can focus the window they want to identify
/// before the snapshot is read.
pub const DETECT_COUNTDOWN_SECS: u64 = 3;

/// How long to wait for a provider that is still warming up, and how often to
/// look.
pub const DETECT_GRACE_MS: u64 = 2000;

pub const DETECT_POLL_MS: u64 = 100;

/// Discovery should be useful even if the user left the filter on `none`:
/// fall back to auto-detection in that case.
pub fn detection_config(cfg: ForegroundConfig) -> (r: ForegroundConfig)
    ensures
        r.provider != ForegroundProviderKind::NoProvider,
        cfg.provider != ForegroundProviderKind::NoProvider ==> r == cfg,
        r == (ForegroundConfig { provider: r.provider, ..cfg }),
        r@ == (ForegroundSettings {
            provider: if cfg@.provider == ForegroundProviderKind::NoProvider {
                ForegroundProviderKind::Auto
            } else {
                cfg@.provider
            },
            ..cfg@
        }),
{
    let mut cfg: ForegroundConfig = cfg;
    if cfg.provider == ForegroundProviderKind::NoProvider {
        cfg.provider = ForegroundProviderKind::Auto;
    }
    cfg
}

/// Whether a snapshot is good enough to report: one that names an application,
/// or any once the time is over.
pub fn is_final(snapshot: &ForegroundSnapshot, waited_ms: u64) -> (r: bool)
    ensures
        snapshot is Known ==> r,
        !(snapshot is Known) ==> (r <==> waited_ms >= 2000),
        r == (snapshot@ is Known || waited_ms >= DETECT_GRACE_MS),
{
    match snapshot {
        ForegroundSnapshot::Known(_) => true,
        _ => waited_ms >= DETECT_GRACE_MS,
    }
}

/// The name of a source.
pub open spec fn source_label(source: ForegroundSourceKind) -> Seq<char> {
    match source {
        ForegroundSourceKind::NoSource => "None"@,
        ForegroundSourceKind::Command => "Command"@,
        ForegroundSourceKind::Hyprland => "Hyprland"@,
        ForegroundSourceKind::Sway => "Sway"@,
        ForegroundSourceKind::Gnome => "Gnome"@,
        ForegroundSourceKind::Kde => "Kde"@,
        ForegroundSourceKind::Unknown => "Unknown"@,
    }
}

/// A text, or a word for none.
pub open spec fn shown(value: Option<Seq<char>>) -> Seq<char> {
    match value {
        Some(value) => value,
        None => "(none)"@,
    }
}

/// What to write down for a field: its normal form, or where that has another
/// normal form in turn, the field without capitals and white space around it.
pub open spec fn advised(value: Seq<char>) -> Seq<char> {
    let normal = matcher::normalized(value);
    if matcher::normalized(normal) == normal {
        normal
    } else {
        text::lowered(text::trimmed(value))
    }
}

/// A list with what to write down for a field added, unless it is empty or
/// there already.
pub open spec fn with_candidate(list: Seq<Seq<char>>, field: Option<Seq<char>>) -> Seq<Seq<char>> {
    match field {
        Some(value) => if advised(value).len() == 0 || list.contains(advised(value)) {
            list
        } else {
            list.push(advised(value))
        },
        None => list,
    }
}

/// The strings that a list of applications can hold to match this one.
pub open spec fn candidate_list(app: AppView) -> Seq<Seq<char>> {
    with_candidate(
        with_candidate(with_candidate(seq![], app.app_id), app.class),
        app.resource_class,
    )
}

/// The identity of an application, one field to a line.
pub open spec fn identity(app: AppView) -> Seq<char> {
    "Detected foreground application (source: "@ + source_label(app.source)
        + "):\n  app_id         : "@ + shown(app.app_id) + "\n  class          : "@ + shown(
        app.class,
    ) + "\n  resource_class : "@ + shown(app.resource_class) + "\n  title          : "@ + shown(
        app.title,
    ) + "\n  pid            : "@ + shown(
        match app.pid {
            Some(pid) => Some(digits::decimal(pid as nat)),
            None => None,
        },
    ) + "\n\n"@
}

/// The candidates, one to a line.
pub open spec fn candidate_lines(list: Seq<Seq<char>>) -> Seq<char>
    decreases list.len(),
{
    if list.len() == 0 {
        seq![]
    } else {
        candidate_lines(list.drop_last()) + "    "@ + list.last() + "\n"@
    }
}

/// What to put into the configuration.
pub open spec fn advice(list: Seq<Seq<char>>) -> Seq<char> {
    if list.len() == 0 {
        "No stable identifier (app_id/class) was reported. Enable `match_title = true` to match on the window title instead.\n"@
    } else {
        "Use one of these identifiers (case-insensitive, `.desktop` ignored):\n"@ + candidate_lines(
            list,
        )
            + "\nExample — block autoscroll in this app:\n  [foreground]\n  enabled = true\n  provider = \"auto\"\n  mode = \"denylist\"\n  deny_apps = [\""@
            + list[0] + "\"]\n"@
    }
}

/// All that is said.
pub open spec fn report(snapshot: SnapshotView) -> Seq<char> {
    match snapshot {
        SnapshotView::Known(app) => identity(app) + advice(candidate_list(app)),
        SnapshotView::Unknown { reason } => "Could not determine the focused application ("@ + reason
            + ").\nThe provider is running but reported no focused window. Try again and make sure the target window is actually focused during the countdown.\n"@,
        SnapshotView::Unsupported { reason } => "Foreground detection is not available ("@ + reason
            + ").\nSet `provider` under [foreground] (auto | hyprland | sway | gnome | kde | command). On GNOME, install the bundled Shell extension (see integrations/gnome/); on KDE Plasma, install `kdotool`.\n"@,
    }
}

fn source_name(source: ForegroundSourceKind) -> (r: &'static str)
    ensures
        r@ == source_label(source),
{
    match source {
        ForegroundSourceKind::NoSource => "None",
        ForegroundSourceKind::Command => "Command",
        ForegroundSourceKind::Hyprland => "Hyprland",
        ForegroundSourceKind::Sway => "Sway",
        ForegroundSourceKind::Gnome => "Gnome",
        ForegroundSourceKind::Kde => "Kde",
        ForegroundSourceKind::Unknown => "Unknown",
    }
}

fn append_shown(value: &Option<String>, out: &mut String)
    ensures
        final(out)@ == old(out)@ + shown(text::text_of(*value)),
{
    match value {
        Some(value) => out.append(value.as_str()),
        None => out.append("(none)"),
    }
}

fn advised_text(value: &str) -> (r: String)
    ensures
        r@ == advised(value@),
{
    let normal: String = normalize(value);
    if same(normalize(normal.as_str()).as_str(), normal.as_str()) {
        normal
    } else {
        to_lower(trim(value))
    }
}

fn add_candidate(field: &Option<String>, list: &mut Vec<String>)
    ensures
        text::texts(final(list)@) == with_candidate(
            text::texts(old(list)@),
            text::text_of(*field),
        ),
{
    let value: String = match field {
        Some(value) => advised_text(value.as_str()),
        None => {
            return ;
        },
    };
    let ghost texts = text::texts(list@);
    if value.as_str().is_empty() {
        return ;
    }
    let mut i: usize = 0;
    while i < list.len()
        invariant
            i <= list@.len(),
            *list == *old(list),
            texts == text::texts(list@),
            *field is Some,
            value@ == advised(field->0@),
            value@.len() > 0,
            forall|j: int| 0 <= j < i ==> texts[j] != value@,
        decreases list@.len() - i,
    {
        if same(list[i].as_str(), value.as_str()) {
            assert(texts[i as int] == value@);
            assert(texts.contains(value@));
            return ;
        }
        i += 1;
    }
    assert(!texts.contains(value@));
    list.push(value);
    assert(text::texts(list@) =~= texts.push(value@));
}

/// The strings that a list of applications can hold to match this one.
pub fn candidates(app: &ForegroundApp) -> (r: Vec<String>)
    ensures
        text::texts(r@) == candidate_list(app@),
{
    let mut list: Vec<String> = Vec::new();
    assert(text::texts(list@) =~= seq![]);
    add_candidate(&app.app_id, &mut list);
    add_candidate(&app.class, &mut list);
    add_candidate(&app.resource_class, &mut list);
    list
}

fn identity_text(app: &ForegroundApp) -> (r: String)
    ensures
        r@ == identity(app@),
{
    let mut out: String = "Detected foreground application (source: ".to_owned();
    out.append(source_name(app.source));
    out.append("):\n  app_id         : ");
    append_shown(&app.app_id, &mut out);
    out.append("\n  class          : ");
    append_shown(&app.class, &mut out);
    out.append("\n  resource_class : ");
    append_shown(&app.resource_class, &mut out);
    out.append("\n  title          : ");
    append_shown(&app.title, &mut out);
    out.append("\n  pid            : ");
    match app.pid {
        Some(pid) => out.append(decimal_text(pid as u128).as_str()),
        None => out.append("(none)"),
    }
    out.append("\n\n");
    out
}

fn append_advice(list: &Vec<String>, out: &mut String)
    ensures
        final(out)@ == old(out)@ + advice(text::texts(list@)),
{
    let ghost all = text::texts(list@);
    if list.len() == 0 {
        out.append(
            "No stable identifier (app_id/class) was reported. Enable `match_title = true` to match on the window title instead.\n",
        );
        return ;
    }
    out.append("Use one of these identifiers (case-insensitive, `.desktop` ignored):\n");
    let ghost before = out@;
    assert(before + candidate_lines(all.take(0)) =~= before);
    let mut i: usize = 0;
    while i < list.len()
        invariant
            i <= list@.len(),
            all == text::texts(list@),
            out@ == before + candidate_lines(all.take(i as int)),
        decreases list@.len() - i,
    {
        out.append("    ");
        out.append(list[i].as_str());
        out.append("\n");
        assert(all.take(i + 1).drop_last() =~= all.take(i as int));
        assert(all.take(i + 1).last() == list@[i as int]@);
        assert(out@ =~= before + candidate_lines(all.take(i + 1)));
        i += 1;
    }
    assert(all.take(i as int) =~= all);
    out.append(
        "\nExample — block autoscroll in this app:\n  [foreground]\n  enabled = true\n  provider = \"auto\"\n  mode = \"denylist\"\n  deny_apps = [\"",
    );
    out.append(list[0].as_str());
    out.append("\"]\n");
    assert(out@ =~= old(out)@ + advice(all));
}

/// All that is said about a snapshot.
pub fn detection_report(snapshot: &ForegroundSnapshot) -> (r: String)
    ensures
        r@ == report(snapshot@),
{
    let mut out: String = String::new();
    match snapshot {
        ForegroundSnapshot::Known(app) => {
            out = identity_text(app);
            append_advice(&candidates(app), &mut out);
        },
        ForegroundSnapshot::Unknown { reason } => {
            out.append("Could not determine the focused application (");
            out.append(reason.as_str());
            out.append(
                ").\nThe provider is running but reported no focused window. Try again and make sure the target window is actually focused during the countdown.\n",
            );
        },
        ForegroundSnapshot::Unsupported { reason } => {
            out.append("Foreground detection is not available (");
            out.append(reason.as_str());
            out.append(
                ").\nSet `provider` under [foreground] (auto | hyprland | sway | gnome | kde | command). On GNOME, install the bundled Shell extension (see integrations/gnome/); on KDE Plasma, install `kdotool`.\n",
            );
        },
    }
    assert(out@ =~= report(snapshot@));
    out
}

/// What is advised works: a list with any of the candidates matches the
/// application that they were made from.
pub proof fn law_candidates_match(app: AppView, i: int, list: Seq<Seq<char>>)
    requires
        0 <= i < candidate_list(app).len(),
        list.contains(candidate_list(app)[i]),
    ensures
        matcher::matched(app, list, false),
{
    let one = with_candidate(seq![], app.app_id);
    let two = with_candidate(one, app.class);
    let all = candidate_list(app);
    let c = all[i];
    let k = choose|k: int| 0 <= k < list.len() && list[k] == c;
    if i < one.len() {
        assert(c == advised(app.app_id->0));
        lemma_advice_keeps_the_normal_form(app.app_id->0);
        assert(matcher::normalized(list[k]) == matcher::normalized(app.app_id->0));
        assert(matcher::listed(app.app_id, list));
    } else if i < two.len() {
        assert(c == advised(app.class->0));
        lemma_advice_keeps_the_normal_form(app.class->0);
        assert(matcher::normalized(list[k]) == matcher::normalized(app.class->0));
        assert(matcher::listed(app.class, list));
    } else {
        assert(c == advised(app.resource_class->0));
        lemma_advice_keeps_the_normal_form(app.resource_class->0);
        assert(matcher::normalized(list[k]) == matcher::normalized(app.resource_class->0));
        assert(matcher::listed(app.resource_class, list));
    }
}

/// What is written down for a field has the normal form of the field.
proof fn lemma_advice_keeps_the_normal_form(value: Seq<char>)
    ensures
        matcher::normalized(advised(value)) == matcher::normalized(value),
{
    matcher::law_tidied_text_keeps_its_normal_form(value);
}

/// What is written down for a field names the same application as the field.
pub proof fn law_advice_names_the_app(value: Seq<char>)
    ensures
        matcher::normalized(advised(value)) == matcher::normalized(value),
        matcher::normalized(matcher::normalized(value)) == matcher::normalized(value) ==> advised(
            value,
        ) == matcher::normalized(value),
{
    lemma_advice_keeps_the_normal_form(value);
}

/// Every field that identifies an application is among the candidates, the title
/// is not, none is empty, and none comes twice.
pub proof fn law_candidates_are_all_there(app: AppView, title: Option<Seq<char>>)
    ensures
        app.app_id matches Some(value) ==> advised(value).len() == 0 || candidate_list(
            app,
        ).contains(advised(value)),
        app.class matches Some(value) ==> advised(value).len() == 0 || candidate_list(
            app,
        ).contains(advised(value)),
        app.resource_class matches Some(value) ==> advised(value).len() == 0 || candidate_list(
            app,
        ).contains(advised(value)),
        app.app_id matches Some(value) ==> advised(value).len() == 0 || candidate_list(app)[0]
            == advised(value),
        candidate_list((AppView { title, ..app })) == candidate_list(app),
        candidate_list(app).no_duplicates(),
        candidate_list(app).len() <= 3,
        forall|i: int| 0 <= i < candidate_list(app).len() ==> #[trigger] candidate_list(
            app,
        )[i].len() > 0,
{
    let none = Seq::<Seq<char>>::empty();
    let one = with_candidate(none, app.app_id);
    let two = with_candidate(one, app.class);
    lemma_with_candidate(none, app.app_id);
    lemma_with_candidate(one, app.class);
    lemma_with_candidate(two, app.resource_class);
}

proof fn lemma_with_candidate(list: Seq<Seq<char>>, field: Option<Seq<char>>)
    requires
        list.no_duplicates(),
        forall|i: int| 0 <= i < list.len() ==> #[trigger] list[i].len() > 0,
    ensures
        ({
            let longer = with_candidate(list, field);
            &&& longer.no_duplicates()
            &&& list.is_prefix_of(longer)
            &&& longer.len() <= list.len() + 1
            &&& forall|i: int| 0 <= i < longer.len() ==> #[trigger] longer[i].len() > 0
            &&& forall|s: Seq<char>| list.contains(s) ==> longer.contains(s)
            &&& field matches Some(value) ==> advised(value).len() == 0 || longer.contains(
                advised(value),
            )
            &&& list.len() > 0 ==> longer[0] == list[0]
        }),
{
    let longer = with_candidate(list, field);
    assert(list =~= longer.take(list.len() as int));
    if let Some(value) = field {
        if advised(value).len() > 0 && !list.contains(advised(value)) {
            assert(longer[list.len() as int] == advised(value));
        }
    }
    assert forall|s: Seq<char>| list.contains(s) implies longer.contains(s) by {
        let i = choose|i: int| 0 <= i < list.len() && list[i] == s;
        assert(longer[i] == s);
    }
}

/// Whether a text stands somewhere in another.
pub open spec fn has_part(whole: Seq<char>, part: Seq<char>) -> bool {
    exists|before: Seq<char>, after: Seq<char>|
        whole == #[trigger] (before + part + after)
}

/// Every field of an application is reported on a line of its own, under its own
/// name; `(none)` stands for what is not known.
pub proof fn law_fields_are_reported(app: AppView)
    ensures
        has_part(
            identity(app),
            "):\n  app_id         : "@ + (if app.app_id is Some {
                app.app_id->0
            } else {
                "(none)"@
            }) + "\n  class          : "@,
        ),
        has_part(
            identity(app),
            "\n  class          : "@ + (if app.class is Some {
                app.class->0
            } else {
                "(none)"@
            }) + "\n  resource_class : "@,
        ),
        has_part(
            identity(app),
            "\n  resource_class : "@ + (if app.resource_class is Some {
                app.resource_class->0
            } else {
                "(none)"@
            }) + "\n  title          : "@,
        ),
        has_part(
            identity(app),
            "\n  title          : "@ + (if app.title is Some {
                app.title->0
            } else {
                "(none)"@
            }) + "\n  pid            : "@,
        ),
        has_part(
            identity(app),
            "\n  pid            : "@ + (if app.pid is Some {
                digits::decimal(app.pid->0 as nat)
            } else {
                "(none)"@
            }) + "\n\n"@,
        ),
{
    let w0 = "Detected foreground application (source: "@ + source_label(app.source);
    let (l1, l2, l3) = (
        "):\n  app_id         : "@,
        "\n  class          : "@,
        "\n  resource_class : "@,
    );
    let (l4, l5, end) = ("\n  title          : "@, "\n  pid            : "@, "\n\n"@);
    let (a, c, r, t) = (
        shown(app.app_id),
        shown(app.class),
        shown(app.resource_class),
        shown(app.title),
    );
    let pid = shown(
        match app.pid {
            Some(pid) => Some(digits::decimal(pid as nat)),
            None => None,
        },
    );
    let w1 = w0 + l1 + a;
    let w2 = w1 + l2 + c;
    let w3 = w2 + l3 + r;
    let w4 = w3 + l4 + t;
    let w5 = w4 + l5 + pid;
    assert(identity(app) == w5 + end);
    lemma_part(w0, l1, a, l2);
    lemma_part(w1, l2, c, l3);
    lemma_part(w2, l3, r, l4);
    lemma_part(w3, l4, t, l5);
    lemma_part(w4, l5, pid, end);
    lemma_more_after(w4 + l5, l4 + t + l5, pid);
    lemma_more_after(w5, l4 + t + l5, end);
    lemma_more_after(w3 + l4, l3 + r + l4, t);
    lemma_more_after(w4, l3 + r + l4, l5);
    lemma_more_after(w4 + l5, l3 + r + l4, pid);
    lemma_more_after(w5, l3 + r + l4, end);
    lemma_more_after(w2 + l3, l2 + c + l3, r);
    lemma_more_after(w3, l2 + c + l3, l4);
    lemma_more_after(w3 + l4, l2 + c + l3, t);
    lemma_more_after(w4, l2 + c + l3, l5);
    lemma_more_after(w4 + l5, l2 + c + l3, pid);
    lemma_more_after(w5, l2 + c + l3, end);
    lemma_more_after(w1 + l2, l1 + a + l2, c);
    lemma_more_after(w2, l1 + a + l2, l3);
    lemma_more_after(w2 + l3, l1 + a + l2, r);
    lemma_more_after(w3, l1 + a + l2, l4);
    lemma_more_after(w3 + l4, l1 + a + l2, t);
    lemma_more_after(w4, l1 + a + l2, l5);
    lemma_more_after(w4 + l5, l1 + a + l2, pid);
    lemma_more_after(w5, l1 + a + l2, end);
}

proof fn lemma_part(before: Seq<char>, a: Seq<char>, b: Seq<char>, c: Seq<char>)
    ensures
        has_part(before + a + b + c, a + b + c),
{
    assert(before + a + b + c =~= before + (a + b + c) + Seq::<char>::empty());
}

proof fn lemma_more_after(whole: Seq<char>, part: Seq<char>, more: Seq<char>)
    requires
        has_part(whole, part),
    ensures
        has_part(whole + more, part),
{
    let (before, after) = choose|before: Seq<char>, after: Seq<char>|
        whole == #[trigger] (before + part + after);
    assert(whole + more =~= before + part + (after + more));
}

/// The report on a known application begins with its identity and ends with the
/// advice; one on an unknown application gives the reason.
pub proof fn law_reports(snapshot: SnapshotView)
    ensures
        snapshot matches SnapshotView::Known(app) ==> report(snapshot) == identity(app) + advice(
            candidate_list(app),
        ),
        snapshot matches SnapshotView::Unknown { reason } ==> has_part(
            report(snapshot),
            "Could not determine the focused application ("@ + reason,
        ),
        snapshot matches SnapshotView::Unsupported { reason } ==> has_part(
            report(snapshot),
            "Foreground detection is not available ("@ + reason,
        ),
{
    match snapshot {
        SnapshotView::Unknown { reason } => {
            assert(report(snapshot) =~= Seq::<char>::empty() + (
            "Could not determine the focused application ("@ + reason)
                + ").\nThe provider is running but reported no focused window. Try again and make sure the target window is actually focused during the countdown.\n"@);
        },
        SnapshotView::Unsupported { reason } => {
            assert(report(snapshot) =~= Seq::<char>::empty() + (
            "Foreground detection is not available ("@ + reason)
                + ").\nSet `provider` under [foreground] (auto | hyprland | sway | gnome | kde | command). On GNOME, install the bundled Shell extension (see integrations/gnome/); on KDE Plasma, install `kdotool`.\n"@);
        },
        _ => {},
    }
}

/// Every candidate has a line of its own, in order, and the example denies the
/// first one; where there is none, the advice is to go by the title.
pub proof fn law_advice_shows_the_candidates(list: Seq<Seq<char>>, candidate: Seq<char>)
    ensures
        candidate_lines(list.push(candidate)) == candidate_lines(list) + "    "@ + candidate
            + "\n"@,
        candidate_lines(Seq::<Seq<char>>::empty()).len() == 0,
        list.len() > 0 ==> has_part(advice(list), candidate_lines(list)) && has_part(
            advice(list),
            "deny_apps = [\""@ + list[0] + "\"]\n"@,
        ),
{
    assert(list.push(candidate).drop_last() =~= list);
    if list.len() > 0 {
        let head = "Use one of these identifiers (case-insensitive, `.desktop` ignored):\n"@;
        let example = "\nExample — block autoscroll in this app:\n  [foreground]\n  enabled = true\n  provider = \"auto\"\n  mode = \"denylist\"\n  deny_apps = [\""@;
        let start = "\nExample — block autoscroll in this app:\n  [foreground]\n  enabled = true\n  provider = \"auto\"\n  mode = \"denylist\"\n  "@;
        reveal_strlit(
            "\nExample — block autoscroll in this app:\n  [foreground]\n  enabled = true\n  provider = \"auto\"\n  mode = \"denylist\"\n  deny_apps = [\"",
        );
        reveal_strlit(
            "\nExample — block autoscroll in this app:\n  [foreground]\n  enabled = true\n  provider = \"auto\"\n  mode = \"denylist\"\n  ",
        );
        reveal_strlit("deny_apps = [\"");
        assert(example =~= start + "deny_apps = [\""@);
        assert(advice(list) =~= head + candidate_lines(list) + (example + list[0] + "\"]\n"@));
        assert(advice(list) =~= (head + candidate_lines(list) + start) + ("deny_apps = [\""@
            + list[0] + "\"]\n"@) + seq![]);
    }
}

} // verus!
