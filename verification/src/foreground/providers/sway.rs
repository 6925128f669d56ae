//! Sway / i3 provider: follows `window` events and tracks the focused app from
//! the container carried by each event, falling back to the tree only when an
//! event cannot identify the focused window (initial sync and window-close).
//! This keeps the steady state at zero extra connections and zero tree parses
//! per focus change.
//!
//! The socket is found even without `SWAYSOCK`/`I3SOCK`: those variables are set
//! inside the compositor's children but are usually absent from a
//! `systemd --user` service environment, so the runtime directory is scanned for
//! a live `sway-ipc.*.sock` as a fallback.

use vstd::prelude::*;

use super::shared;
use super::shared::{next_backoff, pid_of, BACKOFF_MAX_MS, BACKOFF_START_MS};
use crate::foreground::filter;
use crate::foreground::filter::{
    AppView, ForegroundApp, ForegroundProvider, ForegroundSnapshot, ForegroundSourceKind,
    SnapshotView,
};
use crate::json;
use crate::json::{parse_bytes, Json, JsonTree};
use crate::text;
use crate::text::{ends_with, joined, same, starts_with};

verus! {

/// Tracks the focused window, and the pause before the next reconnect.
#[derive(Debug)]
pub struct SwayProvider {
    latest: ForegroundSnapshot,
    backoff_ms: u64,
}

/// What a `window` event tells us about the focused app.
#[derive(Debug)]
pub enum EventOutcome {
    /// The event identifies the newly focused (or retitled focused) window.
    Update(ForegroundApp),
    /// The event invalidates the snapshot without naming a successor; the
    /// tree must be queried (e.g. the focused window closed and focus may
    /// have moved to nothing / another workspace).
    NeedsTreeRefresh,
    /// The event does not affect the focused app.
    Ignore,
}

/// The mathematical content of an [`EventOutcome`].
pub enum OutcomeView {
    Update(AppView),
    NeedsTreeRefresh,
    Ignore,
}

impl View for EventOutcome {
    type V = OutcomeView;

    open spec fn view(&self) -> OutcomeView {
        match *self {
            EventOutcome::Update(app) => OutcomeView::Update(app@),
            EventOutcome::NeedsTreeRefresh => OutcomeView::NeedsTreeRefresh,
            EventOutcome::Ignore => OutcomeView::Ignore,
        }
    }
}

/// The text of a field; none where it is empty.
pub open spec fn filled_field(tree: JsonTree, key: Seq<char>) -> Option<Seq<char>> {
    match tree.text_field(key) {
        Some(s) => if s.len() > 0 {
            Some(s)
        } else {
            None
        },
        None => None,
    }
}

/// The text of a field of the window properties.
pub open spec fn property(tree: JsonTree, key: Seq<char>) -> Option<Seq<char>> {
    match tree.get("window_properties"@) {
        Some(properties) => filled_field(properties, key),
        None => None,
    }
}

/// The application of a node: native Wayland windows have an `app_id`, X
/// windows have a class and an instance among their properties.
pub open spec fn node_app(tree: JsonTree) -> AppView {
    AppView {
        app_id: filled_field(tree, "app_id"@),
        class: property(tree, "class"@),
        resource_class: property(tree, "instance"@),
        title: filled_field(tree, "name"@),
        pid: shared::pid_field(tree),
        source: ForegroundSourceKind::Sway,
    }
}

/// Whether a node has the focus.
pub open spec fn has_focus(tree: JsonTree) -> bool {
    tree.bool_field("focused"@) == Some(true)
}

/// The nodes below a node, tiled or floating.
pub open spec fn children(tree: JsonTree, key: Seq<char>) -> Seq<JsonTree> {
    match tree.array_field(key) {
        Some(items) => items,
        None => seq![],
    }
}

/// The first node with the focus: the node itself, else one below it, tiled
/// before floating.
pub open spec fn focused_node(tree: JsonTree) -> Option<JsonTree>
    decreases tree,
{
    if has_focus(tree) {
        Some(tree)
    } else {
        proof {
            lemma_children_are_smaller(tree, "nodes"@);
            lemma_children_are_smaller(tree, "floating_nodes"@);
        }
        let tiled = if children(tree, "nodes"@).len() > 0 {
            focused_among(children(tree, "nodes"@))
        } else {
            None
        };
        if tiled is Some {
            tiled
        } else if children(tree, "floating_nodes"@).len() > 0 {
            focused_among(children(tree, "floating_nodes"@))
        } else {
            None
        }
    }
}

/// The first node with the focus among some nodes and those below them.
pub open spec fn focused_among(nodes: Seq<JsonTree>) -> Option<JsonTree>
    decreases nodes,
{
    if nodes.len() == 0 {
        None
    } else {
        let first = focused_node(nodes[0]);
        if first is Some {
            first
        } else {
            focused_among(nodes.skip(1))
        }
    }
}

/// The nodes below a node are part of it.
pub proof fn lemma_children_are_smaller(tree: JsonTree, key: Seq<char>)
    ensures
        children(tree, key).len() > 0 ==> decreases_to!(tree => children(tree, key)),
{
    if let JsonTree::Object(entries) = tree {
        if let Some(value) = json::entry(entries, key) {
            lemma_entry_is_inside(entries, key);
            let i = choose|i: int| 0 <= i < entries.len() && (#[trigger] entries[i]).1 == value;
            assert(decreases_to!(tree => tree->Object_0));
            assert(decreases_to!(entries => entries[i]));
            assert(decreases_to!(entries[i] => entries[i].1));
            if let JsonTree::Array(items) = value {
                assert(decreases_to!(value => value->Array_0));
            }
        }
    }
}

proof fn lemma_entry_is_inside(entries: Seq<(Seq<char>, JsonTree)>, key: Seq<char>)
    requires
        json::entry(entries, key) is Some,
    ensures
        exists|i: int|
            0 <= i < entries.len() && (#[trigger] entries[i]).1 == json::entry(entries, key)->0,
    decreases entries.len(),
{
    if entries[0].0 != key {
        lemma_entry_is_inside(entries.skip(1), key);
        let rest = entries.skip(1);
        let i = choose|i: int|
            0 <= i < rest.len() && (#[trigger] rest[i]).1 == json::entry(rest, key)->0;
        assert(entries[i + 1].1 == json::entry(entries, key)->0);
    } else {
        assert(entries[0].1 == json::entry(entries, key)->0);
    }
}

/// The application in front, by the tree.
pub open spec fn focused_app(tree: JsonTree) -> Option<AppView> {
    match focused_node(tree) {
        Some(node) => Some(node_app(node)),
        None => None,
    }
}

/// What a `window` event says. Bytes that hold no JSON call for a look at the
/// tree, lest the snapshot go stale.
pub open spec fn event_outcome(event: Option<JsonTree>) -> OutcomeView {
    match event {
        None => OutcomeView::NeedsTreeRefresh,
        Some(event) => {
            let change = event.text_field("change"@);
            let container = event.get("container"@);
            if change == Some("focus"@) {
                match container {
                    Some(node) => OutcomeView::Update(node_app(node)),
                    None => OutcomeView::NeedsTreeRefresh,
                }
            } else if change == Some("title"@) {
                match container {
                    Some(node) => if has_focus(node) {
                        OutcomeView::Update(node_app(node))
                    } else {
                        OutcomeView::Ignore
                    },
                    None => OutcomeView::Ignore,
                }
            } else if change == Some("close"@) {
                OutcomeView::NeedsTreeRefresh
            } else {
                OutcomeView::Ignore
            }
        },
    }
}

/// What is known after an event.
pub open spec fn after_event(latest: SnapshotView, event: Option<JsonTree>) -> SnapshotView {
    match event_outcome(event) {
        OutcomeView::Update(app) => SnapshotView::Known(app),
        _ => latest,
    }
}

/// What is known after a look at the tree.
pub open spec fn after_tree(latest: SnapshotView, tree: Option<JsonTree>) -> SnapshotView {
    match tree {
        Some(tree) => match focused_app(tree) {
            Some(app) => SnapshotView::Known(app),
            None => SnapshotView::Unknown { reason: "no focused window in sway tree"@ },
        },
        None => latest,
    }
}

/// Whether a file name is that of a socket of Sway.
pub open spec fn socket_name(name: Seq<char>) -> bool {
    "sway-ipc."@.is_prefix_of(name) && ".sock"@.is_suffix_of(name)
}

/// True when a Sway/i3 IPC socket is advertised (env var) or discoverable in
/// the runtime directory, and is there.
#[must_use]
pub fn is_available(socket_exists: Option<bool>) -> (r: bool)
    ensures
        r == (socket_exists == Some(true)),
{
    match socket_exists {
        Some(exists) => exists,
        None => false,
    }
}

/// The socket that the environment advertises: `SWAYSOCK` before `I3SOCK`, an
/// empty variable counting as none.
pub fn advertised_socket<'a>(swaysock: Option<&'a str>, i3sock: Option<&'a str>) -> (r: Option<
    &'a str,
>)
    ensures
        r == (match swaysock {
            Some(path) if path@.len() > 0 => Some(path),
            _ => match i3sock {
                Some(path) if path@.len() > 0 => Some(path),
                _ => None,
            },
        }),
{
    match swaysock {
        Some(path) if !path.is_empty() => Some(path),
        _ => match i3sock {
            Some(path) if !path.is_empty() => Some(path),
            _ => None,
        },
    }
}

/// Whether a file in the runtime directory is a socket of Sway, by its name:
/// `sway-ipc.<uid>.<pid>.sock`.
pub fn is_socket_name(name: &str) -> (r: bool)
    ensures
        r == ("sway-ipc."@.is_prefix_of(name@) && ".sock"@.is_suffix_of(name@)),
        r == socket_name(name@),
{
    starts_with(name, "sway-ipc.") && ends_with(name, ".sock")
}

impl SwayProvider {
    pub closed spec fn spec_latest(self) -> SnapshotView {
        self.latest@
    }

    /// The pause before the next reconnect.
    pub closed spec fn spec_backoff(self) -> int {
        self.backoff_ms as int
    }

    /// A provider that has heard nothing yet.
    pub fn start() -> (r: SwayProvider)
        ensures
            r.spec_latest() == (SnapshotView::Unknown { reason: "sway provider starting"@ }),
            r.spec_backoff() == BACKOFF_START_MS,
    {
        SwayProvider {
            latest: ForegroundSnapshot::Unknown { reason: "sway provider starting".to_owned() },
            backoff_ms: BACKOFF_START_MS,
        }
    }

    /// Notes that the events cannot be followed in the background.
    pub fn spawn_failed(&mut self, error: &str)
        ensures
            final(self).spec_latest() == (SnapshotView::Unsupported {
                reason: "failed to spawn sway thread: "@ + error@,
            }),
            final(self).spec_backoff() == old(self).spec_backoff(),
    {
        self.latest = ForegroundSnapshot::Unsupported {
            reason: joined("failed to spawn sway thread: ", error),
        };
    }

    /// Notes that there is no socket, and says how long to wait before looking
    /// again.
    pub fn socket_missing(&mut self) -> (pause_ms: u64)
        ensures
            pause_ms == BACKOFF_MAX_MS,
            final(self).spec_latest() == (SnapshotView::Unsupported {
                reason: "SWAYSOCK/I3SOCK unset"@,
            }),
            final(self).spec_backoff() == old(self).spec_backoff(),
    {
        self.latest = ForegroundSnapshot::Unsupported {
            reason: "SWAYSOCK/I3SOCK unset".to_owned(),
        };
        BACKOFF_MAX_MS
    }

    /// The subscription was acknowledged: the pause starts over.
    pub fn subscribed(&mut self)
        ensures
            final(self).spec_backoff() == BACKOFF_START_MS,
            final(self).spec_latest() == old(self).spec_latest(),
    {
        self.backoff_ms = BACKOFF_START_MS;
    }

    /// Notes an event; the tree is needed when true comes back.
    pub fn observe_event(&mut self, payload: &[u8]) -> (needs_tree: bool)
        ensures
            final(self).spec_latest() == (match event_outcome(json::json_of_bytes(payload@)) {
                OutcomeView::Update(app) => SnapshotView::Known(app),
                _ => old(self).spec_latest(),
            }),
            final(self).spec_latest() == after_event(
                old(self).spec_latest(),
                json::json_of_bytes(payload@),
            ),
            needs_tree == (event_outcome(json::json_of_bytes(payload@)) is NeedsTreeRefresh),
            final(self).spec_backoff() == old(self).spec_backoff(),
    {
        match handle_window_event(payload) {
            EventOutcome::Update(app) => {
                self.latest = ForegroundSnapshot::Known(app);
                false
            },
            EventOutcome::NeedsTreeRefresh => true,
            EventOutcome::Ignore => false,
        }
    }

    /// Notes the tree. Bytes that hold none change nothing.
    pub fn observe_tree(&mut self, payload: &[u8])
        ensures
            final(self).spec_latest() == (match json::json_of_bytes(payload@) {
                Some(tree) => match focused_app(tree) {
                    Some(app) => SnapshotView::Known(app),
                    None => SnapshotView::Unknown { reason: "no focused window in sway tree"@ },
                },
                None => old(self).spec_latest(),
            }),
            final(self).spec_latest() == after_tree(
                old(self).spec_latest(),
                json::json_of_bytes(payload@),
            ),
            final(self).spec_backoff() == old(self).spec_backoff(),
    {
        match parse_bytes(payload) {
            Some(tree) => {
                self.latest = match find_focused(&tree) {
                    Some(app) => ForegroundSnapshot::Known(app),
                    None => ForegroundSnapshot::Unknown {
                        reason: "no focused window in sway tree".to_owned(),
                    },
                };
            },
            None => {},
        }
    }

    /// The session ended or could not be opened: says how long to wait before
    /// the next attempt.
    pub fn session_ended(&mut self) -> (pause_ms: u64)
        ensures
            pause_ms == old(self).spec_backoff(),
            final(self).spec_backoff() == shared::longer_pause(old(self).spec_backoff()),
            final(self).spec_latest() == old(self).spec_latest(),
    {
        let pause_ms: u64 = self.backoff_ms;
        self.backoff_ms = next_backoff(pause_ms);
        pause_ms
    }
}

impl ForegroundProvider for SwayProvider {
    open spec fn may_show(&self, snapshot: SnapshotView) -> bool {
        snapshot == self.spec_latest()
    }

    fn snapshot(&self) -> (r: ForegroundSnapshot)
        ensures
            r@ == self.spec_latest(),
    {
        self.latest.clone()
    }
}

/// Interprets a `window` event payload (`{"change": ..., "container": ...}`).
pub fn handle_window_event(payload: &[u8]) -> (r: EventOutcome)
    ensures
        r@ == event_outcome(json::json_of_bytes(payload@)),
{
    match parse_bytes(payload) {
        Some(event) => interpret_event(&event),
        // Unparseable payload: resync from the tree rather than going stale.
        None => EventOutcome::NeedsTreeRefresh,
    }
}

/// Interprets a `window` event.
pub fn interpret_event(event: &Json) -> (r: EventOutcome)
    ensures
        r@ == event_outcome(Some(event@)),
{
    let change: &str = match event.text_field("change") {
        Some(change) => change,
        None => {
            return EventOutcome::Ignore;
        },
    };
    if same(change, "focus") {
        match event.get("container") {
            Some(node) => EventOutcome::Update(node_to_app(node)),
            None => EventOutcome::NeedsTreeRefresh,
        }
    } else if same(change, "title") {
        // Title changes only matter for the currently focused window.
        match event.get("container") {
            Some(node) => {
                if is_focused(node) {
                    EventOutcome::Update(node_to_app(node))
                } else {
                    EventOutcome::Ignore
                }
            },
            None => EventOutcome::Ignore,
        }
    } else if same(change, "close") {
        // Closing a window can move focus without a matching focus event
        // (e.g. the workspace becomes empty).
        EventOutcome::NeedsTreeRefresh
    } else {
        EventOutcome::Ignore
    }
}

fn is_focused(node: &Json) -> (r: bool)
    ensures
        r == has_focus(node@),
{
    match node.bool_field("focused") {
        Some(focused) => focused,
        None => false,
    }
}

/// Recursively finds the node with `focused == true` and maps it to a
/// [`ForegroundApp`]. Searches both tiled (`nodes`) and `floating_nodes`.
#[must_use]
pub fn find_focused(node: &Json) -> (r: Option<ForegroundApp>)
    ensures
        filter::app_of(r) == focused_app(node@),
    decreases node@, 1int,
{
    if is_focused(node) {
        return Some(node_to_app(node));
    }
    proof {
        lemma_children_are_smaller(node@, "nodes"@);
        lemma_children_are_smaller(node@, "floating_nodes"@);
    }
    match node.array_field("nodes") {
        Some(items) => {
            if items.len() > 0 {
                let found: Option<ForegroundApp> = find_focused_among(items);
                if found.is_some() {
                    return found;
                }
            }
        },
        None => {},
    }
    match node.array_field("floating_nodes") {
        Some(items) => {
            if items.len() > 0 {
                let found: Option<ForegroundApp> = find_focused_among(items);
                if found.is_some() {
                    return found;
                }
            }
        },
        None => {},
    }
    None
}

fn find_focused_among(nodes: &Vec<Json>) -> (r: Option<ForegroundApp>)
    ensures
        filter::app_of(r) == (match focused_among(json::trees(nodes@)) {
            Some(node) => Some(node_app(node)),
            None => None,
        }),
    decreases json::trees(nodes@), 0int,
{
    let ghost all = json::trees(nodes@);
    assert(all.skip(0) =~= all);
    let mut i: usize = 0;
    while i < nodes.len()
        invariant
            i <= nodes@.len(),
            all == json::trees(nodes@),
            focused_among(all) == focused_among(all.skip(i as int)),
        decreases nodes@.len() - i,
    {
        assert(all.skip(i as int)[0] == nodes@[i as int]@);
        assert(decreases_to!(all => all[i as int]));
        let found: Option<ForegroundApp> = find_focused(&nodes[i]);
        if found.is_some() {
            return found;
        }
        assert(all.skip(i as int).skip(1) =~= all.skip(i + 1));
        i += 1;
    }
    None
}

fn filled(node: &Json, key: &str) -> (r: Option<String>)
    ensures
        text::text_of(r) == filled_field(node@, key@),
{
    match node.text_field(key) {
        Some(s) => {
            if s.is_empty() {
                None
            } else {
                Some(s.to_owned())
            }
        },
        None => None,
    }
}

/// The application of a node of the tree.
pub fn node_to_app(node: &Json) -> (r: ForegroundApp)
    ensures
        r@ == node_app(node@),
{
    let (class, instance): (Option<String>, Option<String>) = match node.get("window_properties") {
        Some(properties) => (filled(properties, "class"), filled(properties, "instance")),
        None => (None, None),
    };
    ForegroundApp {
        app_id: filled(node, "app_id"),
        class,
        resource_class: instance,
        title: filled(node, "name"),
        pid: pid_of(node),
        source: ForegroundSourceKind::Sway,
    }
}

/// Whether a node or any below it, tiled or floating, has the focus.
pub open spec fn holds_focus(tree: JsonTree) -> bool
    decreases tree,
{
    proof {
        lemma_children_are_smaller(tree, "nodes"@);
        lemma_children_are_smaller(tree, "floating_nodes"@);
    }
    ||| has_focus(tree)
    ||| exists|i: int|
        0 <= i < children(tree, "nodes"@).len() && holds_focus(
            #[trigger] children(tree, "nodes"@)[i],
        )
    ||| exists|i: int|
        0 <= i < children(tree, "floating_nodes"@).len() && holds_focus(
            #[trigger] children(tree, "floating_nodes"@)[i],
        )
}

/// The search finds a node exactly where one has the focus, however deep it
/// lies, and what it finds has the focus.
pub proof fn law_search_finds_the_focus(tree: JsonTree)
    ensures
        focused_node(tree) is Some <==> holds_focus(tree),
        focused_node(tree) matches Some(node) ==> has_focus(node),
    decreases tree,
{
    let tiled = children(tree, "nodes"@);
    let floating = children(tree, "floating_nodes"@);
    lemma_children_are_smaller(tree, "nodes"@);
    lemma_children_are_smaller(tree, "floating_nodes"@);
    if tiled.len() > 0 {
        lemma_search_among(tiled);
    }
    if floating.len() > 0 {
        lemma_search_among(floating);
    }
}

proof fn lemma_search_among(nodes: Seq<JsonTree>)
    ensures
        focused_among(nodes) is Some <==> exists|i: int|
            0 <= i < nodes.len() && holds_focus(#[trigger] nodes[i]),
        focused_among(nodes) matches Some(node) ==> has_focus(node),
    decreases nodes,
{
    if nodes.len() > 0 {
        let rest = nodes.skip(1);
        law_search_finds_the_focus(nodes[0]);
        lemma_search_among(rest);
        if focused_among(rest) is Some {
            let i = choose|i: int| 0 <= i < rest.len() && holds_focus(#[trigger] rest[i]);
            assert(nodes[i + 1] == rest[i]);
        }
        assert forall|i: int| 0 < i < nodes.len() && holds_focus(#[trigger] nodes[i]) implies exists|
            j: int,
        | 0 <= j < rest.len() && holds_focus(#[trigger] rest[j]) by {
            assert(rest[i - 1] == nodes[i]);
        }
    }
}

/// Whether a field of an application is what an object says under a key: a text
/// as it is, and none where there is no text or an empty one.
pub open spec fn reads(tree: JsonTree, key: Seq<char>, field: Option<Seq<char>>) -> bool {
    match tree.text_field(key) {
        Some(s) => if s.len() == 0 {
            field is None
        } else {
            field == Some(s)
        },
        None => field is None,
    }
}

/// Every field of an application comes from its own place in the node: the id
/// and the name from the node, the class and the instance from the window
/// properties, and the process id from the node where it fits.
pub proof fn law_nodes_are_read_by_name(tree: JsonTree)
    ensures
        reads(tree, "app_id"@, node_app(tree).app_id),
        reads(tree, "name"@, node_app(tree).title),
        tree.get("window_properties"@) matches Some(properties) ==> {
            &&& reads(properties, "class"@, node_app(tree).class)
            &&& reads(properties, "instance"@, node_app(tree).resource_class)
        },
        tree.get("window_properties"@) is None ==> node_app(tree).class is None && node_app(
            tree,
        ).resource_class is None,
        node_app(tree).source == ForegroundSourceKind::Sway,
        match tree.u64_field("pid"@) {
            Some(pid) => if pid < 0x1_0000_0000 {
                node_app(tree).pid == Some(pid as u32)
            } else {
                node_app(tree).pid is None
            },
            None => node_app(tree).pid is None,
        },
{
}

/// What a window event means. A window that got the focus, or that has it and
/// got a new title, is the application in front. A window that closed, a focus
/// without a window, and what is no event at all call for a look at the tree.
/// Nothing else matters.
pub proof fn law_window_events(event: JsonTree)
    ensures
        event_outcome(None) is NeedsTreeRefresh,
        event.text_field("change"@) is None ==> event_outcome(Some(event)) is Ignore,
        event.text_field("change"@) matches Some(change) ==> {
            &&& change == "focus"@ ==> match event.get("container"@) {
                Some(node) => event_outcome(Some(event)) == OutcomeView::Update(node_app(node)),
                None => event_outcome(Some(event)) is NeedsTreeRefresh,
            }
            &&& change == "title"@ ==> match event.get("container"@) {
                Some(node) => if node.get("focused"@) == Some(JsonTree::Bool(true)) {
                    event_outcome(Some(event)) == OutcomeView::Update(node_app(node))
                } else {
                    event_outcome(Some(event)) is Ignore
                },
                None => event_outcome(Some(event)) is Ignore,
            }
            &&& change == "close"@ ==> event_outcome(Some(event)) is NeedsTreeRefresh
            &&& change != "focus"@ && change != "title"@ && change != "close"@ ==> event_outcome(
                Some(event),
            ) is Ignore
        },
{
    reveal_strlit("focus");
    reveal_strlit("title");
    reveal_strlit("close");
    assert("focus"@[0] != "title"@[0]);
    assert("focus"@[0] != "close"@[0]);
    assert("close"@[0] != "title"@[0]);
}

/// Whether none of the first `count` nodes holds the focus.
pub open spec fn none_before(nodes: Seq<JsonTree>, count: int) -> bool {
    forall|j: int| 0 <= j < count ==> !holds_focus(#[trigger] nodes[j])
}

/// The search goes in order: a node that has the focus is found before those
/// below it, a tiled node before a floating one, and the first of several before
/// the others. What has the focus is a node whose field says so.
pub proof fn law_search_goes_in_order(tree: JsonTree, i: int)
    ensures
        has_focus(tree) <==> tree.get("focused"@) == Some(JsonTree::Bool(true)),
        has_focus(tree) ==> focused_node(tree) == Some(tree),
        ({
            let tiled = children(tree, "nodes"@);
            let floating = children(tree, "floating_nodes"@);
            &&& !has_focus(tree) && 0 <= i < tiled.len() && none_before(tiled, i) && holds_focus(
                tiled[i],
            ) ==> focused_node(tree) == focused_node(tiled[i])
            &&& !has_focus(tree) && none_before(tiled, tiled.len() as int) && 0 <= i
                < floating.len() && none_before(floating, i) && holds_focus(floating[i])
                ==> focused_node(tree) == focused_node(floating[i])
        }),
{
    let tiled = children(tree, "nodes"@);
    let floating = children(tree, "floating_nodes"@);
    lemma_children_are_smaller(tree, "nodes"@);
    lemma_children_are_smaller(tree, "floating_nodes"@);
    if 0 <= i < tiled.len() && none_before(tiled, i) && holds_focus(tiled[i]) {
        lemma_first_holder(tiled, i);
        law_search_finds_the_focus(tiled[i]);
    }
    lemma_search_among(tiled);
    if 0 <= i < floating.len() && none_before(floating, i) && holds_focus(floating[i]) {
        lemma_first_holder(floating, i);
        law_search_finds_the_focus(floating[i]);
    }
}

proof fn lemma_first_holder(nodes: Seq<JsonTree>, i: int)
    requires
        0 <= i < nodes.len(),
        none_before(nodes, i),
        holds_focus(nodes[i]),
    ensures
        focused_among(nodes) == focused_node(nodes[i]),
    decreases nodes.len(),
{
    law_search_finds_the_focus(nodes[0]);
    if i > 0 {
        let rest = nodes.skip(1);
        assert(!holds_focus(nodes[0]));
        assert forall|j: int| 0 <= j < i - 1 implies !holds_focus(#[trigger] rest[j]) by {
            assert(!holds_focus(nodes[j + 1]));
        }
        lemma_first_holder(rest, i - 1);
    }
}

/// The children of a node are the items of its list, and none where it has none.
pub proof fn law_children_are_the_items(tree: JsonTree, key: Seq<char>)
    ensures
        match tree.get(key) {
            Some(JsonTree::Array(items)) => children(tree, key) == items,
            _ => children(tree, key).len() == 0,
        },
{
}

/// The application in front is that of the node that the search finds.
pub proof fn law_focused_node_is_the_app(tree: JsonTree)
    ensures
        focused_app(tree) is Some <==> focused_node(tree) is Some,
        focused_node(tree) matches Some(node) ==> focused_app(tree) == Some(node_app(node)),
{
}

/// A window that gets the focus is known from then on, whatever was known before;
/// an event that tells of no window leaves known what was.
pub proof fn law_events_are_noted(latest: SnapshotView, event: JsonTree)
    ensures
        after_event(latest, None) == latest,
        event.text_field("change"@) == Some("focus"@) ==> (event.get(
            "container"@,
        ) matches Some(node) ==> after_event(latest, Some(event)) == SnapshotView::Known(
            node_app(node),
        )),
        event.text_field("change"@) == Some("close"@) ==> after_event(latest, Some(event))
            == latest,
        event.text_field("change"@) is None ==> after_event(latest, Some(event)) == latest,
{
    law_window_events(event);
}

/// After a look at the tree the node with the focus is known, and nothing where
/// none has it; bytes that hold no tree change nothing.
pub proof fn law_trees_are_noted(latest: SnapshotView, tree: JsonTree)
    ensures
        after_tree(latest, None) == latest,
        holds_focus(tree) ==> (focused_node(tree) matches Some(node) && after_tree(
            latest,
            Some(tree),
        ) == SnapshotView::Known(node_app(node))),
        !holds_focus(tree) ==> after_tree(latest, Some(tree)) is Unknown,
{
    law_search_finds_the_focus(tree);
}

/// The sockets of Sway are named `sway-ipc.`, then anything, then `.sock`; what
/// begins or ends otherwise is none.
pub proof fn law_socket_names(middle: Seq<char>, name: Seq<char>)
    ensures
        socket_name("sway-ipc."@ + middle + ".sock"@),
        socket_name(name) ==> name.len() >= 9 && name.take(9) == "sway-ipc."@ && name.skip(
            name.len() - 5,
        ) == ".sock"@,
{
    reveal_strlit("sway-ipc.");
    reveal_strlit(".sock");
    let whole = "sway-ipc."@ + middle + ".sock"@;
    assert(whole.take(9) =~= "sway-ipc."@);
    assert(whole.skip(whole.len() - 5) =~= ".sock"@);
    if socket_name(name) {
        assert(name.take(9) =~= "sway-ipc."@);
        assert(name.skip(name.len() - 5) =~= ".sock"@);
    }
}

/// The content of an outcome is that of the application in it.
pub proof fn law_outcomes_show_their_content(outcome: EventOutcome)
    ensures
        outcome matches EventOutcome::Update(app) ==> outcome@ == OutcomeView::Update(app@),
        outcome is NeedsTreeRefresh <==> outcome@ is NeedsTreeRefresh,
        outcome is Ignore <==> outcome@ is Ignore,
{
}

} // verus!
