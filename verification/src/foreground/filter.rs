//! Foreground application model, the provider trait, and the decision gate.

use vstd::prelude::*;

use super::config::{ForegroundConfig, ForegroundSettings, UnknownPolicy};
use super::matcher;
use crate::event_router::RoutedEvent;
use crate::model::{CoreInputEvent, EngineState};
use crate::text;

verus! {

/// A snapshot of the currently focused application, as reported by a provider.
///
/// All identity fields are optional because different compositors expose
/// different subsets (Hyprland exposes a window class, Sway can expose an
/// `app_id` for native Wayland and a WM class for `XWayland`, etc.). The matcher
/// compares the configured lists against every populated field.
#[derive(Debug, PartialEq, Eq)]
pub struct ForegroundApp {
    pub app_id: Option<String>,
    pub class: Option<String>,
    pub resource_class: Option<String>,
    pub title: Option<String>,
    pub pid: Option<u32>,
    pub source: ForegroundSourceKind,
}

/// Where a [`ForegroundApp`] came from.
#[derive(Debug, Clone, Copy, PartialEq, Eq, Structural)]
pub enum ForegroundSourceKind {
    NoSource,
    Command,
    Hyprland,
    Sway,
    Gnome,
    /// KDE Plasma (`KWin`), resolved through the `kdotool` helper.
    Kde,
    /// Reserved for providers that report an indeterminate origin.
    Unknown,
}

impl Default for ForegroundSourceKind {
    fn default() -> (r: ForegroundSourceKind)
        ensures
            r == ForegroundSourceKind::NoSource,
    {
        ForegroundSourceKind::NoSource
    }
}

/// The mathematical content of a [`ForegroundApp`].
pub struct AppView {
    pub app_id: Option<Seq<char>>,
    pub class: Option<Seq<char>>,
    pub resource_class: Option<Seq<char>>,
    pub title: Option<Seq<char>>,
    pub pid: Option<u32>,
    pub source: ForegroundSourceKind,
}

impl View for ForegroundApp {
    type V = AppView;

    open spec fn view(&self) -> AppView {
        AppView {
            app_id: text::text_of(self.app_id),
            class: text::text_of(self.class),
            resource_class: text::text_of(self.resource_class),
            title: text::text_of(self.title),
            pid: self.pid,
            source: self.source,
        }
    }
}

/// The content of an optional application.
pub open spec fn app_of(app: Option<ForegroundApp>) -> Option<AppView> {
    match app {
        Some(app) => Some(app@),
        None => None,
    }
}

impl Default for ForegroundApp {
    fn default() -> (r: ForegroundApp)
        ensures
            r@ == (AppView {
                app_id: None,
                class: None,
                resource_class: None,
                title: None,
                pid: None,
                source: ForegroundSourceKind::NoSource,
            }),
    {
        ForegroundApp {
            app_id: None,
            class: None,
            resource_class: None,
            title: None,
            pid: None,
            source: ForegroundSourceKind::NoSource,
        }
    }
}

impl Clone for ForegroundApp {
    fn clone(&self) -> (r: ForegroundApp)
        ensures
            r == *self,
    {
        ForegroundApp {
            app_id: cloned_text(&self.app_id),
            class: cloned_text(&self.class),
            resource_class: cloned_text(&self.resource_class),
            title: cloned_text(&self.title),
            pid: self.pid,
            source: self.source,
        }
    }
}

fn cloned_text(text: &Option<String>) -> (r: Option<String>)
    ensures
        r == *text,
{
    match text {
        Some(text) => Some(text.clone()),
        None => None,
    }
}

/// The result of querying a provider for the active window.
#[derive(Debug, PartialEq, Eq)]
pub enum ForegroundSnapshot {
    /// The focused application is known.
    Known(ForegroundApp),
    /// The provider is running but cannot currently tell which app is focused.
    Unknown { reason: String },
    /// No usable provider for this session (wrong compositor, missing helper).
    Unsupported { reason: String },
}

/// The mathematical content of a [`ForegroundSnapshot`].
pub enum SnapshotView {
    Known(AppView),
    Unknown { reason: Seq<char> },
    Unsupported { reason: Seq<char> },
}

impl View for ForegroundSnapshot {
    type V = SnapshotView;

    open spec fn view(&self) -> SnapshotView {
        match *self {
            ForegroundSnapshot::Known(app) => SnapshotView::Known(app@),
            ForegroundSnapshot::Unknown { reason } => SnapshotView::Unknown { reason: reason@ },
            ForegroundSnapshot::Unsupported { reason } => SnapshotView::Unsupported {
                reason: reason@,
            },
        }
    }
}

impl Clone for ForegroundSnapshot {
    fn clone(&self) -> (r: ForegroundSnapshot)
        ensures
            r == *self,
    {
        match self {
            ForegroundSnapshot::Known(app) => ForegroundSnapshot::Known(app.clone()),
            ForegroundSnapshot::Unknown { reason } => ForegroundSnapshot::Unknown {
                reason: reason.clone(),
            },
            ForegroundSnapshot::Unsupported { reason } => ForegroundSnapshot::Unsupported {
                reason: reason.clone(),
            },
        }
    }
}

/// A foreground provider keeps the latest known window up to date in the
/// background and exposes it through a cheap, non-blocking `snapshot`.
///
/// Implementations MUST NOT block in `snapshot()`: the input hot path calls it
/// on every middle-button press. All I/O (sockets, subprocesses) must happen on
/// a background thread that updates shared state.
pub trait ForegroundProvider: Send {
    /// Which snapshots the provider may show; any, where it does not say.
    open spec fn may_show(&self, snapshot: SnapshotView) -> bool {
        true
    }

    fn snapshot(&self) -> (r: ForegroundSnapshot)
        ensures
            self.may_show(r@),
    ;
}

/// Whether the autoscroll engine should handle an event, or whether it must be
/// passed straight through to the virtual device.
#[derive(Debug, Clone, Copy, PartialEq, Eq, Structural)]
pub enum AutoscrollDecision {
    Enabled,
    Disabled,
}

/// What the configuration makes of a snapshot.
pub open spec fn evaluated(snapshot: SnapshotView, cfg: ForegroundSettings) -> AutoscrollDecision {
    match snapshot {
        SnapshotView::Known(app) => matcher::decided(app, cfg),
        _ => match cfg.unknown_policy {
            UnknownPolicy::Enabled => AutoscrollDecision::Enabled,
            UnknownPolicy::Disabled => AutoscrollDecision::Disabled,
        },
    }
}

/// What the configuration makes of a snapshot.
pub fn evaluate_snapshot(snapshot: &ForegroundSnapshot, cfg: &ForegroundConfig) -> (r:
    AutoscrollDecision)
    ensures
        r == evaluated(snapshot@, cfg@),
{
    match snapshot {
        ForegroundSnapshot::Known(app) => matcher::decide(app, cfg),
        _ => match cfg.unknown_policy {
            UnknownPolicy::Enabled => AutoscrollDecision::Enabled,
            UnknownPolicy::Disabled => AutoscrollDecision::Disabled,
        },
    }
}

/// Runtime decision layer sitting between `event_router::classify` and the
/// autoscroll engine. It evaluates the active provider and latches a single
/// decision for the duration of a middle-button gesture.
pub struct ForegroundGate {
    cfg: ForegroundConfig,
    // In a tuple, so that what is known of the boxed value stays known.
    provider: (Box<dyn ForegroundProvider>,),
    latched_middle_decision: Option<AutoscrollDecision>,
}

/// The mathematical content of a [`ForegroundGate`].
pub struct GateView {
    pub cfg: ForegroundSettings,
    /// The decision that holds for the gesture in flight.
    pub latched: Option<AutoscrollDecision>,
}

impl GateView {
    /// Whether an event begins a gesture for which a decision has to be taken.
    pub open spec fn begins_gesture(self, routed: RoutedEvent, engine_state: EngineState) -> bool {
        &&& self.cfg.enabled
        &&& self.latched is None
        &&& engine_state == EngineState::Idle
        &&& routed == RoutedEvent::Core(CoreInputEvent::MiddleDown)
    }

    /// The decision for an event. A filter that is off decides nothing; a
    /// gesture in flight keeps its decision; the start of a gesture goes by
    /// the snapshot; and outside a gesture the engine handles the event.
    pub open spec fn decision(
        self,
        routed: RoutedEvent,
        engine_state: EngineState,
        snapshot: SnapshotView,
    ) -> AutoscrollDecision {
        if self.begins_gesture(routed, engine_state) {
            evaluated(snapshot, self.cfg)
        } else if self.cfg.enabled && self.latched is Some {
            self.latched->0
        } else {
            AutoscrollDecision::Enabled
        }
    }

    /// What becomes of the latch: only the one that begins a gesture is
    /// latched.
    pub open spec fn after_decision(
        self,
        routed: RoutedEvent,
        engine_state: EngineState,
        snapshot: SnapshotView,
    ) -> GateView {
        if self.begins_gesture(routed, engine_state) {
            GateView {
                latched: Some(self.decision(routed, engine_state, snapshot)),
                ..self
            }
        } else {
            self
        }
    }

    /// What becomes of the latch once an event was handled: the release of the middle button
    /// ends the gesture.
    pub open spec fn after_event(self, routed: RoutedEvent) -> GateView {
        if routed == RoutedEvent::Core(CoreInputEvent::MiddleUp) {
            GateView { latched: None, ..self }
        } else {
            self
        }
    }
}

impl View for ForegroundGate {
    type V = GateView;

    closed spec fn view(&self) -> GateView {
        GateView { cfg: self.cfg@, latched: self.latched_middle_decision }
    }
}

impl ForegroundGate {
    /// Which snapshots the provider may show.
    pub closed spec fn provider_may_show(self, snapshot: SnapshotView) -> bool {
        self.provider.0.may_show(snapshot)
    }

    /// Builds a gate for `cfg` on the provider that was selected and started
    /// for it.
    ///
    /// When the filter is disabled no provider needs to be started at all: the
    /// gate answers `Enabled` without ever consulting a snapshot.
    #[must_use]
    pub fn new(cfg: ForegroundConfig, provider: Box<dyn ForegroundProvider>) -> (r: ForegroundGate)
        ensures
            r@ == (GateView { cfg: cfg@, latched: None }),
            forall|snapshot: SnapshotView| #[trigger]
                r.provider_may_show(snapshot) == provider.may_show(snapshot),
    {
        let held = (provider,);
        ForegroundGate { cfg, provider: held, latched_middle_decision: None }
    }

    /// Builds a gate with an explicit provider.
    #[must_use]
    pub fn with_provider(cfg: ForegroundConfig, provider: Box<dyn ForegroundProvider>) -> (r:
        ForegroundGate)
        ensures
            r@ == (GateView { cfg: cfg@, latched: None }),
            forall|snapshot: SnapshotView| #[trigger]
                r.provider_may_show(snapshot) == provider.may_show(snapshot),
    {
        let held = (provider,);
        ForegroundGate { cfg, provider: held, latched_middle_decision: None }
    }

    /// Clears any latched gesture decision. Called after a physical-device
    /// reconnect so a gesture interrupted by an unplug cannot leave a stale
    /// latch behind.
    pub fn reset_latch(&mut self)
        ensures
            final(self)@ == (GateView { latched: None, ..old(self)@ }),
            forall|snapshot: SnapshotView| #[trigger]
                final(self).provider_may_show(snapshot) == old(self).provider_may_show(snapshot),
    {
        self.latched_middle_decision = None;
    }

    /// Returns whether the engine should process `routed`, or whether it must be
    /// passed through. The decision is taken once at the start of a middle
    /// gesture and held until `MiddleUp`. Only there is the provider asked, and
    /// the decision goes by what it shows.
    pub fn decision_for_event(&mut self, routed: &RoutedEvent, engine_state: EngineState) -> (r:
        AutoscrollDecision)
        ensures
            exists|snapshot: SnapshotView|
                {
                    &&& r == #[trigger] old(self)@.decision(*routed, engine_state, snapshot)
                    &&& final(self)@ == old(self)@.after_decision(*routed, engine_state, snapshot)
                    &&& old(self)@.begins_gesture(*routed, engine_state) ==> old(
                        self,
                    ).provider_may_show(snapshot)
                },
            forall|snapshot: SnapshotView| #[trigger]
                final(self).provider_may_show(snapshot) == old(self).provider_may_show(snapshot),
    {
        if self.begins_gesture(routed, engine_state) {
            let snapshot: ForegroundSnapshot = self.provider.0.snapshot();
            let r: AutoscrollDecision = self.decision_with_snapshot(
                routed,
                engine_state,
                &snapshot,
            );
            assert(r == old(self)@.decision(*routed, engine_state, snapshot@));
            r
        } else {
            let ghost any: SnapshotView = SnapshotView::Unknown { reason: seq![] };
            let r: AutoscrollDecision = self.standing_decision();
            assert(r == old(self)@.decision(*routed, engine_state, any));
            r
        }
    }

    /// The same for a snapshot that is already at hand.
    pub fn decision_with_snapshot(
        &mut self,
        routed: &RoutedEvent,
        engine_state: EngineState,
        snapshot: &ForegroundSnapshot,
    ) -> (r: AutoscrollDecision)
        ensures
            r == old(self)@.decision(*routed, engine_state, snapshot@),
            final(self)@ == old(self)@.after_decision(*routed, engine_state, snapshot@),
            forall|shown: SnapshotView| #[trigger]
                final(self).provider_may_show(shown) == old(self).provider_may_show(shown),
    {
        if self.begins_gesture(routed, engine_state) {
            // Start of a new middle gesture: evaluate once and latch.
            let decision: AutoscrollDecision = evaluate_snapshot(snapshot, &self.cfg);
            self.latched_middle_decision = Some(decision);
            decision
        } else {
            self.standing_decision()
        }
    }

    /// Whether `routed` begins a gesture, for which a snapshot is needed.
    pub fn begins_gesture(&self, routed: &RoutedEvent, engine_state: EngineState) -> (r: bool)
        ensures
            r == self@.begins_gesture(*routed, engine_state),
    {
        self.cfg.enabled && self.latched_middle_decision.is_none() && engine_state
            == EngineState::Idle && *routed == RoutedEvent::Core(CoreInputEvent::MiddleDown)
    }

    /// The decision where no gesture begins: a gesture in flight keeps the
    /// decision taken at its `MiddleDown`. Outside a gesture the engine is
    /// already transparent for non-middle events, so they go through it exactly
    /// as without a filter.
    fn standing_decision(&self) -> (r: AutoscrollDecision)
        ensures
            r == (if self@.cfg.enabled && self@.latched is Some {
                self@.latched->0
            } else {
                AutoscrollDecision::Enabled
            }),
    {
        if !self.cfg.enabled {
            return AutoscrollDecision::Enabled;
        }
        match self.latched_middle_decision {
            Some(latched) => latched,
            None => AutoscrollDecision::Enabled,
        }
    }

    /// Releases the gesture latch once the middle button is back up. Kept as a
    /// separate hook so the decision stays stable while the button is held even
    /// though, in the pass-through case, the engine never leaves `Idle`.
    pub fn after_event(&mut self, routed: &RoutedEvent, _engine_state_after: EngineState)
        ensures
            final(self)@ == old(self)@.after_event(*routed),
            forall|snapshot: SnapshotView| #[trigger]
                final(self).provider_may_show(snapshot) == old(self).provider_may_show(snapshot),
    {
        if *routed == RoutedEvent::Core(CoreInputEvent::MiddleUp) {
            self.latched_middle_decision = None;
        }
    }
}

/// A filter that is off never stands in the way, and never latches anything.
pub proof fn law_disabled_filter_is_inert(
    gate: GateView,
    routed: RoutedEvent,
    engine_state: EngineState,
    snapshot: SnapshotView,
)
    requires
        !gate.cfg.enabled,
    ensures
        gate.decision(routed, engine_state, snapshot) == AutoscrollDecision::Enabled,
        gate.after_decision(routed, engine_state, snapshot) == gate,
{
}

/// The decision taken at the start of a gesture holds for every event of it,
/// whatever the focus does meanwhile.
pub proof fn law_decision_holds_for_gesture(
    gate: GateView,
    first_snapshot: SnapshotView,
    routed: RoutedEvent,
    engine_state: EngineState,
    snapshot: SnapshotView,
)
    requires
        gate.cfg.enabled,
        gate.latched is None,
    ensures
        ({
            let press = RoutedEvent::Core(CoreInputEvent::MiddleDown);
            let latched = gate.after_decision(press, EngineState::Idle, first_snapshot);
            &&& latched.decision(routed, engine_state, snapshot) == evaluated(
                first_snapshot,
                gate.cfg,
            )
            &&& latched.after_decision(routed, engine_state, snapshot) == latched
            &&& routed != RoutedEvent::Core(CoreInputEvent::MiddleUp) ==> latched.after_event(
                routed,
            ) == latched
        }),
{
}

/// The release of the middle button ends the gesture: the next press is
/// decided afresh.
pub proof fn law_release_ends_gesture(gate: GateView, snapshot: SnapshotView)
    requires
        gate.cfg.enabled,
    ensures
        ({
            let released = gate.after_event(RoutedEvent::Core(CoreInputEvent::MiddleUp));
            released.decision(
                RoutedEvent::Core(CoreInputEvent::MiddleDown),
                EngineState::Idle,
                snapshot,
            ) == evaluated(snapshot, gate.cfg)
        }),
{
}

/// Outside a gesture every event goes to the engine, even with a denied
/// application in front.
pub proof fn law_only_gestures_are_filtered(
    gate: GateView,
    routed: RoutedEvent,
    engine_state: EngineState,
    snapshot: SnapshotView,
)
    requires
        gate.latched is None,
        routed != RoutedEvent::Core(CoreInputEvent::MiddleDown) || engine_state
            != EngineState::Idle,
    ensures
        gate.decision(routed, engine_state, snapshot) == AutoscrollDecision::Enabled,
        gate.after_decision(routed, engine_state, snapshot) == gate,
{
}

/// The content of an application is that of its fields, each by its own name.
pub proof fn law_apps_show_their_fields(app: ForegroundApp)
    ensures
        app.app_id is Some <==> app@.app_id is Some,
        app.class is Some <==> app@.class is Some,
        app.resource_class is Some <==> app@.resource_class is Some,
        app.title is Some <==> app@.title is Some,
        app.app_id matches Some(s) ==> app@.app_id == Some(s@),
        app.class matches Some(s) ==> app@.class == Some(s@),
        app.resource_class matches Some(s) ==> app@.resource_class == Some(s@),
        app.title matches Some(s) ==> app@.title == Some(s@),
        app@.pid == app.pid,
        app@.source == app.source,
{
}

/// A known application goes by the lists. Where none is known, for whatever
/// reason, the policy for that case decides, and the lists play no part.
pub proof fn law_unknown_apps_go_by_the_policy(snapshot: SnapshotView, cfg: ForegroundSettings)
    ensures
        snapshot matches SnapshotView::Known(app) ==> evaluated(snapshot, cfg) == matcher::decided(
            app,
            cfg,
        ),
        !(snapshot is Known) ==> (evaluated(snapshot, cfg) == AutoscrollDecision::Enabled
            <==> cfg.unknown_policy == UnknownPolicy::Enabled),
{
}

/// The press that begins a gesture is decided by the snapshot of that moment,
/// and that decision is the one that is latched.
pub proof fn law_press_takes_the_decision(gate: GateView, snapshot: SnapshotView)
    requires
        gate.cfg.enabled,
        gate.latched is None,
    ensures
        ({
            let press = RoutedEvent::Core(CoreInputEvent::MiddleDown);
            let decision = gate.decision(press, EngineState::Idle, snapshot);
            let after = gate.after_decision(press, EngineState::Idle, snapshot);
            &&& gate.begins_gesture(press, EngineState::Idle)
            &&& decision == evaluated(snapshot, gate.cfg)
            &&& after.latched == Some(decision)
            &&& after.cfg == gate.cfg
        }),
{
}

/// While a decision is latched it is the answer to every event, whatever the
/// event, the engine and the focus are; no event but the release of the middle
/// button takes it away, and that one always does.
pub proof fn law_latched_decision_stands(
    gate: GateView,
    routed: RoutedEvent,
    engine_state: EngineState,
    snapshot: SnapshotView,
)
    requires
        gate.cfg.enabled,
        gate.latched is Some,
    ensures
        !gate.begins_gesture(routed, engine_state),
        gate.decision(routed, engine_state, snapshot) == gate.latched->0,
        gate.after_decision(routed, engine_state, snapshot) == gate,
        gate.after_event(routed).cfg == gate.cfg,
        gate.after_event(routed).latched is None <==> routed == RoutedEvent::Core(
            CoreInputEvent::MiddleUp,
        ),
        gate.after_event(routed).latched is Some ==> gate.after_event(routed).latched
            == gate.latched,
{
}

/// The content of a snapshot is that of the application or of the reason in it.
pub proof fn law_snapshots_show_their_content(snapshot: ForegroundSnapshot)
    ensures
        snapshot matches ForegroundSnapshot::Known(app) ==> snapshot@ == SnapshotView::Known(app@),
        snapshot matches ForegroundSnapshot::Unknown { reason } ==> snapshot@ == (
        SnapshotView::Unknown { reason: reason@ }),
        snapshot matches ForegroundSnapshot::Unsupported { reason } ==> snapshot@ == (
        SnapshotView::Unsupported { reason: reason@ }),
{
}

} // verus!
