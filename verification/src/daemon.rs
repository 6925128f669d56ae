//! The daemon's decisions between the physical mouse, the engine and the
//! virtual mouse.

use vstd::prelude::*;

use crate::binary64::Binary64;
use crate::config::CoreConfig;
use crate::config_loader;
use crate::config_loader::{human_id, ParsedDeviceMatch, ResolvedConfig};
use crate::device_discovery::MatchCriteria;
use crate::engine::{Engine, EngineModel, WheelTask};
use crate::event_router;
use crate::event_router::{classify, dry_run_describe, passthrough_actions, RoutedEvent};
use crate::foreground::filter::{
    AutoscrollDecision, ForegroundGate, ForegroundSnapshot, GateView, SnapshotView,
};
use crate::model::{CoreAction, CoreInputEvent, EngineState};
use crate::record::InputRecord;
use crate::text;

verus! {

/// Settling time for the compositor after the virtual mouse was created.
pub const COMPOSITOR_SETTLE_DELAY_MS: u64 = 200;

/// Total time spent waiting for a `device_match` to appear. Useful when
/// the daemon is launched by systemd before USB enumeration completes.
pub const DEVICE_MATCH_RETRY_TIMEOUT_MS: u64 = 10_000;

/// Polling interval while waiting for a `device_match`, both at startup and
/// while waiting for the mouse to be plugged back in at runtime.
pub const DEVICE_MATCH_RETRY_INTERVAL_MS: u64 = 500;

/// Why the inner event loop ended.
#[derive(Debug, Clone, Copy, PartialEq, Eq, Structural)]
pub enum LoopOutcome {
    /// A shutdown signal or the safety timeout fired; stop the daemon.
    Shutdown,
    /// The physical device went away (unplugged). Try to re-open it,
    /// possibly on a different `/dev/input/eventXX` node or USB port.
    DeviceLost,
}

/// Owned criteria used to re-find the mouse after it is unplugged and
/// plugged back in, possibly on a different USB port. Prefers the configured
/// `[device_match]`; otherwise it is derived from the live device so that
/// `--device`/plain `device =` configurations also reconnect across ports.
#[derive(Debug)]
pub struct ReconnectMatch {
    pub vendor_id: u16,
    pub product_id: u16,
    pub name: Option<String>,
    pub phys: Option<String>,
}

impl ReconnectMatch {
    /// Builds the reconnect criteria from a configured `[device_match]`, if
    /// any. Returns `None` for plain `device =`/`--device` configurations that
    /// have no stable USB id to match on.
    pub fn from_config(cfg: &ResolvedConfig) -> (r: Option<ReconnectMatch>)
        ensures
            match cfg.device_match {
                Some(m) => r == Some(
                    ReconnectMatch {
                        vendor_id: m.vendor_id,
                        product_id: m.product_id,
                        name: m.name,
                        phys: m.phys,
                    },
                ),
                None => r is None,
            },
    {
        match &cfg.device_match {
            Some(m) => {
                let copy: ParsedDeviceMatch = m.copied();
                Some(
                    ReconnectMatch {
                        vendor_id: copy.vendor_id,
                        product_id: copy.product_id,
                        name: copy.name,
                        phys: copy.phys,
                    },
                )
            },
            None => None,
        }
    }

    /// Derives reconnect criteria from a live device. Used so that
    /// `--device`/plain configurations also reconnect across ports: once the
    /// mouse has been opened, its USB id is known. `phys` is intentionally left
    /// unset so the match does not depend on the current port.
    pub fn from_device(vendor_id: u16, product_id: u16, name: &str) -> (r: ReconnectMatch)
        ensures
            r.vendor_id == vendor_id,
            r.product_id == product_id,
            text::text_of(r.name) == Some(name@),
            r.phys is None,
    {
        ReconnectMatch { vendor_id, product_id, name: Some(name.to_owned()), phys: None }
    }

    pub fn criteria(&self) -> (r: MatchCriteria<'_>)
        ensures
            r.vendor_id == self.vendor_id,
            r.product_id == self.product_id,
            match r.name {
                Some(s) => text::text_of(self.name) == Some(s@),
                None => self.name is None,
            },
            match r.phys {
                Some(s) => text::text_of(self.phys) == Some(s@),
                None => self.phys is None,
            },
    {
        MatchCriteria {
            vendor_id: self.vendor_id,
            product_id: self.product_id,
            name: config_loader::text_ref(&self.name),
            phys: config_loader::text_ref(&self.phys),
        }
    }

    pub fn human_id(&self) -> (r: String)
        ensures
            r@ == config_loader::id_pair(self.vendor_id, self.product_id),
    {
        human_id(self.vendor_id, self.product_id)
    }
}

/// Whether to go on waiting for a mouse that is not there: a service waits for
/// as long as it takes, anything else gives up after a while.
pub fn keep_looking(wait_forever: bool, elapsed_ms: u64) -> (r: bool)
    ensures
        wait_forever ==> r,
        !wait_forever ==> (r <==> elapsed_ms < 10_000),
        r == (wait_forever || elapsed_ms < DEVICE_MATCH_RETRY_TIMEOUT_MS),
{
    wait_forever || elapsed_ms < DEVICE_MATCH_RETRY_TIMEOUT_MS
}

/// What to say about grabbing when the daemon starts.
#[derive(Debug, Clone, Copy, PartialEq, Eq, Structural)]
pub enum StartNote {
    Nothing,
    /// A dry run skips the grab, so as not to capture the mouse silently.
    DryRunSkipsGrab,
    /// Without a grab the compositor sees physical and virtual events.
    NoGrab,
}

/// How the daemon starts.
#[derive(Debug, Clone, Copy, PartialEq, Eq, Structural)]
pub struct StartPlan {
    /// Whether a virtual mouse is needed.
    pub virtual_mouse: bool,
    /// Whether the physical mouse is grabbed, at the start and after every
    /// reconnect.
    pub grab: bool,
    pub note: StartNote,
    /// The time between two ticks.
    pub tick_period_us: u64,
}

/// The plan for a start.
pub open spec fn planned(grab: bool, dry_run: bool, tick_hz: u32) -> StartPlan {
    StartPlan {
        virtual_mouse: !dry_run,
        grab: grab && !dry_run,
        note: if grab && dry_run {
            StartNote::DryRunSkipsGrab
        } else if !grab {
            StartNote::NoGrab
        } else {
            StartNote::Nothing
        },
        tick_period_us: (1_000_000int / tick_hz as int) as u64,
    }
}

/// How the daemon starts.
pub fn start_plan(grab: bool, dry_run: bool, tick_hz: u32) -> (r: StartPlan)
    requires
        0 < tick_hz,
    ensures
        r == (StartPlan {
            virtual_mouse: !dry_run,
            grab: grab && !dry_run,
            note: if grab && dry_run {
                StartNote::DryRunSkipsGrab
            } else if !grab {
                StartNote::NoGrab
            } else {
                StartNote::Nothing
            },
            tick_period_us: (1_000_000int / tick_hz as int) as u64,
        }),
        r == planned(grab, dry_run, tick_hz),
{
    let note: StartNote = if grab && dry_run {
        StartNote::DryRunSkipsGrab
    } else if !grab {
        StartNote::NoGrab
    } else {
        StartNote::Nothing
    };
    StartPlan {
        virtual_mouse: !dry_run,
        grab: grab && !dry_run,
        note,
        tick_period_us: 1_000_000 / tick_hz as u64,
    }
}

/// How long to wait for input, in whole milliseconds: the time to the next
/// tick, rounded up so that the tick is due when the wait ends, up to what can
/// be waited for at once.
pub open spec fn wait_millis(until_next_tick_ns: int) -> int {
    let millis = (until_next_tick_ns / 1000 + 999) / 1000;
    if millis > u16::MAX {
        u16::MAX as int
    } else {
        millis
    }
}

/// How long to wait for input before the next tick.
pub fn poll_timeout_millis(until_next_tick_ns: u128) -> (r: u16)
    ensures
        r == wait_millis(until_next_tick_ns as int),
{
    let micros: u128 = until_next_tick_ns / 1000;
    let millis: u128 = micros / 1000 + if micros % 1000 > 0 {
        1
    } else {
        0
    };
    if millis > u16::MAX as u128 {
        u16::MAX
    } else {
        millis as u16
    }
}

/// What the event loop does before it waits for input.
#[derive(Debug, Clone, Copy, PartialEq, Eq, Structural)]
pub enum BeforeWait {
    Stop(LoopOutcome),
    Wait { timeout_ms: u16 },
}

/// A time of whole microseconds, in nanoseconds.
pub open spec fn nanos(micros: u64) -> int {
    micros * 1000
}

/// The time to the next tick.
pub open spec fn until_tick_ns(tick_period_us: u64, since_tick_ns: u128) -> int {
    if since_tick_ns < nanos(tick_period_us) {
        nanos(tick_period_us) - since_tick_ns
    } else {
        0
    }
}

/// Whether the safety timeout is over.
pub open spec fn timed_out(safety_timeout_seconds: Option<u64>, running_ns: u128) -> bool {
    safety_timeout_seconds matches Some(limit) && running_ns >= limit * 1_000_000_000
}

/// What comes before the wait.
pub open spec fn planned_wait(
    shutdown: bool,
    safety_timeout_seconds: Option<u64>,
    running_ns: u128,
    tick_period_us: u64,
    since_tick_ns: u128,
) -> BeforeWait {
    if shutdown || timed_out(safety_timeout_seconds, running_ns) {
        BeforeWait::Stop(LoopOutcome::Shutdown)
    } else {
        BeforeWait::Wait {
            timeout_ms: wait_millis(until_tick_ns(tick_period_us, since_tick_ns)) as u16,
        }
    }
}

/// The length of the tick that is due.
pub open spec fn tick_due(tick_period_us: u64, since_tick_ns: u128) -> Option<int> {
    if since_tick_ns < nanos(tick_period_us) {
        None
    } else if since_tick_ns / 1000 > u64::MAX {
        Some(u64::MAX as int)
    } else {
        Some(since_tick_ns as int / 1000)
    }
}

/// What to do before waiting for input: a shutdown signal and the safety
/// timeout end the loop; else the wait lasts until the next tick.
pub fn before_wait(
    shutdown: bool,
    safety_timeout_seconds: Option<u64>,
    running_ns: u128,
    tick_period_us: u64,
    since_tick_ns: u128,
) -> (r: BeforeWait)
    ensures
        r == (if shutdown || (safety_timeout_seconds matches Some(limit) && running_ns >= limit
            * 1_000_000_000) {
            BeforeWait::Stop(LoopOutcome::Shutdown)
        } else {
            BeforeWait::Wait {
                timeout_ms: wait_millis(
                    if since_tick_ns < nanos(tick_period_us) {
                        nanos(tick_period_us) - since_tick_ns
                    } else {
                        0
                    },
                ) as u16,
            }
        }),
        r == planned_wait(
            shutdown,
            safety_timeout_seconds,
            running_ns,
            tick_period_us,
            since_tick_ns,
        ),
{
    if shutdown {
        return BeforeWait::Stop(LoopOutcome::Shutdown);
    }
    match safety_timeout_seconds {
        Some(limit) => {
            if running_ns >= limit as u128 * 1_000_000_000 {
                return BeforeWait::Stop(LoopOutcome::Shutdown);
            }
        },
        None => {},
    }
    let period_ns: u128 = tick_period_us as u128 * 1000;
    let until_next_tick_ns: u128 = if since_tick_ns < period_ns {
        period_ns - since_tick_ns
    } else {
        0
    };
    BeforeWait::Wait { timeout_ms: poll_timeout_millis(until_next_tick_ns) }
}

/// What a wait for input came to.
#[derive(Debug, Clone, Copy, PartialEq, Eq, Structural)]
pub enum WaitReply {
    /// Nothing happened in time.
    TimedOut,
    /// A signal came in between.
    Interrupted,
    /// The wait itself failed.
    Failed,
    /// Something happened on the device.
    Ready { hung_up: bool, readable: bool },
}

/// What the event loop does after the wait.
#[derive(Debug, Clone, Copy, PartialEq, Eq, Structural)]
pub enum AfterWait {
    /// Start over, without a look at the clock.
    Again,
    /// Give up.
    Fail,
    /// End the loop.
    Stop(LoopOutcome),
    /// Read the input, then see whether a tick is due.
    Read,
    /// See whether a tick is due.
    Tick,
}

/// What comes after the wait.
pub open spec fn follows_wait(reply: WaitReply) -> AfterWait {
    match reply {
        WaitReply::TimedOut => AfterWait::Tick,
        WaitReply::Interrupted => AfterWait::Again,
        WaitReply::Failed => AfterWait::Fail,
        WaitReply::Ready { hung_up, readable } => if hung_up {
            AfterWait::Stop(LoopOutcome::DeviceLost)
        } else if readable {
            AfterWait::Read
        } else {
            AfterWait::Tick
        },
    }
}

/// What to do after the wait: a hangup or an error on the device means that the
/// mouse was unplugged, whatever could still be read.
pub fn after_wait(reply: WaitReply) -> (r: AfterWait)
    ensures
        r == follows_wait(reply),
        r == (match reply {
            WaitReply::TimedOut => AfterWait::Tick,
            WaitReply::Interrupted => AfterWait::Again,
            WaitReply::Failed => AfterWait::Fail,
            WaitReply::Ready { hung_up, readable } => if hung_up {
                AfterWait::Stop(LoopOutcome::DeviceLost)
            } else if readable {
                AfterWait::Read
            } else {
                AfterWait::Tick
            },
        }),
{
    match reply {
        WaitReply::TimedOut => AfterWait::Tick,
        WaitReply::Interrupted => AfterWait::Again,
        WaitReply::Failed => AfterWait::Fail,
        WaitReply::Ready { hung_up, readable } => {
            if hung_up {
                AfterWait::Stop(LoopOutcome::DeviceLost)
            } else if readable {
                AfterWait::Read
            } else {
                AfterWait::Tick
            }
        },
    }
}

/// What reading the input came to.
#[derive(Debug, Clone, Copy, PartialEq, Eq, Structural)]
pub enum ReadReply {
    /// There are events.
    Events,
    /// There was nothing to read after all.
    WouldBlock,
    /// Reading failed.
    Failed,
}

/// What to do about the input: a read that fails means that the device is
/// gone, so that the daemon reconnects instead of giving up.
pub fn after_read(reply: ReadReply) -> (r: Option<LoopOutcome>)
    ensures
        r == (if reply == ReadReply::Failed { Some(LoopOutcome::DeviceLost) } else { None }),
{
    match reply {
        ReadReply::Failed => Some(LoopOutcome::DeviceLost),
        _ => None,
    }
}

/// The length of the tick that is due, in microseconds; none where none is.
pub fn due_tick(tick_period_us: u64, since_tick_ns: u128) -> (r: Option<u64>)
    ensures
        match r {
            Some(dt_micros) => since_tick_ns >= nanos(tick_period_us) && dt_micros == (if since_tick_ns
                / 1000 > u64::MAX {
                u64::MAX as int
            } else {
                since_tick_ns as int / 1000
            }),
            None => since_tick_ns < nanos(tick_period_us),
        },
        match r {
            Some(dt_micros) => tick_due(tick_period_us, since_tick_ns) == Some(dt_micros as int),
            None => tick_due(tick_period_us, since_tick_ns) is None,
        },
{
    if since_tick_ns < tick_period_us as u128 * 1000 {
        return None;
    }
    let micros: u128 = since_tick_ns / 1000;
    if micros > u64::MAX as u128 {
        Some(u64::MAX)
    } else {
        Some(micros as u64)
    }
}

/// What the daemon does when the event loop has ended.
#[derive(Debug, Clone, Copy, PartialEq, Eq, Structural)]
pub enum AfterLoop {
    Finish,
    /// Release all virtual buttons, forget the gesture, and wait for the mouse.
    Reconnect,
}

/// What to do when the event loop has ended.
pub fn after_loop(outcome: LoopOutcome) -> (r: AfterLoop)
    ensures
        r == (match outcome {
            LoopOutcome::Shutdown => AfterLoop::Finish,
            LoopOutcome::DeviceLost => AfterLoop::Reconnect,
        }),
{
    match outcome {
        LoopOutcome::Shutdown => AfterLoop::Finish,
        LoopOutcome::DeviceLost => AfterLoop::Reconnect,
    }
}

/// What the daemon does while it waits for the mouse to come back.
#[derive(Debug, Clone, Copy, PartialEq, Eq, Structural)]
pub enum Reconnect {
    /// A shutdown was requested: give up.
    Stop,
    /// Look for the mouse.
    Look,
    /// Use the mouse that was opened.
    Use,
    /// The mouse is not there or not usable yet: look again after a while.
    Sleep,
}

/// Whether to look for the mouse at all.
pub fn before_look(shutdown: bool) -> (r: Reconnect)
    ensures
        r == (if shutdown { Reconnect::Stop } else { Reconnect::Look }),
{
    if shutdown {
        Reconnect::Stop
    } else {
        Reconnect::Look
    }
}

/// What to do after a look: `opened` says whether a mouse that was found could
/// be opened and grabbed.
pub fn after_look(opened: Option<bool>) -> (r: Reconnect)
    ensures
        r == (if opened == Some(true) { Reconnect::Use } else { Reconnect::Sleep }),
{
    match opened {
        Some(true) => Reconnect::Use,
        _ => Reconnect::Sleep,
    }
}

/// Something for the host to do, in order.
#[derive(Debug)]
pub enum Emission {
    /// Show or hide the indicator.
    EnterScroll,
    ExitScroll,
    /// Send the actions to the virtual mouse, as one batch.
    Batch(Vec<CoreAction>),
    /// Click the middle button of the virtual mouse.
    MiddleClick,
    /// Say what would have been done.
    Describe(String),
}

/// The mathematical content of an [`Emission`].
pub enum EmissionView {
    EnterScroll,
    ExitScroll,
    Batch(Seq<CoreAction>),
    MiddleClick,
    Describe(Seq<char>),
}

impl View for Emission {
    type V = EmissionView;

    open spec fn view(&self) -> EmissionView {
        match *self {
            Emission::EnterScroll => EmissionView::EnterScroll,
            Emission::ExitScroll => EmissionView::ExitScroll,
            Emission::Batch(actions) => EmissionView::Batch(actions@),
            Emission::MiddleClick => EmissionView::MiddleClick,
            Emission::Describe(s) => EmissionView::Describe(s@),
        }
    }
}

/// The contents of some emissions.
pub open spec fn emission_views(list: Seq<Emission>) -> Seq<EmissionView> {
    list.map_values(|e: Emission| e@)
}

/// The batch as something to do; an empty one is nothing.
pub open spec fn flushed(batch: Seq<CoreAction>) -> Seq<EmissionView> {
    if batch.len() == 0 {
        seq![]
    } else {
        seq![EmissionView::Batch(batch)]
    }
}

/// Whether an action goes to the virtual mouse with others.
pub open spec fn batched(action: CoreAction) -> bool {
    !(action is EnterScrollMode || action is ExitScrollMode || action is EmitMiddleClick
        || action is Suppress)
}

/// What is to be done for some actions, and what is still to be sent after
/// them. The indicator reacts at once; a middle click waits for everything
/// before it to be sent; a dry run only talks.
pub open spec fn emitted(actions: Seq<CoreAction>, dry_run: bool) -> (
    Seq<EmissionView>,
    Seq<CoreAction>,
)
    decreases actions.len(),
{
    if actions.len() == 0 {
        (seq![], seq![])
    } else {
        let (done, batch) = emitted(actions.drop_last(), dry_run);
        match actions.last() {
            CoreAction::EnterScrollMode => (done.push(EmissionView::EnterScroll), batch),
            CoreAction::ExitScrollMode => (done.push(EmissionView::ExitScroll), batch),
            CoreAction::EmitMiddleClick => if dry_run {
                (done.push(EmissionView::Describe("EmitMiddleClick"@)), batch)
            } else {
                ((done + flushed(batch)).push(EmissionView::MiddleClick), seq![])
            },
            CoreAction::Suppress => (done, batch),
            action => if dry_run {
                match event_router::description(action) {
                    Some(s) => (done.push(EmissionView::Describe(s)), batch),
                    None => (done, batch),
                }
            } else {
                (done, batch.push(action))
            },
        }
    }
}

/// All that is to be done for some actions.
pub open spec fn all_emitted(actions: Seq<CoreAction>, dry_run: bool) -> Seq<EmissionView> {
    let (done, batch) = emitted(actions, dry_run);
    done + flushed(batch)
}

fn flush_batch(batch: Vec<CoreAction>, out: &mut Vec<Emission>)
    ensures
        emission_views(final(out)@) == emission_views(old(out)@) + flushed(batch@),
{
    if batch.len() > 0 {
        out.push(Emission::Batch(batch));
    }
    assert(emission_views(out@) =~= emission_views(old(out)@) + flushed(batch@));
}

fn push_emission(emission: Emission, out: &mut Vec<Emission>)
    ensures
        emission_views(final(out)@) == emission_views(old(out)@).push(emission@),
{
    out.push(emission);
    assert(emission_views(out@) =~= emission_views(old(out)@).push(emission@));
}

/// What is to be done for some actions.
pub fn emit_actions(actions: &Vec<CoreAction>, dry_run: bool) -> (r: Vec<Emission>)
    ensures
        emission_views(r@) == all_emitted(actions@, dry_run),
{
    let mut out: Vec<Emission> = Vec::new();
    let mut batch: Vec<CoreAction> = Vec::new();
    assert(emission_views(out@) =~= seq![]);
    let mut i: usize = 0;
    while i < actions.len()
        invariant
            i <= actions@.len(),
            emission_views(out@) == emitted(actions@.take(i as int), dry_run).0,
            batch@ == emitted(actions@.take(i as int), dry_run).1,
        decreases actions@.len() - i,
    {
        assert(actions@.take(i + 1).drop_last() =~= actions@.take(i as int));
        let action: CoreAction = actions[i];
        match action {
            CoreAction::EnterScrollMode => push_emission(Emission::EnterScroll, &mut out),
            CoreAction::ExitScrollMode => push_emission(Emission::ExitScroll, &mut out),
            CoreAction::EmitMiddleClick => {
                if dry_run {
                    push_emission(Emission::Describe("EmitMiddleClick".to_owned()), &mut out);
                } else {
                    flush_batch(batch, &mut out);
                    batch = Vec::new();
                    push_emission(Emission::MiddleClick, &mut out);
                }
            },
            CoreAction::Suppress => {},
            _ => {
                if dry_run {
                    match dry_run_describe(&action) {
                        Some(description) => push_emission(
                            Emission::Describe(description),
                            &mut out,
                        ),
                        None => {},
                    }
                } else {
                    batch.push(action);
                }
            },
        }
        i += 1;
    }
    assert(actions@.take(i as int) =~= actions@);
    flush_batch(batch, &mut out);
    out
}

/// A dry run never touches the virtual mouse.
pub proof fn law_dry_run_only_talks(actions: Seq<CoreAction>, i: int)
    requires
        0 <= i < all_emitted(actions, true).len(),
    ensures
        !(all_emitted(actions, true)[i] is Batch || all_emitted(actions, true)[i] is MiddleClick),
{
    lemma_dry_run(actions);
}

proof fn lemma_dry_run(actions: Seq<CoreAction>)
    ensures
        emitted(actions, true).1.len() == 0,
        forall|i: int|
            0 <= i < emitted(actions, true).0.len() ==> !(#[trigger] emitted(actions, true).0[i]
                is Batch || emitted(actions, true).0[i] is MiddleClick),
    decreases actions.len(),
{
    if actions.len() > 0 {
        lemma_dry_run(actions.drop_last());
    }
}

/// What reaches the virtual mouse, in order: the actions of the batches.
pub open spec fn sent(list: Seq<EmissionView>) -> Seq<CoreAction>
    decreases list.len(),
{
    if list.len() == 0 {
        seq![]
    } else {
        let before = sent(list.drop_last());
        match list.last() {
            EmissionView::Batch(actions) => before + actions,
            EmissionView::MiddleClick => before.push(CoreAction::EmitMiddleClick),
            _ => before,
        }
    }
}

/// Whether an action is for the virtual mouse.
pub open spec fn for_device(action: CoreAction) -> bool {
    batched(action) || action is EmitMiddleClick
}

/// The actions for the virtual mouse, in order.
pub open spec fn device_actions(actions: Seq<CoreAction>) -> Seq<CoreAction>
    decreases actions.len(),
{
    if actions.len() == 0 {
        seq![]
    } else if for_device(actions.last()) {
        device_actions(actions.drop_last()).push(actions.last())
    } else {
        device_actions(actions.drop_last())
    }
}

/// Batching neither loses, adds nor reorders anything that is meant for the
/// virtual mouse.
pub proof fn law_batching_keeps_order(actions: Seq<CoreAction>)
    ensures
        sent(all_emitted(actions, false)) == device_actions(actions),
{
    lemma_emitted_order(actions);
    let (done, batch) = emitted(actions, false);
    lemma_sent_flushed(done, batch);
}

proof fn lemma_sent_flushed(done: Seq<EmissionView>, batch: Seq<CoreAction>)
    ensures
        sent(done + flushed(batch)) == sent(done) + batch,
{
    if batch.len() == 0 {
        assert(done + flushed(batch) =~= done);
        assert(sent(done) + batch =~= sent(done));
    } else {
        assert((done + flushed(batch)).drop_last() =~= done);
    }
}

proof fn lemma_emitted_order(actions: Seq<CoreAction>)
    ensures
        sent(emitted(actions, false).0) + emitted(actions, false).1 == device_actions(actions),
    decreases actions.len(),
{
    let (done, batch) = emitted(actions, false);
    if actions.len() == 0 {
        assert(sent(done) + batch =~= device_actions(actions));
    } else {
        lemma_emitted_order(actions.drop_last());
        let (done0, batch0) = emitted(actions.drop_last(), false);
        match actions.last() {
            CoreAction::EmitMiddleClick => {
                lemma_sent_flushed(done0, batch0);
                assert(done.drop_last() =~= done0 + flushed(batch0));
            },
            CoreAction::EnterScrollMode => {
                assert(done.drop_last() =~= done0);
            },
            CoreAction::ExitScrollMode => {
                assert(done.drop_last() =~= done0);
            },
            _ => {},
        }
        assert(sent(done) + batch =~= device_actions(actions));
    }
}

/// The engine and the filter in front of it.
pub struct Pipeline {
    engine: Engine,
    gate: ForegroundGate,
}

/// The mathematical content of a [`Pipeline`].
pub struct PipelineView {
    pub engine: EngineModel,
    pub gate: GateView,
}

impl PipelineView {
    /// What becomes of the pipeline, and which actions are due, when an event
    /// comes in while `snapshot` is in front. A filter that lets the event
    /// through hands it to the engine, except for buttons that the engine does
    /// not know; a filter that does not has it passed on as it came.
    pub open spec fn handled(
        self,
        config: CoreConfig,
        routed: RoutedEvent,
        snapshot: SnapshotView,
    ) -> (PipelineView, Seq<CoreAction>) {
        let decision = self.gate.decision(routed, self.engine.state, snapshot);
        let gate = self.gate.after_decision(routed, self.engine.state, snapshot).after_event(
            routed,
        );
        match (decision, routed) {
            (AutoscrollDecision::Enabled, RoutedEvent::Core(event)) => {
                let outcome = self.engine.step(config, event);
                (PipelineView { engine: outcome.engine, gate }, outcome.actions)
            },
            _ => (PipelineView { gate, ..self }, event_router::passed_through(routed)),
        }
    }
}

impl View for Pipeline {
    type V = PipelineView;

    closed spec fn view(&self) -> PipelineView {
        PipelineView { engine: self.engine@, gate: self.gate@ }
    }
}

impl Pipeline {
    pub closed spec fn spec_config(self) -> CoreConfig {
        self.engine.spec_config()
    }

    pub closed spec fn ready(self) -> bool {
        self.engine.ready()
    }

    /// Which snapshots the provider of the filter may show.
    pub closed spec fn provider_may_show(self, snapshot: SnapshotView) -> bool {
        self.gate.provider_may_show(snapshot)
    }

    /// An engine at rest behind the given filter.
    pub fn new(config: CoreConfig, gate: ForegroundGate) -> (r: Pipeline)
        requires
            config.runnable(),
        ensures
            r.ready(),
            r.spec_config() == config,
            r@ == (PipelineView { engine: EngineModel::initial(), gate: gate@ }),
            forall|snapshot: SnapshotView| #[trigger]
                r.provider_may_show(snapshot) == gate.provider_may_show(snapshot),
    {
        Pipeline { engine: Engine::new(config), gate }
    }

    pub fn state(&self) -> (r: EngineState)
        ensures
            r == self@.engine.state,
    {
        self.engine.state()
    }

    /// The mouse went away: a gesture in flight is forgotten, so that the gap
    /// cannot leave a scroll detent pending or a decision latched.
    pub fn device_lost(&mut self)
        requires
            old(self).ready(),
        ensures
            final(self).ready(),
            final(self).spec_config() == old(self).spec_config(),
            final(self)@ == (PipelineView {
                engine: EngineModel::initial(),
                gate: GateView { latched: None, ..old(self)@.gate },
            }),
            forall|snapshot: SnapshotView| #[trigger]
                final(self).provider_may_show(snapshot) == old(self).provider_may_show(snapshot),
    {
        self.engine.restart();
        self.gate.reset_latch();
    }

    /// A raw record came in: the actions that are due. The provider of the
    /// filter is asked only where a gesture begins, and what it shows counts.
    pub fn handle_record(&mut self, record: &InputRecord) -> (actions: Vec<CoreAction>)
        requires
            old(self).ready(),
        ensures
            final(self).ready(),
            final(self).spec_config() == old(self).spec_config(),
            exists|snapshot: SnapshotView|
                {
                    &&& (final(self)@, actions@) == #[trigger] old(self)@.handled(
                        old(self).spec_config(),
                        event_router::routed(record.summary()),
                        snapshot,
                    )
                    &&& old(self)@.gate.begins_gesture(
                        event_router::routed(record.summary()),
                        old(self)@.engine.state,
                    ) ==> old(self).provider_may_show(snapshot)
                },
            forall|snapshot: SnapshotView| #[trigger]
                final(self).provider_may_show(snapshot) == old(self).provider_may_show(snapshot),
    {
        let routed: RoutedEvent = classify(record);
        let decision: AutoscrollDecision = self.gate.decision_for_event(
            &routed,
            self.engine.state(),
        );
        let ghost decided = self.gate@;
        let ghost snapshot = choose|snapshot: SnapshotView|
            decision == #[trigger] old(self)@.gate.decision(
                routed,
                old(self)@.engine.state,
                snapshot,
            ) && decided == old(self)@.gate.after_decision(
                routed,
                old(self)@.engine.state,
                snapshot,
            ) && (old(self)@.gate.begins_gesture(routed, old(self)@.engine.state) ==> old(
                self,
            ).provider_may_show(snapshot));
        let actions: Vec<CoreAction> = self.dispatch(&routed, decision);
        assert((self@, actions@) == old(self)@.handled(
            old(self).spec_config(),
            routed,
            snapshot,
        ));
        actions
    }

    /// The same for a snapshot that is already at hand.
    pub fn handle_record_with_snapshot(
        &mut self,
        record: &InputRecord,
        snapshot: &ForegroundSnapshot,
    ) -> (actions: Vec<CoreAction>)
        requires
            old(self).ready(),
        ensures
            final(self).ready(),
            final(self).spec_config() == old(self).spec_config(),
            (final(self)@, actions@) == old(self)@.handled(
                old(self).spec_config(),
                event_router::routed(record.summary()),
                snapshot@,
            ),
            forall|shown: SnapshotView| #[trigger]
                final(self).provider_may_show(shown) == old(self).provider_may_show(shown),
    {
        let routed: RoutedEvent = classify(record);
        let decision: AutoscrollDecision = self.gate.decision_with_snapshot(
            &routed,
            self.engine.state(),
            snapshot,
        );
        self.dispatch(&routed, decision)
    }

    fn dispatch(&mut self, routed: &RoutedEvent, decision: AutoscrollDecision) -> (actions: Vec<
        CoreAction,
    >)
        requires
            old(self).ready(),
        ensures
            final(self).ready(),
            final(self).spec_config() == old(self).spec_config(),
            final(self)@.gate == old(self)@.gate.after_event(*routed),
            (final(self)@.engine, actions@) == (match (decision, *routed) {
                (AutoscrollDecision::Enabled, RoutedEvent::Core(event)) => {
                    let outcome = old(self)@.engine.step(old(self).spec_config(), event);
                    (outcome.engine, outcome.actions)
                },
                _ => (old(self)@.engine, event_router::passed_through(*routed)),
            }),
            forall|snapshot: SnapshotView| #[trigger]
                final(self).provider_may_show(snapshot) == old(self).provider_may_show(snapshot),
    {
        let actions: Vec<CoreAction> = match (decision, *routed) {
            (AutoscrollDecision::Enabled, RoutedEvent::Core(event)) => {
                let (actions, _task): (Vec<CoreAction>, WheelTask) = self.engine.process(event);
                actions
            },
            _ => passthrough_actions(routed),
        };
        self.gate.after_event(routed, self.engine.state());
        actions
    }

    /// A tick is due: the computation that it waits for.
    pub fn tick(&mut self, dt_micros: u64, out: &mut Vec<CoreAction>) -> (task: WheelTask)
        requires
            old(self).ready(),
        ensures
            final(self).ready(),
            final(self).spec_config() == old(self).spec_config(),
            ({
                let outcome = old(self)@.engine.step(
                    old(self).spec_config(),
                    CoreInputEvent::Tick { dt_micros },
                );
                &&& final(self)@ == (PipelineView { engine: outcome.engine, ..old(self)@ })
                &&& final(out)@ == old(out)@ + outcome.actions
                &&& task == outcome.task
            }),
            forall|snapshot: SnapshotView| #[trigger]
                final(self).provider_may_show(snapshot) == old(self).provider_may_show(snapshot),
    {
        self.engine.process_into(CoreInputEvent::Tick { dt_micros }, out)
    }

    /// Goes on with a tick.
    pub fn resume_tick(&mut self, task: WheelTask, value: Binary64, out: &mut Vec<CoreAction>) -> (
    next: WheelTask)
        requires
            old(self).ready(),
        ensures
            final(self).ready(),
            final(self).spec_config() == old(self).spec_config(),
            ({
                let outcome = old(self)@.engine.resume(old(self).spec_config(), task, value);
                &&& final(self)@ == (PipelineView { engine: outcome.engine, ..old(self)@ })
                &&& final(out)@ == old(out)@ + outcome.actions
                &&& next == outcome.task
            }),
            forall|snapshot: SnapshotView| #[trigger]
                final(self).provider_may_show(snapshot) == old(self).provider_may_show(snapshot),
    {
        self.engine.resume_tick(task, value, out)
    }
}

/// With the filter off the daemon is the engine: every event that the engine
/// knows goes to it, and every other button passes through.
pub proof fn law_unfiltered_pipeline_is_the_engine(
    p: PipelineView,
    config: CoreConfig,
    event: CoreInputEvent,
    snapshot: SnapshotView,
)
    requires
        !p.gate.cfg.enabled,
    ensures
        p.handled(config, RoutedEvent::Core(event), snapshot).0.engine == p.engine.step(
            config,
            event,
        ).engine,
        p.handled(config, RoutedEvent::Core(event), snapshot).1 == p.engine.step(
            config,
            event,
        ).actions,
{
}

/// In a denied application the whole gesture passes through untouched, and the
/// engine does not notice it.
pub proof fn law_denied_gesture_passes_through(
    p: PipelineView,
    config: CoreConfig,
    routed: RoutedEvent,
    snapshot: SnapshotView,
)
    requires
        p.gate.cfg.enabled,
        p.gate.latched == Some(AutoscrollDecision::Disabled),
    ensures
        p.handled(config, routed, snapshot).0.engine == p.engine,
        p.handled(config, routed, snapshot).1 == event_router::passed_through(routed),
{
}

/// Records never call for a computation: only ticks do.
pub proof fn law_records_need_no_computation(
    m: EngineModel,
    config: CoreConfig,
    record: InputRecord,
)
    ensures
        event_router::routed(record.summary()) matches RoutedEvent::Core(event) ==> m.step(
            config,
            event,
        ).task == WheelTask::Done,
{
}

/// The wait ends within a microsecond of the next tick or after it, and less
/// than a millisecond after it, as long as the tick is no further away than can
/// be waited for.
pub proof fn law_wait_reaches_the_tick(until_next_tick_ns: int)
    requires
        0 <= until_next_tick_ns <= 65_535_000_000,
    ensures
        wait_millis(until_next_tick_ns) * 1_000_000 > until_next_tick_ns - 1000,
        wait_millis(until_next_tick_ns) * 1_000_000 < until_next_tick_ns + 1_000_000,
{
}

/// A dry run neither grabs the mouse nor makes a virtual one; any other run makes
/// one, and grabs exactly where that is wanted. Ticks come as often as
/// configured: the period is the longest, in whole microseconds, that allows for
/// that.
pub proof fn law_starts(grab: bool, dry_run: bool, tick_hz: u32)
    requires
        0 < tick_hz,
    ensures
        ({
            let plan = planned(grab, dry_run, tick_hz);
            &&& dry_run ==> !plan.grab && !plan.virtual_mouse
            &&& !dry_run ==> plan.virtual_mouse && (plan.grab <==> grab)
            &&& plan.note == StartNote::Nothing <==> plan.grab
            &&& plan.note == StartNote::NoGrab <==> !grab
            &&& plan.tick_period_us * tick_hz <= 1_000_000
            &&& (plan.tick_period_us + 1) * tick_hz > 1_000_000
        }),
{
    let hz = tick_hz as int;
    let period = 1_000_000int / hz;
    vstd::arithmetic::div_mod::lemma_fundamental_div_mod(1_000_000, hz);
    vstd::arithmetic::div_mod::lemma_mod_bound(1_000_000, hz);
    assert(0 <= period <= 1_000_000) by {
        vstd::arithmetic::div_mod::lemma_div_pos_is_pos(1_000_000, hz);
        vstd::arithmetic::div_mod::lemma_div_is_ordered_by_denominator(1_000_000, 1, hz);
    }
    assert(hz * period == period * hz) by (nonlinear_arith);
    assert((period + 1) * hz == period * hz + hz) by (nonlinear_arith);
}

/// A wait is the time to the tick in microseconds, rounded up to whole
/// milliseconds, and at most 65,535 of them.
pub proof fn law_waits_are_rounded_up(until_next_tick_ns: int)
    requires
        0 <= until_next_tick_ns,
    ensures
        ({
            let micros = until_next_tick_ns / 1000;
            let millis = wait_millis(until_next_tick_ns);
            &&& 0 <= millis <= 65_535
            &&& micros <= 65_535_000 ==> micros <= millis * 1000 < micros + 1000
            &&& micros > 65_535_000 ==> millis == 65_535
        }),
{
}

/// The loop ends for a shutdown, or when the safety timeout, in seconds, is over,
/// and not otherwise. Else it waits for the next tick: not at all where the tick
/// is due, and otherwise until it is, give or take a microsecond, unless that is
/// longer than can be waited for at once.
pub proof fn law_loop_waits_for_ticks(
    shutdown: bool,
    safety_timeout_seconds: Option<u64>,
    running_ns: u128,
    tick_period_us: u64,
    since_tick_ns: u128,
)
    ensures
        ({
            let next = planned_wait(
                shutdown,
                safety_timeout_seconds,
                running_ns,
                tick_period_us,
                since_tick_ns,
            );
            let period_ns = tick_period_us * 1000;
            &&& shutdown ==> next == BeforeWait::Stop(LoopOutcome::Shutdown)
            &&& !shutdown ==> match safety_timeout_seconds {
                Some(limit) => next is Stop <==> running_ns >= limit * 1_000_000_000,
                None => next is Wait,
            }
            &&& next is Stop ==> next == BeforeWait::Stop(LoopOutcome::Shutdown)
            &&& next matches BeforeWait::Wait { timeout_ms } ==> {
                &&& since_tick_ns >= period_ns ==> timeout_ms == 0
                &&& since_tick_ns < period_ns && period_ns - since_tick_ns <= 65_535_000_000 ==> {
                    &&& since_tick_ns + timeout_ms * 1_000_000 > period_ns - 1000
                    &&& since_tick_ns + timeout_ms * 1_000_000 < period_ns + 1_000_000
                }
                &&& since_tick_ns < period_ns && period_ns - since_tick_ns > 65_535_000_999
                    ==> timeout_ms == 65_535
            }
        }),
{
    let left = until_tick_ns(tick_period_us, since_tick_ns);
    law_waits_are_rounded_up(left);
}

/// A tick is due once its period is over, and not before. It is as long as the
/// time since the last one, in whole microseconds.
pub proof fn law_ticks_are_due(tick_period_us: u64, since_tick_ns: u128)
    ensures
        tick_due(tick_period_us, since_tick_ns) is Some <==> since_tick_ns >= tick_period_us * 1000,
        tick_due(tick_period_us, since_tick_ns) matches Some(dt_micros) ==> {
            &&& tick_period_us <= dt_micros <= u64::MAX
            &&& dt_micros < u64::MAX ==> dt_micros * 1000 <= since_tick_ns < (dt_micros + 1) * 1000
            &&& dt_micros * 1000 <= since_tick_ns
        },
{
}

/// An unplugged mouse ends the loop, whatever could still be read of it; input
/// is read where there is some; a signal starts the loop over; and in every other
/// case it is time to see whether a tick is due.
pub proof fn law_loop_goes_on(reply: WaitReply)
    ensures
        reply matches WaitReply::Ready { hung_up, readable } ==> {
            &&& hung_up ==> follows_wait(reply) == AfterWait::Stop(LoopOutcome::DeviceLost)
            &&& !hung_up && readable ==> follows_wait(reply) == AfterWait::Read
            &&& !hung_up && !readable ==> follows_wait(reply) == AfterWait::Tick
        },
        reply is TimedOut ==> follows_wait(reply) == AfterWait::Tick,
        reply is Interrupted ==> follows_wait(reply) == AfterWait::Again,
        reply is Failed ==> follows_wait(reply) == AfterWait::Fail,
{
}

/// Whether an action moves or presses something on the virtual mouse.
pub open spec fn moves_or_presses(action: CoreAction) -> bool {
    ||| action is ForwardMouseButton
    ||| action is ForwardMotion
    ||| action is ForwardWheel
    ||| action is EmitWheelDetents
    ||| action is EmitWheelHiRes
}

/// Actions that move or press something go out together, all of them and in
/// order, in one batch.
pub proof fn law_movements_share_a_batch(actions: Seq<CoreAction>)
    requires
        forall|i: int| 0 <= i < actions.len() ==> moves_or_presses(#[trigger] actions[i]),
    ensures
        emitted(actions, false).0.len() == 0,
        emitted(actions, false).1 == actions,
        actions.len() == 0 ==> all_emitted(actions, false).len() == 0,
        actions.len() > 0 ==> all_emitted(actions, false) == seq![EmissionView::Batch(actions)],
    decreases actions.len(),
{
    if actions.len() > 0 {
        let before = actions.drop_last();
        assert forall|i: int| 0 <= i < before.len() implies moves_or_presses(
            #[trigger] before[i],
        ) by {
            assert(moves_or_presses(actions[i]));
        }
        law_movements_share_a_batch(before);
        assert(moves_or_presses(actions[actions.len() - 1]));
        assert(before.push(actions.last()) =~= actions);
    }
    assert(emitted(actions, false).0 =~= seq![]);
    assert(all_emitted(actions, false) =~= flushed(actions));
}

/// A middle click comes after everything before it was sent and before anything
/// after it is: what stands before it and what stands after it are sent as if
/// each stood alone.
pub proof fn law_clicks_come_in_between(first: Seq<CoreAction>, second: Seq<CoreAction>)
    ensures
        all_emitted(first.push(CoreAction::EmitMiddleClick) + second, false) == all_emitted(
            first,
            false,
        ).push(EmissionView::MiddleClick) + all_emitted(second, false),
{
    lemma_click_between(first, second);
    let all = first.push(CoreAction::EmitMiddleClick) + second;
    assert(all_emitted(all, false) =~= all_emitted(first, false).push(EmissionView::MiddleClick)
        + all_emitted(second, false));
}

proof fn lemma_click_between(first: Seq<CoreAction>, second: Seq<CoreAction>)
    ensures
        ({
            let all = first.push(CoreAction::EmitMiddleClick) + second;
            &&& emitted(all, false).0 == all_emitted(first, false).push(EmissionView::MiddleClick)
                + emitted(second, false).0
            &&& emitted(all, false).1 == emitted(second, false).1
        }),
    decreases second.len(),
{
    let clicked = first.push(CoreAction::EmitMiddleClick);
    let all = clicked + second;
    if second.len() == 0 {
        assert(all =~= clicked);
        assert(clicked.drop_last() =~= first);
        assert(emitted(all, false).0 =~= all_emitted(first, false).push(EmissionView::MiddleClick)
            + emitted(second, false).0);
    } else {
        lemma_click_between(first, second.drop_last());
        assert(all.drop_last() =~= clicked + second.drop_last());
        assert(all.last() == second.last());
        assert(emitted(all, false).0 =~= all_emitted(first, false).push(EmissionView::MiddleClick)
            + emitted(second, false).0);
    }
}

/// The indicator is told at once, before what is still to be sent, dry run or
/// not; what is suppressed comes to nothing; and a dry run says of every other
/// action what it would have been.
pub proof fn law_each_action_is_seen_to(actions: Seq<CoreAction>, dry_run: bool)
    ensures
        ({
            let (done, batch) = emitted(actions, dry_run);
            &&& emitted(actions.push(CoreAction::EnterScrollMode), dry_run) == (
                done.push(EmissionView::EnterScroll),
                batch,
            )
            &&& emitted(actions.push(CoreAction::ExitScrollMode), dry_run) == (
                done.push(EmissionView::ExitScroll),
                batch,
            )
            &&& emitted(actions.push(CoreAction::Suppress), dry_run) == (done, batch)
            &&& forall|action: CoreAction|
                dry_run && (moves_or_presses(action) || action is EmitMiddleClick)
                    ==> #[trigger] emitted(actions.push(action), dry_run) == (
                    done.push(EmissionView::Describe(event_router::description(action)->0)),
                    batch,
                )
        }),
{
    assert forall|action: CoreAction| #[trigger]
        actions.push(action).drop_last() == actions && actions.push(action).last() == action by {
        assert(actions.push(action).drop_last() =~= actions);
    }
    assert(actions.push(CoreAction::EnterScrollMode).drop_last() == actions);
    assert(actions.push(CoreAction::ExitScrollMode).drop_last() == actions);
    assert(actions.push(CoreAction::Suppress).drop_last() == actions);
    assert forall|action: CoreAction|
        dry_run && (moves_or_presses(action) || action is EmitMiddleClick) implies emitted(
        #[trigger] actions.push(action),
        dry_run,
    ) == (
        emitted(actions, dry_run).0.push(
            EmissionView::Describe(event_router::description(action)->0),
        ),
        emitted(actions, dry_run).1,
    ) by {
        assert(actions.push(action).drop_last() == actions);
    }
}

/// An event that the filter lets through goes to the engine, and what the engine
/// says is done. An event that it does not let through, and a button that the
/// engine does not know, pass by the engine. The filter sees every event, first
/// to decide and then to end a gesture.
pub proof fn law_events_go_one_way_or_the_other(
    p: PipelineView,
    config: CoreConfig,
    routed: RoutedEvent,
    snapshot: SnapshotView,
)
    ensures
        ({
            let (after, actions) = p.handled(config, routed, snapshot);
            let decision = p.gate.decision(routed, p.engine.state, snapshot);
            &&& after.gate == p.gate.after_decision(
                routed,
                p.engine.state,
                snapshot,
            ).after_event(routed)
            &&& routed matches RoutedEvent::Core(event) ==> {
                &&& decision == AutoscrollDecision::Enabled ==> {
                    &&& after.engine == p.engine.step(config, event).engine
                    &&& actions == p.engine.step(config, event).actions
                }
                &&& decision == AutoscrollDecision::Disabled ==> {
                    &&& after.engine == p.engine
                    &&& actions == event_router::passed_through(routed)
                }
            }
            &&& routed matches RoutedEvent::DirectButton { button, pressed } ==> {
                &&& after.engine == p.engine
                &&& actions == seq![CoreAction::ForwardMouseButton { button, pressed }]
            }
            &&& routed is Ignore ==> after.engine == p.engine && actions.len() == 0
        }),
{
}

/// The content of some emissions is that of each, one for one.
pub proof fn law_emissions_show_their_content(list: Seq<Emission>, i: int)
    requires
        0 <= i < list.len(),
    ensures
        emission_views(list).len() == list.len(),
        list[i] matches Emission::Batch(actions) ==> emission_views(list)[i] == EmissionView::Batch(
            actions@,
        ),
        list[i] matches Emission::Describe(s) ==> emission_views(list)[i] == EmissionView::Describe(
            s@,
        ),
        list[i] is EnterScroll <==> emission_views(list)[i] is EnterScroll,
        list[i] is ExitScroll <==> emission_views(list)[i] is ExitScroll,
        list[i] is MiddleClick <==> emission_views(list)[i] is MiddleClick,
{
}

} // verus!
