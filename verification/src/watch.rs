//! The watch loop: the top-level state machine that repeatedly runs the
//! build pipeline, publishes a reload notification exactly when a build
//! succeeds, waits for the next change or application exit, and terminates
//! cooperatively once shutdown is requested.
//!
//! The suspending work — spawning tasks, waiting on the bus or on a
//! subprocess — is done by the caller; this module decides every transition
//! and owns the session state.

use vstd::prelude::*;

use crate::Msg;
use crate::MsgV;
use crate::bus::EventBus;
use crate::bus::publish_to_all;
use crate::flag::ShutdownFlag;
use crate::pipeline::BuildOutcome;
use crate::pipeline::Cause;
use crate::pipeline::PipelineState;
use crate::pipeline::Stage;
use crate::pipeline::StageOutcome;
use crate::pipeline::plan_spec;

verus! {

/// The long-running tasks a watch session starts before its first build.
#[derive(Debug, Clone, Copy, PartialEq, Eq, Structural)]
pub enum TaskKind {
    /// Observes the source tree and publishes a source-changed message.
    FileWatcher,
    /// Forwards reload messages from the bus to connected browsers.
    ReloadNotifier,
    /// Serves the built client artifacts over HTTP, csr mode only.
    DevServer,
}

/// What the loop waits on after a successful build.
#[derive(Debug, Clone, Copy, PartialEq, Eq, Structural)]
pub enum WaitMode {
    /// Block until any bus message arrives (csr mode).
    BusEvent,
    /// Run the compiled application and block until it exits (hydrate mode).
    AppExit,
}

/// What serves HTTP requests after a one-shot build.
#[derive(Debug, Clone, Copy, PartialEq, Eq, Structural)]
pub enum ServeTarget {
    /// The internal dev server, csr mode only.
    DevServer,
    /// The compiled application binary.
    CompiledApp,
}

/// The watch loop's state.
#[derive(Debug, Clone, Copy, PartialEq, Eq, Structural)]
pub enum Phase {
    /// A pipeline run is in flight.
    Building,
    /// The last build succeeded; waiting for a change or the app exiting.
    AwaitingChangeOrExit,
    /// Shutdown was observed at a cycle boundary; the loop returned.
    Terminated,
    /// A build stage failed; the failure was surfaced and the loop ended.
    Failed(Stage, Cause),
}

/// What the loop learned at a cycle boundary.
#[derive(Debug, Clone, Copy, PartialEq, Eq, Structural)]
pub enum WatchEvent {
    /// The in-flight pipeline run finished with this outcome.
    BuildDone(BuildOutcome),
    /// The wait ended: a bus message arrived or the application exited.
    WaitDone,
}

/// What the caller must do next.
#[derive(Debug, Clone, Copy, PartialEq, Eq, Structural)]
pub enum WatchAction {
    /// Run the pipeline's stages.
    RunPipeline,
    /// Offer a reload notification, then wait for a change or app exit.
    NotifyAndWait,
    /// Surface the failure; the session is over.
    ReportFailure(Stage, Cause),
    /// Shut the session down.
    Stop,
}

/// One transition of the watch-loop state machine. A failed build is fatal;
/// a successful build leads to the wait; after a wait the loop terminates
/// exactly when shutdown has been requested, and otherwise builds again.
pub open spec fn watch_step_spec(phase: Phase, event: WatchEvent, shutdown: bool) -> (Phase,
    WatchAction) {
    match phase {
        Phase::Building => match event {
            WatchEvent::BuildDone(BuildOutcome::Success) => (
                Phase::AwaitingChangeOrExit,
                WatchAction::NotifyAndWait,
            ),
            WatchEvent::BuildDone(BuildOutcome::Failure(st, c)) => (
                Phase::Failed(st, c),
                WatchAction::ReportFailure(st, c),
            ),
            WatchEvent::WaitDone => (Phase::Terminated, WatchAction::Stop),
        },
        Phase::AwaitingChangeOrExit => if shutdown {
            (Phase::Terminated, WatchAction::Stop)
        } else {
            (Phase::Building, WatchAction::RunPipeline)
        },
        _ => (Phase::Terminated, WatchAction::Stop),
    }
}

/// One transition of the watch-loop state machine, for a caller driving the
/// loop event by event.
pub fn watch_step(phase: Phase, event: WatchEvent, shutdown: bool) -> (r: (Phase, WatchAction))
    requires
        phase is Building ==> event is BuildDone,
        phase is AwaitingChangeOrExit ==> event is WaitDone,
        phase is Building || phase is AwaitingChangeOrExit,
    ensures
        r == watch_step_spec(phase, event, shutdown),
{
    match phase {
        Phase::Building => match event {
            WatchEvent::BuildDone(BuildOutcome::Success) => (
                Phase::AwaitingChangeOrExit,
                WatchAction::NotifyAndWait,
            ),
            WatchEvent::BuildDone(BuildOutcome::Failure(st, c)) => (
                Phase::Failed(st, c),
                WatchAction::ReportFailure(st, c),
            ),
            WatchEvent::WaitDone => (Phase::Terminated, WatchAction::Stop),
        },
        _ => if shutdown {
            (Phase::Terminated, WatchAction::Stop)
        } else {
            (Phase::Building, WatchAction::RunPipeline)
        },
    }
}

/// A reload notification is offered only for a build that succeeded: no
/// transition out of a `Building` phase that ended in failure ever asks the
/// caller to notify.
pub proof fn lemma_reload_implies_success(phase: Phase, event: WatchEvent, shutdown: bool)
    ensures
        watch_step_spec(phase, event, shutdown).1 == WatchAction::NotifyAndWait ==> phase
            is Building && event == WatchEvent::BuildDone(BuildOutcome::Success),
{
}

/// Once shutdown is requested, the loop reaches `Terminated` within one
/// cycle boundary: a wait that ends under a raised flag terminates at once,
/// and an in-flight build is followed by at most its own wait before the
/// loop terminates (or by the failure exit).
pub proof fn lemma_shutdown_terminates(o: BuildOutcome)
    ensures
        watch_step_spec(Phase::AwaitingChangeOrExit, WatchEvent::WaitDone, true).0 is Terminated,
        ({
            let (p1, _) = watch_step_spec(Phase::Building, WatchEvent::BuildDone(o), true);
            p1 is Failed || watch_step_spec(p1, WatchEvent::WaitDone, true).0 is Terminated
        }),
{
}

/// The tasks a watch session spawns on entry: the file watcher and the
/// reload notifier always, and in csr mode also the dev server.
pub open spec fn startup_tasks_spec(csr: bool) -> Seq<TaskKind> {
    if csr {
        seq![TaskKind::FileWatcher, TaskKind::DevServer, TaskKind::ReloadNotifier]
    } else {
        seq![TaskKind::FileWatcher, TaskKind::ReloadNotifier]
    }
}

/// The tasks a watch session spawns on entry, in spawn order.
pub fn startup_tasks(csr: bool) -> (v: Vec<TaskKind>)
    ensures
        v@ == startup_tasks_spec(csr),
{
    let mut v: Vec<TaskKind> = Vec::new();
    v.push(TaskKind::FileWatcher);
    if csr {
        v.push(TaskKind::DevServer);
    }
    v.push(TaskKind::ReloadNotifier);
    proof {
        assert(v@ =~= startup_tasks_spec(csr));
    }
    v
}

/// What the loop waits on after a successful build: in csr mode any bus
/// message, otherwise the compiled application's exit.
pub fn wait_mode(csr: bool) -> (m: WaitMode)
    ensures
        m == (if csr {
            WaitMode::BusEvent
        } else {
            WaitMode::AppExit
        }),
{
    if csr {
        WaitMode::BusEvent
    } else {
        WaitMode::AppExit
    }
}

/// What serves HTTP after a one-shot build: the internal dev server in csr
/// mode, the compiled application otherwise.
pub fn serve_target(csr: bool) -> (t: ServeTarget)
    ensures
        t == (if csr {
            ServeTarget::DevServer
        } else {
            ServeTarget::CompiledApp
        }),
{
    if csr {
        ServeTarget::DevServer
    } else {
        ServeTarget::CompiledApp
    }
}

/// Publish a reload notification unless shutdown has been requested.
/// Delivery is fire-and-forget: with no subscribers nothing is delivered
/// and nothing fails.
pub fn send_reload(bus: &mut EventBus, flag: &ShutdownFlag)
    requires
        old(bus).inv(),
    ensures
        final(bus).inv(),
        final(bus).cap() == old(bus).cap(),
        !flag.is_raised() ==> final(bus).queues() == publish_to_all(
            old(bus).queues(),
            MsgV::Reload("reload"@),
            old(bus).cap(),
        ),
        flag.is_raised() ==> final(bus).queues() == old(bus).queues(),
{
    if !flag.get() {
        bus.publish(Msg::Reload("reload".to_owned()));
    }
}

/// One watch session: the bus, the shutdown flag, the in-flight pipeline
/// run and the loop's phase, driven by the caller between suspension
/// points.
pub struct WatchSession {
    pub bus: EventBus,
    pub flag: ShutdownFlag,
    pub pipeline: PipelineState,
    pub phase: Phase,
}

impl WatchSession {
    /// Well-formedness: the bus and pipeline are well formed, the pipeline
    /// runs the per-iteration plan, and while the loop is building a stage
    /// is due.
    pub open spec fn wf(&self) -> bool {
        &&& self.bus.inv()
        &&& self.pipeline.wf()
        &&& !self.pipeline.full()
        &&& (self.phase is Building ==> self.pipeline.current_spec() is Some)
    }

    /// A fresh session: flag down, no subscribers yet, first build due.
    pub fn new(csr: bool, capacity: usize) -> (r: WatchSession)
        requires
            capacity >= 1,
        ensures
            r.wf(),
            r.phase is Building,
            !r.flag.is_raised(),
            r.bus.cap() == capacity,
            r.bus.queues() == Seq::<Seq<MsgV>>::empty(),
            r.pipeline.csr() == csr,
            r.pipeline.plan() == plan_spec(csr, false),
            r.pipeline.pos() == 0,
            r.pipeline.failure() is None,
    {
        let r = WatchSession {
            bus: EventBus::new(capacity),
            flag: ShutdownFlag::new(),
            pipeline: PipelineState::new(csr, false),
            phase: Phase::Building,
        };
        proof {
            assert(plan_spec(csr, false).len() > 0);
        }
        r
    }

    /// A source change arrived: it is queued on the bus for every
    /// subscriber and nothing else moves. The in-flight build's stage
    /// order, progress and phase are unaffected; the queued message is
    /// observed only when a subscriber later reads its queue.
    pub fn note_source_changed(&mut self)
        requires
            old(self).wf(),
        ensures
            final(self).wf(),
            final(self).pipeline == old(self).pipeline,
            final(self).phase == old(self).phase,
            final(self).flag == old(self).flag,
            final(self).bus.cap() == old(self).bus.cap(),
            final(self).bus.queues() == publish_to_all(
                old(self).bus.queues(),
                MsgV::SrcChanged,
                old(self).bus.cap(),
            ),
            final(self).model() == after_source_changes(old(self).model(), 1),
    {
        self.bus.publish(Msg::SrcChanged);
        proof {
            let qs = old(self).bus.queues();
            let cap = old(self).bus.cap();
            assert(publish_n(qs, MsgV::SrcChanged, 0, cap) == qs);
            assert(publish_n(qs, MsgV::SrcChanged, 1, cap) == publish_to_all(
                publish_n(qs, MsgV::SrcChanged, 0, cap),
                MsgV::SrcChanged,
                cap,
            ));
        }
    }

    /// The interrupt handler fired: the shutdown flag is raised — at once,
    /// whatever the loop is doing — and a shutdown message is published.
    /// The build in flight is not preempted.
    pub fn note_shutdown_signal(&mut self)
        requires
            old(self).wf(),
        ensures
            final(self).wf(),
            final(self).pipeline == old(self).pipeline,
            final(self).phase == old(self).phase,
            final(self).flag.is_raised(),
            final(self).bus.cap() == old(self).bus.cap(),
            final(self).bus.queues() == publish_to_all(
                old(self).bus.queues(),
                MsgV::ShutDown,
                old(self).bus.cap(),
            ),
    {
        self.flag.raise();
        self.bus.publish(Msg::ShutDown);
    }

    /// Record the outcome of the stage that was due. While stages remain
    /// the loop keeps building; the last stage's success completes the
    /// build, offers the reload notification (suppressed once shutdown is
    /// requested) and enters the wait; a failure ends the session with no
    /// notification at all.
    pub fn record_stage(&mut self, outcome: StageOutcome)
        requires
            old(self).wf(),
            old(self).phase is Building,
        ensures
            final(self).wf(),
            final(self).flag == old(self).flag,
            final(self).bus.cap() == old(self).bus.cap(),
            final(self).pipeline.csr() == old(self).pipeline.csr(),
            final(self).pipeline.plan() == old(self).pipeline.plan(),
            (match outcome {
                StageOutcome::Failure(c) => {
                    &&& final(self).phase == Phase::Failed(
                        old(self).pipeline.plan()[old(self).pipeline.pos() as int],
                        c,
                    )
                    &&& final(self).pipeline.failure() == Some(
                        (old(self).pipeline.plan()[old(self).pipeline.pos() as int], c),
                    )
                    &&& final(self).bus.queues() == old(self).bus.queues()
                },
                StageOutcome::Success => {
                    &&& final(self).pipeline.pos() == old(self).pipeline.pos() + 1
                    &&& final(self).pipeline.failure() is None
                    &&& if old(self).pipeline.pos() + 1 < old(self).pipeline.plan().len() {
                        &&& final(self).phase is Building
                        &&& final(self).bus.queues() == old(self).bus.queues()
                    } else {
                        &&& final(self).phase is AwaitingChangeOrExit
                        &&& (!old(self).flag.is_raised() ==> final(self).bus.queues()
                            == publish_to_all(
                            old(self).bus.queues(),
                            MsgV::Reload("reload"@),
                            old(self).bus.cap(),
                        ))
                        &&& (old(self).flag.is_raised() ==> final(self).bus.queues() == old(
                            self,
                        ).bus.queues())
                    }
                },
            }),
    {
        self.pipeline.record(outcome);
        match self.pipeline.outcome() {
            None => {},
            Some(BuildOutcome::Success) => {
                send_reload(&mut self.bus, &self.flag);
                self.phase = Phase::AwaitingChangeOrExit;
            },
            Some(BuildOutcome::Failure(st, c)) => {
                self.phase = Phase::Failed(st, c);
            },
        }
    }

    /// The wait ended: a bus message arrived or the application exited.
    /// If shutdown has been requested the loop terminates; otherwise a new
    /// cycle begins with a fresh pipeline run in the same mode.
    pub fn finish_wait(&mut self)
        requires
            old(self).wf(),
            old(self).phase is AwaitingChangeOrExit,
        ensures
            final(self).wf(),
            final(self).flag == old(self).flag,
            final(self).bus == old(self).bus,
            old(self).flag.is_raised() ==> final(self).phase is Terminated && final(self).pipeline
                == old(self).pipeline,
            !old(self).flag.is_raised() ==> {
                &&& final(self).phase is Building
                &&& final(self).pipeline.csr() == old(self).pipeline.csr()
                &&& final(self).pipeline.plan() == plan_spec(old(self).pipeline.csr(), false)
                &&& final(self).pipeline.pos() == 0
                &&& final(self).pipeline.failure() is None
            },
    {
        if self.flag.get() {
            self.phase = Phase::Terminated;
        } else {
            let csr = self.pipeline.is_csr();
            self.pipeline = PipelineState::new(csr, false);
            self.phase = Phase::Building;
            proof {
                assert(plan_spec(csr, false).len() > 0);
            }
        }
    }

    /// The session's mathematical state.
    pub open spec fn model(&self) -> SessionModel {
        SessionModel {
            queues: self.bus.queues(),
            cap: self.bus.cap(),
            shutdown: self.flag.is_raised(),
            plan: self.pipeline.plan(),
            pos: self.pipeline.pos(),
            failure: self.pipeline.failure(),
            phase: self.phase,
        }
    }
}

/// The mathematical state of a watch session.
pub struct SessionModel {
    pub queues: Seq<Seq<MsgV>>,
    pub cap: nat,
    pub shutdown: bool,
    pub plan: Seq<Stage>,
    pub pos: nat,
    pub failure: Option<(Stage, Cause)>,
    pub phase: Phase,
}

/// `n` publishes of `m`, applied to every subscriber queue in order.
pub open spec fn publish_n(qs: Seq<Seq<MsgV>>, m: MsgV, n: nat, cap: nat) -> Seq<Seq<MsgV>>
    decreases n,
{
    if n == 0 {
        qs
    } else {
        publish_to_all(publish_n(qs, m, (n - 1) as nat, cap), m, cap)
    }
}

/// A session after `n` source-changed messages arrived: each is queued on
/// the bus and nothing else moves.
pub open spec fn after_source_changes(s: SessionModel, n: nat) -> SessionModel {
    SessionModel { queues: publish_n(s.queues, MsgV::SrcChanged, n, s.cap), ..s }
}

/// Any sequence of source-changed messages arriving during a build leaves
/// the in-flight run untouched — same plan, same progress, same failure
/// state, same phase — while the messages queue up for every subscriber,
/// newest last, to be observed only during the subsequent wait.
pub proof fn lemma_source_changes_preserve_build(s: SessionModel, n: nat)
    ensures
        after_source_changes(s, n).plan == s.plan,
        after_source_changes(s, n).pos == s.pos,
        after_source_changes(s, n).failure == s.failure,
        after_source_changes(s, n).phase == s.phase,
        after_source_changes(s, n).shutdown == s.shutdown,
        after_source_changes(s, n).queues.len() == s.queues.len(),
        n > 0 ==> forall|i: int|
            0 <= i < s.queues.len() ==> (#[trigger] after_source_changes(s, n).queues[i]).len() > 0
                && after_source_changes(s, n).queues[i].last() == MsgV::SrcChanged,
    decreases n,
{
    if n > 0 {
        lemma_source_changes_preserve_build(s, (n - 1) as nat);
    }
}

} // verus!
