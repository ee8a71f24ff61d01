//! Running a processor: what is started, in which order, and how the tasks go on until
//! shutdown.

use core::time::Duration;
use vstd::prelude::*;

use crate::config::{ProcessorConfig, ProcessorConfigView, QueueConfig};
use crate::job::text_view;
use crate::keys::{texts, Text, WORKING_SET};
use crate::outside::{host_name, whole_seconds, HostName};
use crate::processor::{copies_of, name_view, worker_of, Processor, ProcessorView};
use crate::recovery::{recover_orphaned_work, recovery_start, Recovery, RecoveryView};
use crate::string_map::{ascending, law_ascending_enumeration_is_unique};

verus! {

/// The name that stands for a host whose own name is not valid Unicode.
pub const UNKNOWN_HOSTNAME: &'static str = "UNKNOWN_HOSTNAME";

/// What a process says of itself in its heartbeat.
#[derive(Debug)]
pub struct Announcement {
    pub hostname: String,
    /// The names of the queues, as they were given.
    pub queues: Vec<String>,
    /// The number of shared workers.
    pub concurrency: usize,
}

/// An [`Announcement`] by its contents.
pub struct AnnouncementView {
    pub hostname: Text,
    pub queues: Seq<Text>,
    pub concurrency: usize,
}

impl View for Announcement {
    type V = AnnouncementView;

    open spec fn view(&self) -> AnnouncementView {
        AnnouncementView {
            hostname: self.hostname@,
            queues: texts(self.queues@),
            concurrency: self.concurrency,
        }
    }
}

/// What a processor says of itself on a host with the given name.
pub open spec fn announcement<W>(v: ProcessorView<W>, host: Option<Text>) -> AnnouncementView {
    AnnouncementView {
        hostname: match host {
            Some(name) => name,
            None => UNKNOWN_HOSTNAME@,
        },
        queues: v.human_readable_queues,
        concurrency: v.config.num_workers,
    }
}

/// A task that is run at intervals beside the workers.
#[derive(Clone, Copy, Debug, PartialEq, Eq, Structural)]
pub enum Routine {
    /// Publishes the heartbeat of the process.
    Stats,
    /// Enqueues jobs that are due for a retry or were scheduled.
    Scheduled,
    /// Enqueues periodic jobs that are due.
    Periodic,
    /// Requeues the jobs of processes that have died.
    Recovery,
}

/// One step of running a processor.
#[derive(Debug)]
pub enum LaunchStep {
    /// Publish a heartbeat, and wait for it.
    PublishHeartbeat,
    /// Requeue the jobs of processes that have died, and wait for it.
    RecoverOrphans,
    /// Start a worker. It serves all queues, or the one that it is dedicated to.
    SpawnWorker { num: usize, dedicated: Option<String> },
    /// Start a task that is run at intervals.
    SpawnRoutine(Routine),
    /// Wait until all that was started has ended.
    Join,
}

/// A [`LaunchStep`] by its contents.
pub enum LaunchStepView {
    PublishHeartbeat,
    RecoverOrphans,
    SpawnWorker { num: int, dedicated: Option<Text> },
    SpawnRoutine(Routine),
    Join,
}

impl View for LaunchStep {
    type V = LaunchStepView;

    open spec fn view(&self) -> LaunchStepView {
        match self {
            LaunchStep::PublishHeartbeat => LaunchStepView::PublishHeartbeat,
            LaunchStep::RecoverOrphans => LaunchStepView::RecoverOrphans,
            LaunchStep::SpawnWorker { num, dedicated } => LaunchStepView::SpawnWorker {
                num: *num as int,
                dedicated: text_view(*dedicated),
            },
            LaunchStep::SpawnRoutine(routine) => LaunchStepView::SpawnRoutine(*routine),
            LaunchStep::Join => LaunchStepView::Join,
        }
    }
}

/// The workers numbered from `from` up to `to`.
pub open spec fn workers_from(from: int, to: int, dedicated: Option<Text>) -> Seq<LaunchStepView> {
    Seq::new(
        if from < to {
            (to - from) as nat
        } else {
            0
        },
        |i: int| LaunchStepView::SpawnWorker { num: from + i, dedicated },
    )
}

/// The workers dedicated to the named queues, queue by queue.
pub open spec fn dedicated_workers(names: Seq<Text>, configs: Map<Text, QueueConfig>) -> Seq<LaunchStepView>
    decreases names.len(),
{
    if names.len() == 0 {
        Seq::empty()
    } else {
        workers_from(0, configs[names[0]].num_workers as int, Some(names[0])) + dedicated_workers(
            names.drop_first(),
            configs,
        )
    }
}

/// The texts of a finite set in ascending order.
pub open spec fn in_order(set: Set<Text>) -> Seq<Text> {
    choose|keys: Seq<Text>| #[trigger] ascending(keys) && keys.to_set() == set
}

/// The tasks that are run at intervals.
pub open spec fn routines(reliable: bool) -> Seq<LaunchStepView> {
    seq![
        LaunchStepView::SpawnRoutine(Routine::Stats),
        LaunchStepView::SpawnRoutine(Routine::Scheduled),
        LaunchStepView::SpawnRoutine(Routine::Periodic),
    ] + if reliable {
        seq![LaunchStepView::SpawnRoutine(Routine::Recovery)]
    } else {
        Seq::empty()
    }
}

/// What comes before any worker is started. A heartbeat is published first, so that no
/// other process takes this one for dead.
pub open spec fn preparations(reliable: bool) -> Seq<LaunchStepView> {
    seq![LaunchStepView::PublishHeartbeat] + if reliable {
        seq![LaunchStepView::RecoverOrphans]
    } else {
        Seq::empty()
    }
}

/// The steps of running a processor: the preparations, the shared workers, the
/// dedicated workers in the order of the names of their queues, the tasks that are run
/// at intervals, and the wait for all of them.
pub open spec fn launch_plan(config: ProcessorConfigView) -> Seq<LaunchStepView> {
    preparations(config.reliable) + workers_from(0, config.num_workers as int, None) + dedicated_workers(
        in_order(config.queue_configs.dom()),
        config.queue_configs,
    ) + routines(config.reliable) + seq![LaunchStepView::Join]
}

/// Where the run of a processor stands.
enum Stage {
    Heartbeat,
    Recover,
    /// The shared worker with this number is next.
    Shared(usize),
    /// The worker with the second number, dedicated to the queue at the first, is next.
    Dedicated(usize, usize),
    Spawn(Routine),
    Join,
    Over,
}

/// The run of a processor, step by step.
pub struct Launch {
    reliable: bool,
    num_workers: usize,
    dedicated: Vec<(String, usize)>,
    stage: Stage,
}

/// The workers dedicated to the queues from the position `q` on, but for the first `i`
/// of that queue.
spec fn dedicated_from(dedicated: Seq<(String, usize)>, q: int, i: int) -> Seq<LaunchStepView>
    decreases dedicated.len() - q,
{
    if 0 <= q < dedicated.len() {
        workers_from(i, dedicated[q].1 as int, Some(dedicated[q].0@)) + dedicated_from(dedicated, q + 1, 0)
    } else {
        Seq::empty()
    }
}

impl View for Launch {
    type V = Seq<LaunchStepView>;

    /// The steps still to be taken.
    closed spec fn view(&self) -> Seq<LaunchStepView> {
        let end = seq![LaunchStepView::Join];
        let last = routines(self.reliable);
        let workers = workers_from(0, self.num_workers as int, None);
        let dedicated = dedicated_from(self.dedicated@, 0, 0);
        match self.stage {
            Stage::Heartbeat => preparations(self.reliable) + workers + dedicated + last + end,
            Stage::Recover => preparations(self.reliable).drop_first() + workers + dedicated + last + end,
            Stage::Shared(i) => workers_from(i as int, self.num_workers as int, None) + dedicated + last + end,
            Stage::Dedicated(q, i) => dedicated_from(self.dedicated@, q as int, i as int) + last + end,
            Stage::Spawn(Routine::Stats) => last + end,
            Stage::Spawn(Routine::Scheduled) => last.skip(1) + end,
            Stage::Spawn(Routine::Periodic) => last.skip(2) + end,
            Stage::Spawn(Routine::Recovery) => last.skip(3) + end,
            Stage::Join => end,
            Stage::Over => Seq::empty(),
        }
    }
}

impl Launch {
    /// The steps of recovery are reached only with reliable fetch.
    #[verifier::type_invariant]
    spec fn on_course(self) -> bool {
        &&& self.stage == Stage::Spawn(Routine::Recovery) ==> self.reliable
        &&& self.stage is Recover ==> self.reliable
    }

    /// The run of a processor with the given configuration.
    fn start(config: &ProcessorConfig) -> (launch: Self)
        ensures
            launch@ == launch_plan(config@),
    {
        let entries: Vec<(&String, &QueueConfig)> = config.queue_configs.iter();
        let ghost keys = entries@.map_values(|e: (&String, &QueueConfig)| e.0@);
        let mut dedicated: Vec<(String, usize)> = Vec::new();
        let mut q: usize = 0;
        while q < entries.len()
            invariant
                q <= entries@.len(),
                dedicated@.len() == q,
                forall|j: int| 0 <= j < q ==> (#[trigger] dedicated@[j]).0@ == entries@[j].0@ && dedicated@[j].1
                    == entries@[j].1.num_workers,
            decreases entries@.len() - q,
        {
            dedicated.push((entries[q].0.clone(), entries[q].1.num_workers));
            q = q + 1;
        }
        proof {
            law_ascending_enumeration_is_unique(keys, in_order(config@.queue_configs.dom()));
            assert forall|j: int| 0 <= j < keys.len() implies (#[trigger] dedicated@[j]).0@ == keys[j]
                && config@.queue_configs[keys[j]].num_workers == dedicated@[j].1 by {
                let entry = entries@[j];
                assert(keys[j] == entry.0@);
            }
            assert(keys.skip(0) =~= keys);
            lemma_dedicated(dedicated@, keys, config@.queue_configs, 0);
        }
        Launch { reliable: config.reliable, num_workers: config.num_workers, dedicated, stage: Stage::Heartbeat }
    }

    /// Whether the stage names a step, unless all steps are taken.
    spec fn is_settled(self) -> bool {
        match self.stage {
            Stage::Shared(i) => i < self.num_workers,
            Stage::Dedicated(q, i) => q < self.dedicated.len() && i < self.dedicated[q as int].1,
            _ => true,
        }
    }

    /// Passes over the stages that have no step left.
    fn settle(&mut self)
        ensures
            final(self)@ == old(self)@,
            final(self).is_settled(),
            final(self).reliable == old(self).reliable,
    {
        proof {
            use_type_invariant(&*self);
        }
        if let Stage::Shared(i) = self.stage {
            if i >= self.num_workers {
                self.stage = Stage::Dedicated(0, 0);
                assert(self@ =~= old(self)@);
            }
        }
        if let Stage::Dedicated(q, i) = self.stage {
            let mut q: usize = q;
            let mut i: usize = i;
            while q < self.dedicated.len() && i >= self.dedicated[q].1
                invariant
                    self.stage is Dedicated,
                    self.reliable == old(self).reliable,
                    old(self)@ == dedicated_from(self.dedicated@, q as int, i as int) + routines(self.reliable) + seq![
                        LaunchStepView::Join,
                    ],
                decreases self.dedicated@.len() - q,
            {
                assert(dedicated_from(self.dedicated@, q as int, i as int) =~= dedicated_from(
                    self.dedicated@,
                    q + 1,
                    0,
                ));
                q = q + 1;
                i = 0;
            }
            if q < self.dedicated.len() {
                self.stage = Stage::Dedicated(q, i);
            } else {
                self.stage = Stage::Spawn(Routine::Stats);
                assert(self@ =~= old(self)@);
            }
        }
    }

    /// The stage behind one that names a step.
    spec fn stage_behind(self) -> Stage {
        match self.stage {
            Stage::Heartbeat => if self.reliable {
                Stage::Recover
            } else {
                Stage::Shared(0)
            },
            Stage::Recover => Stage::Shared(0),
            Stage::Shared(i) => Stage::Shared((i + 1) as usize),
            Stage::Dedicated(q, i) => Stage::Dedicated(q, (i + 1) as usize),
            Stage::Spawn(Routine::Stats) => Stage::Spawn(Routine::Scheduled),
            Stage::Spawn(Routine::Scheduled) => Stage::Spawn(Routine::Periodic),
            Stage::Spawn(Routine::Periodic) => if self.reliable {
                Stage::Spawn(Routine::Recovery)
            } else {
                Stage::Join
            },
            Stage::Spawn(Routine::Recovery) => Stage::Join,
            Stage::Join => Stage::Over,
            Stage::Over => Stage::Over,
        }
    }

    /// What is left behind a step is the rest of the steps.
    proof fn lemma_behind(self)
        requires
            self.on_course(),
            self.is_settled(),
            !(self.stage is Over),
        ensures
            self@.len() > 0,
            (Launch { stage: self.stage_behind(), ..self })@ == self@.drop_first(),
    {
        let next = Launch { stage: self.stage_behind(), ..self };
        match self.stage {
            Stage::Dedicated(q, i) => {
                let queue = self.dedicated@[q as int];
                let first = workers_from(i as int, queue.1 as int, Some(queue.0@));
                assert(workers_from(i + 1, queue.1 as int, Some(queue.0@)) =~= first.drop_first());
                assert(next@ =~= self@.drop_first());
            },
            Stage::Shared(i) => {
                let first = workers_from(i as int, self.num_workers as int, None);
                assert(workers_from(i + 1, self.num_workers as int, None) =~= first.drop_first());
                assert(next@ =~= self@.drop_first());
            },
            _ => {
                assert(next@ =~= self@.drop_first());
            },
        }
    }

    /// The next step, `None` once there is none left.
    pub fn next(&mut self) -> (step: Option<LaunchStep>)
        ensures
            match step {
                Some(s) => old(self)@.len() > 0 && s@ == old(self)@[0] && final(self)@ == old(self)@.drop_first(),
                None => old(self)@.len() == 0 && final(self)@ == old(self)@,
            },
    {
        self.settle();
        proof {
            use_type_invariant(&*self);
            if !(self.stage is Over) {
                self.lemma_behind();
            }
        }
        match self.stage {
            Stage::Heartbeat => {
                self.stage = if self.reliable {
                    Stage::Recover
                } else {
                    Stage::Shared(0)
                };
                Some(LaunchStep::PublishHeartbeat)
            },
            Stage::Recover => {
                self.stage = Stage::Shared(0);
                Some(LaunchStep::RecoverOrphans)
            },
            Stage::Shared(i) => {
                self.stage = Stage::Shared(i + 1);
                Some(LaunchStep::SpawnWorker { num: i, dedicated: None })
            },
            Stage::Dedicated(q, i) => {
                let name: String = self.dedicated[q].0.clone();
                self.stage = Stage::Dedicated(q, i + 1);
                Some(LaunchStep::SpawnWorker { num: i, dedicated: Some(name) })
            },
            Stage::Spawn(routine) => {
                self.stage = match routine {
                    Routine::Stats => Stage::Spawn(Routine::Scheduled),
                    Routine::Scheduled => Stage::Spawn(Routine::Periodic),
                    Routine::Periodic => {
                        if self.reliable {
                            Stage::Spawn(Routine::Recovery)
                        } else {
                            Stage::Join
                        }
                    },
                    Routine::Recovery => Stage::Join,
                };
                Some(LaunchStep::SpawnRoutine(routine))
            },
            Stage::Join => {
                self.stage = Stage::Over;
                Some(LaunchStep::Join)
            },
            Stage::Over => None,
        }
    }
}

proof fn lemma_dedicated(dedicated: Seq<(String, usize)>, keys: Seq<Text>, configs: Map<Text, QueueConfig>, q: int)
    requires
        0 <= q <= keys.len(),
        dedicated.len() == keys.len(),
        forall|j: int| 0 <= j < keys.len() ==> (#[trigger] dedicated[j]).0@ == keys[j]
            && configs[keys[j]].num_workers == dedicated[j].1,
    ensures
        dedicated_from(dedicated, q, 0) == dedicated_workers(keys.skip(q), configs),
    decreases keys.len() - q,
{
    if q < keys.len() {
        lemma_dedicated(dedicated, keys, configs, q + 1);
        assert(keys.skip(q).drop_first() =~= keys.skip(q + 1));
        assert(dedicated[q].0@ == keys.skip(q)[0]);
    }
}

/// The run of a processor in a process whose heartbeat bears an identity. All that the
/// run starts is made from here, under that one identity.
pub struct Run<W> {
    processor: Processor<W>,
    identity: String,
}

/// A [`Run`] by its contents.
pub struct RunView<W> {
    pub processor: ProcessorView<W>,
    /// The identity that the heartbeat bears.
    pub identity: Text,
}

impl<W> View for Run<W> {
    type V = RunView<W>;

    closed spec fn view(&self) -> RunView<W> {
        RunView { processor: self.processor@, identity: self.identity@ }
    }
}

/// The recovery that a run begins, before its workers are started and then at intervals.
pub open spec fn recovery_of<W, E>(v: RunView<W>) -> RecoveryView<E> {
    recovery_start(v.identity, WORKING_SET@)
}

impl<W> Run<W> {
    /// The identity that the heartbeat bears.
    pub fn identity(&self) -> (identity: &str)
        ensures
            identity@ == self@.identity,
    {
        self.identity.as_str()
    }

    /// The steps of the run.
    pub fn launch(&self) -> (launch: Launch)
        ensures
            launch@ == launch_plan(self@.processor.config),
    {
        Launch::start(self.processor.config())
    }

    /// Begins to requeue the jobs of processes that have died.
    pub fn recovery<E>(&self) -> (recovery: Recovery<E>)
        ensures
            recovery@ == recovery_of::<W, E>(self@),
    {
        recover_orphaned_work(self.identity.clone(), WORKING_SET.to_string())
    }
}

impl<W: Clone> Run<W> {
    /// The processor that one worker of the run works with, under the thread id `tid`.
    pub fn worker(&self, tid: String, dedicated: Option<&str>) -> (worker: Processor<W>)
        ensures
            copies_of(worker@.workers, self@.processor.workers),
            worker@ == worker_of(
                self@.processor,
                self@.identity,
                tid@,
                name_view(dedicated),
                worker@.workers,
            ),
    {
        self.processor.for_worker(self.identity.clone(), tid, dedicated)
    }
}

impl<W> Processor<W> {
    /// Runs the processor in a process whose heartbeat bears `identity`. Takes self to
    /// consume the processor.
    pub fn run(self, identity: String) -> (run: Run<W>)
        ensures
            run@ == (RunView { processor: self@, identity: identity@ }),
    {
        Run { processor: self, identity }
    }

    /// What the processor says of itself on a host with the given name.
    pub fn announcement_on(&self, host: Option<String>) -> (announced: Announcement)
        ensures
            announced@ == announcement(self@, text_view(host)),
    {
        let hostname: String = match host {
            Some(name) => name,
            None => UNKNOWN_HOSTNAME.to_string(),
        };
        Announcement { hostname, queues: self.human_readable_queues(), concurrency: self.config().num_workers }
    }

    /// What the processor says of itself on this host.
    pub fn announcement(&self) -> (announced: Announcement)
        ensures
            exists|host: HostName| announced@ == announcement(self@, #[trigger] host@),
    {
        let host: HostName = host_name();
        self.announcement_on(host.get())
    }
}

/// How many seconds pass between two rounds of a routine.
pub open spec fn period_seconds(routine: Routine) -> u64 {
    match routine {
        Routine::Stats => 5,
        Routine::Scheduled => 5,
        Routine::Periodic => 30,
        Routine::Recovery => 30,
    }
}

/// The sorted sets from which jobs that are due are enqueued.
pub fn sorted_sets() -> (names: Vec<String>)
    ensures
        texts(names@) == seq!["retry"@, "schedule"@],
{
    let names: Vec<String> = vec!["retry".to_string(), "schedule".to_string()];
    assert(texts(names@) =~= seq!["retry"@, "schedule"@]);
    names
}

/// What a routine asks for.
#[derive(Clone, Copy, Debug)]
pub enum RoutineAction {
    /// Wait for this long, or until shutdown is signalled.
    Wait(Duration),
    /// Do the routine's work, as well as can be.
    Work,
    /// Take this process off the list of processes, as well as can be.
    Deregister,
}

/// What came of it.
#[derive(Clone, Copy, Debug)]
pub enum RoutineEvent {
    /// The time has passed.
    Elapsed,
    /// Shutdown was signalled.
    Cancelled,
    /// The work is done, as well as could be.
    Performed,
}

/// A routine under way.
#[derive(Clone, Copy, Debug, PartialEq, Eq, Structural)]
pub enum RoutineState {
    Waiting,
    Working,
    Deregistering,
    Stopped,
}

impl RoutineState {
    /// A routine that begins: it waits before it works for the first time.
    pub fn start() -> (state: Self)
        ensures
            state == RoutineState::Waiting,
    {
        RoutineState::Waiting
    }
}

impl Routine {
    /// What the routine asks for.
    pub open spec fn action_in(self, state: RoutineState) -> Option<RoutineAction> {
        match state {
            RoutineState::Waiting => Some(RoutineAction::Wait(whole_seconds(period_seconds(self)))),
            RoutineState::Working => Some(RoutineAction::Work),
            RoutineState::Deregistering => Some(RoutineAction::Deregister),
            RoutineState::Stopped => None,
        }
    }

    /// How the routine goes on. It works after each wait until shutdown is signalled.
    /// The one that publishes the heartbeat takes the process off the list then, for
    /// its entry there would not expire. An event that does not answer the action
    /// changes nothing.
    pub open spec fn state_after(self, state: RoutineState, event: RoutineEvent) -> RoutineState {
        match (state, event) {
            (RoutineState::Waiting, RoutineEvent::Elapsed) => RoutineState::Working,
            (RoutineState::Waiting, RoutineEvent::Cancelled) => if self is Stats {
                RoutineState::Deregistering
            } else {
                RoutineState::Stopped
            },
            (RoutineState::Working, RoutineEvent::Performed) => RoutineState::Waiting,
            (RoutineState::Deregistering, RoutineEvent::Performed) => RoutineState::Stopped,
            _ => state,
        }
    }

    /// What the routine asks for, `None` once it is over.
    pub fn action(self, state: RoutineState) -> (action: Option<RoutineAction>)
        ensures
            action == self.action_in(state),
    {
        match state {
            RoutineState::Waiting => {
                let seconds: u64 = match self {
                    Routine::Stats => 5,
                    Routine::Scheduled => 5,
                    Routine::Periodic => 30,
                    Routine::Recovery => 30,
                };
                Some(RoutineAction::Wait(Duration::from_secs(seconds)))
            },
            RoutineState::Working => Some(RoutineAction::Work),
            RoutineState::Deregistering => Some(RoutineAction::Deregister),
            RoutineState::Stopped => None,
        }
    }

    /// Goes on with what came of the action.
    pub fn resume(self, state: RoutineState, event: RoutineEvent) -> (next: RoutineState)
        ensures
            next == self.state_after(state, event),
    {
        match (state, event) {
            (RoutineState::Waiting, RoutineEvent::Elapsed) => RoutineState::Working,
            (RoutineState::Waiting, RoutineEvent::Cancelled) => match self {
                Routine::Stats => RoutineState::Deregistering,
                _ => RoutineState::Stopped,
            },
            (RoutineState::Working, RoutineEvent::Performed) => RoutineState::Waiting,
            (RoutineState::Deregistering, RoutineEvent::Performed) => RoutineState::Stopped,
            _ => state,
        }
    }
}

/// What the loop of a worker asks for.
#[derive(Clone, Copy, Debug, PartialEq, Eq, Structural)]
pub enum WorkerLoop {
    /// Process one job. An error is only logged.
    ProcessOne,
    /// See whether shutdown was signalled.
    CheckCancelled,
    /// The worker is done.
    Stop,
}

/// What came of it.
#[derive(Clone, Copy, Debug)]
pub enum WorkerEvent {
    /// The processing of one job is over, with or without an error.
    Processed,
    /// Whether shutdown was signalled.
    Cancelled(bool),
}

/// How the loop of a worker goes on. An event that does not answer what was asked for
/// changes nothing.
pub open spec fn worker_next(state: WorkerLoop, event: WorkerEvent) -> WorkerLoop {
    match (state, event) {
        (WorkerLoop::ProcessOne, WorkerEvent::Processed) => WorkerLoop::CheckCancelled,
        (WorkerLoop::CheckCancelled, WorkerEvent::Cancelled(true)) => WorkerLoop::Stop,
        (WorkerLoop::CheckCancelled, WorkerEvent::Cancelled(false)) => WorkerLoop::ProcessOne,
        _ => state,
    }
}

impl WorkerLoop {
    /// A worker that begins.
    pub fn start() -> (state: Self)
        ensures
            state == WorkerLoop::ProcessOne,
    {
        WorkerLoop::ProcessOne
    }

    /// Goes on with what came of what was asked for.
    pub fn resume(self, event: WorkerEvent) -> (next: Self)
        ensures
            next == worker_next(self, event),
    {
        match (self, event) {
            (WorkerLoop::ProcessOne, WorkerEvent::Processed) => WorkerLoop::CheckCancelled,
            (WorkerLoop::CheckCancelled, WorkerEvent::Cancelled(cancelled)) => {
                if cancelled {
                    WorkerLoop::Stop
                } else {
                    WorkerLoop::ProcessOne
                }
            },
            _ => self,
        }
    }
}

} // verus!
