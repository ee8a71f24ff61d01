//! The processor: what it knows of its queues, its workers and itself.

use std::collections::VecDeque;
use vstd::prelude::*;

use crate::command::{Command, CommandView, Event};
use crate::config::{default_config, BalanceStrategy, ProcessorConfig, ProcessorConfigView};
use crate::fetch::{fetch_next, fetch_start, Fetch};
use crate::job::{copy_text, text_view, PeriodicJob, PeriodicJobView, UnitOfWork};
use crate::keys::{copy_strings, queue_key, queue_key_text, texts, work_key, work_key_text, Text};
use crate::outside::CpuCount;
use crate::periodic::{registration_start, Registration};
use crate::process_run::{process_checked, ProcessRun};
use crate::string_map::StringMap;
use crate::work::{SetWork, SetWorkPhase, SetWorkView};

verus! {

/// A processor of jobs. `W` is what runs the jobs of one class.
pub struct Processor<W> {
    queues: VecDeque<String>,
    human_readable_queues: Vec<String>,
    periodic_jobs: Vec<PeriodicJob>,
    workers: StringMap<W>,
    config: ProcessorConfig,
    identity: Option<String>,
    tid: Option<String>,
    registered_inprogress: StringMap<()>,
}

/// A [`Processor`] by its contents.
#[verifier::ext_equal]
pub struct ProcessorView<W> {
    /// The keys of the queues, in the order in which they are looked at.
    pub queues: Seq<Text>,
    /// The names of the queues, as they were given.
    pub human_readable_queues: Seq<Text>,
    /// The jobs that are enqueued on a schedule.
    pub periodic_jobs: Seq<PeriodicJobView>,
    /// The workers by the class of the jobs that they run.
    pub workers: Map<Text, W>,
    pub config: ProcessorConfigView,
    /// The identity of the process, which its heartbeat bears too. There is none until
    /// the processor runs.
    pub identity: Option<Text>,
    /// The id of the worker's thread. There is none until the processor runs.
    pub tid: Option<Text>,
    /// The in-progress lists that this worker has recorded in the working set.
    pub registered_inprogress: Set<Text>,
}

/// The contents of several periodic jobs.
pub open spec fn periodic_views(jobs: Seq<PeriodicJob>) -> Seq<PeriodicJobView> {
    jobs.map_values(|job: PeriodicJob| job@)
}

impl<W> View for Processor<W> {
    type V = ProcessorView<W>;

    closed spec fn view(&self) -> ProcessorView<W> {
        ProcessorView {
            queues: texts(self.queues@),
            human_readable_queues: texts(self.human_readable_queues@),
            periodic_jobs: periodic_views(self.periodic_jobs@),
            workers: self.workers@,
            config: self.config@,
            identity: text_view(self.identity),
            tid: text_view(self.tid),
            registered_inprogress: self.registered_inprogress@.dom(),
        }
    }
}

/// The keys of the queues with the given names.
pub open spec fn queue_keys(names: Seq<Text>) -> Seq<Text> {
    names.map_values(|name: Text| queue_key_text(name))
}

/// A processor of the named queues that has been told nothing else.
pub open spec fn new_processor<W>(names: Seq<Text>, config: ProcessorConfigView) -> ProcessorView<W> {
    ProcessorView {
        queues: queue_keys(names),
        human_readable_queues: names,
        periodic_jobs: Seq::empty(),
        workers: Map::empty(),
        config,
        identity: None,
        tid: None,
        registered_inprogress: Set::empty(),
    }
}

/// A list turned so that its last element comes first.
pub open spec fn rotated(queues: Seq<Text>) -> Seq<Text> {
    if queues.len() == 0 {
        queues
    } else {
        seq![queues.last()] + queues.drop_last()
    }
}

/// The order in which the queues are looked at next.
pub open spec fn balanced(strategy: BalanceStrategy, queues: Seq<Text>) -> Seq<Text> {
    match strategy {
        BalanceStrategy::RoundRobin => rotated(queues),
        BalanceStrategy::Fixed => queues,
    }
}

/// A processor whose queues are in their next order.
pub open spec fn rebalanced<W>(v: ProcessorView<W>) -> ProcessorView<W> {
    ProcessorView { queues: balanced(v.config.balance_strategy, v.queues), ..v }
}

/// The identity for which jobs are claimed. Reliable fetch needs one to name the
/// in-progress list; without it, jobs are fetched plainly.
pub open spec fn claiming_identity<W>(v: ProcessorView<W>) -> Option<Text> {
    if v.config.reliable {
        v.identity
    } else {
        None
    }
}

impl<W> Processor<W> {
    /// A processor of the named queues, with the default configuration.
    #[must_use]
    pub fn new(queues: Vec<String>) -> (processor: Self)
        ensures
            processor@.config.num_workers >= 1,
            processor@ == new_processor::<W>(texts(queues@), default_config(processor@.config.num_workers)),
            exists|cpus: CpuCount| processor@.config == default_config(#[trigger] cpus@),
    {
        let mut keys: VecDeque<String> = VecDeque::new();
        let mut i: usize = 0;
        while i < queues.len()
            invariant
                i <= queues@.len(),
                keys@.len() == i,
                forall|j: int| 0 <= j < i ==> (#[trigger] keys@[j])@ == queue_key_text(queues@[j]@),
            decreases queues@.len() - i,
        {
            keys.push_back(queue_key(queues[i].as_str()));
            i = i + 1;
        }
        assert(texts(keys@) =~= queue_keys(texts(queues@)));
        let periodic_jobs: Vec<PeriodicJob> = Vec::new();
        assert(periodic_views(periodic_jobs@) =~= Seq::<PeriodicJobView>::empty());
        let registered_inprogress: StringMap<()> = StringMap::new();
        assert(registered_inprogress@.dom() =~= Set::<Text>::empty());
        Processor {
            queues: keys,
            human_readable_queues: queues,
            periodic_jobs,
            workers: StringMap::new(),
            config: ProcessorConfig::default(),
            identity: None,
            tid: None,
            registered_inprogress,
        }
    }

    /// Sets the configuration.
    #[must_use]
    pub fn with_config(self, config: ProcessorConfig) -> (processor: Self)
        ensures
            processor@ == (ProcessorView { config: config@, ..self@ }),
    {
        Processor { config, ..self }
    }

    /// The configuration.
    pub fn config(&self) -> (config: &ProcessorConfig)
        ensures
            config@ == self@.config,
    {
        &self.config
    }

    /// The keys of the queues, in the order in which they are looked at.
    pub fn queues(&self) -> (queues: Vec<String>)
        ensures
            texts(queues@) == self@.queues,
    {
        let mut queues: Vec<String> = Vec::new();
        let mut i: usize = 0;
        while i < self.queues.len()
            invariant
                i <= self.queues@.len(),
                queues@.len() == i,
                forall|j: int| 0 <= j < i ==> (#[trigger] queues@[j])@ == self.queues@[j]@,
            decreases self.queues@.len() - i,
        {
            queues.push(self.queues[i].clone());
            i = i + 1;
        }
        assert(texts(queues@) =~= self@.queues);
        queues
    }

    /// The names of the queues, as they were given.
    pub fn human_readable_queues(&self) -> (names: Vec<String>)
        ensures
            texts(names@) == self@.human_readable_queues,
    {
        copy_strings(&self.human_readable_queues)
    }

    /// Lets `worker` run the jobs of a class, in place of any that did so before.
    pub fn register(&mut self, class_name: String, worker: W)
        ensures
            final(self)@ == (ProcessorView {
                workers: old(self)@.workers.insert(class_name@, worker),
                ..old(self)@
            }),
    {
        let _ = self.workers.insert(class_name, worker);
    }

    /// The worker that runs the jobs of a class, if there is one.
    pub fn worker(&self, class: &str) -> (worker: Option<&W>)
        ensures
            match worker {
                Some(w) => self@.workers.contains_key(class@) && self@.workers[class@] == *w,
                None => !self@.workers.contains_key(class@),
            },
    {
        self.workers.get(class)
    }

    /// Remembers a job that is enqueued on a schedule, and begins to store it. The
    /// processor remembers it even if it cannot be stored.
    pub fn register_periodic<E>(&mut self, periodic_job: PeriodicJob) -> (registration: Registration<E>)
        ensures
            final(self)@ == (ProcessorView {
                periodic_jobs: old(self)@.periodic_jobs.push(periodic_job@),
                ..old(self)@
            }),
            registration@ == registration_start::<E>(periodic_job@),
    {
        self.periodic_jobs.push(periodic_job.clone());
        assert(periodic_views(self.periodic_jobs@) =~= old(self)@.periodic_jobs.push(periodic_job@));
        Registration::start(periodic_job)
    }

    /// The jobs that are enqueued on a schedule.
    pub fn periodic_jobs(&self) -> (jobs: &Vec<PeriodicJob>)
        ensures
            periodic_views(jobs@) == self@.periodic_jobs,
    {
        &self.periodic_jobs
    }

    /// Reorders the queues as the balance strategy says.
    pub fn run_balance_strategy(&mut self)
        ensures
            final(self)@ == rebalanced(old(self)@),
    {
        match self.config.balance_strategy {
            BalanceStrategy::RoundRobin => {
                let last: Option<String> = self.queues.pop_back();
                match last {
                    Some(last) => {
                        self.queues.push_front(last);
                    },
                    None => {},
                }
                assert(texts(self.queues@) =~= rotated(old(self)@.queues));
            },
            BalanceStrategy::Fixed => {},
        }
    }

    /// Begins to fetch a job, after the queues were reordered. The fetch is reliable if
    /// the configuration says so and the processor has an identity.
    pub fn fetch<E>(&mut self) -> (fetch: Fetch<E>)
        ensures
            final(self)@ == rebalanced(old(self)@),
            fetch@ == fetch_start::<E>(claiming_identity(old(self)@), final(self)@.queues),
    {
        self.run_balance_strategy();
        let identity: Option<String> = if self.config.reliable {
            copy_text(&self.identity)
        } else {
            None
        };
        Fetch::start(identity, self.queues())
    }

    /// Goes on with a fetch after what came of its pending effect.
    pub fn resume_fetch<E>(&mut self, fetch: Fetch<E>, event: Event<E>) -> (next: Fetch<E>)
        ensures
            next@ == fetch_next(fetch@, old(self)@.registered_inprogress, event@).0,
            final(self)@ == (ProcessorView {
                registered_inprogress: fetch_next(fetch@, old(self)@.registered_inprogress, event@).1,
                ..old(self)@
            }),
    {
        fetch.resume(&mut self.registered_inprogress, event)
    }

    /// Begins to process one job: ticks until one finds work. `cancelled` says whether
    /// shutdown was signalled; if it was, the processing is over at once.
    pub fn process_one<E>(&mut self, cancelled: bool) -> (run: ProcessRun<E>)
        ensures
            (final(self)@, run@) == process_checked::<W, E>(old(self)@, cancelled),
    {
        self.process_checked(cancelled)
    }

    /// Begins to record the job as at hand, unless the processor has no identity or no
    /// thread id.
    pub fn set_work<E>(&self, work: &UnitOfWork) -> (set_work: Option<SetWork<E>>)
        ensures
            match (self@.identity, self@.tid) {
                (Some(identity), Some(tid)) => set_work matches Some(s) && s@ == (SetWorkView {
                    key: work_key_text(identity),
                    tid,
                    job: work@.job,
                    phase: SetWorkPhase::<E>::Connecting,
                }),
                _ => set_work is None,
            },
    {
        match (&self.identity, &self.tid) {
            (Some(identity), Some(tid)) => Some(
                SetWork::start(work_key(identity.as_str()), tid.clone(), work.job.clone()),
            ),
            _ => None,
        }
    }

    /// What to send to clear the record of the job that was at hand, whether it
    /// succeeded or failed. `None` where none was made.
    pub fn clear_work(&self) -> (command: Option<Command>)
        ensures
            match (self@.identity, self@.tid) {
                (Some(identity), Some(tid)) => command matches Some(c) && c@ == (CommandView::Hdel {
                    key: work_key_text(identity),
                    field: tid,
                }),
                _ => command is None,
            },
    {
        match (&self.identity, &self.tid) {
            (Some(identity), Some(tid)) => Some(
                Command::Hdel { key: work_key(identity.as_str()), field: tid.clone() },
            ),
            _ => None,
        }
    }
}

/// Copies several periodic jobs.
fn copy_periodic(jobs: &Vec<PeriodicJob>) -> (copy: Vec<PeriodicJob>)
    ensures
        periodic_views(copy@) == periodic_views(jobs@),
{
    let mut copy: Vec<PeriodicJob> = Vec::new();
    let mut i: usize = 0;
    while i < jobs.len()
        invariant
            i <= jobs@.len(),
            copy@.len() == i,
            forall|j: int| 0 <= j < i ==> (#[trigger] copy@[j])@ == jobs@[j]@,
        decreases jobs@.len() - i,
    {
        copy.push(jobs[i].clone());
        i = i + 1;
    }
    assert(periodic_views(copy@) =~= periodic_views(jobs@));
    copy
}

/// Whether one map holds copies of the workers of another.
pub open spec fn copies_of<W: Clone>(copies: Map<Text, W>, workers: Map<Text, W>) -> bool {
    &&& copies.dom() == workers.dom()
    &&& forall|class: Text| #[trigger] workers.contains_key(class) ==> cloned::<W>(workers[class], copies[class])
}

impl<W: Clone> Clone for Processor<W> {
    fn clone(&self) -> (copy: Self)
        ensures
            copies_of(copy@.workers, self@.workers),
            copy@ == (ProcessorView { workers: copy@.workers, ..self@ }),
    {
        let mut queues: VecDeque<String> = VecDeque::new();
        let mut i: usize = 0;
        while i < self.queues.len()
            invariant
                i <= self.queues@.len(),
                queues@.len() == i,
                forall|j: int| 0 <= j < i ==> (#[trigger] queues@[j])@ == self.queues@[j]@,
            decreases self.queues@.len() - i,
        {
            queues.push_back(self.queues[i].clone());
            i = i + 1;
        }
        assert(texts(queues@) =~= texts(self.queues@));
        Processor {
            queues,
            human_readable_queues: copy_strings(&self.human_readable_queues),
            periodic_jobs: copy_periodic(&self.periodic_jobs),
            workers: self.workers.clone(),
            config: self.config.clone(),
            identity: copy_text(&self.identity),
            tid: copy_text(&self.tid),
            registered_inprogress: self.registered_inprogress.clone(),
        }
    }
}

/// The keys of the queues that a worker serves: all of the processor's, or the one
/// that it is dedicated to.
pub open spec fn worker_queues(queues: Seq<Text>, dedicated: Option<Text>) -> Seq<Text> {
    match dedicated {
        Some(name) => seq![queue_key_text(name)],
        None => queues,
    }
}

/// The copy of a processor that one worker runs, under the identity of the process and a
/// thread id of its own, with copies of the processor's workers.
pub open spec fn worker_of<W>(
    v: ProcessorView<W>,
    identity: Text,
    tid: Text,
    dedicated: Option<Text>,
    workers: Map<Text, W>,
) -> ProcessorView<W> {
    ProcessorView {
        queues: worker_queues(v.queues, dedicated),
        identity: Some(identity),
        tid: Some(tid),
        workers,
        ..v
    }
}

/// The content of an optional name.
pub open spec fn name_view(name: Option<&str>) -> Option<Text> {
    match name {
        Some(n) => Some(n@),
        None => None,
    }
}

impl<W: Clone> Processor<W> {
    /// The copy of the processor that one worker runs, under the identity of the process
    /// and a thread id of its own. It serves the queue that it is dedicated to, if any,
    /// else all the queues of the processor.
    pub fn for_worker(&self, identity: String, tid: String, dedicated: Option<&str>) -> (worker: Self)
        ensures
            copies_of(worker@.workers, self@.workers),
            worker@ == worker_of(self@, identity@, tid@, name_view(dedicated), worker@.workers),
    {
        let mut worker: Self = self.clone();
        match dedicated {
            Some(name) => {
                let mut queues: VecDeque<String> = VecDeque::new();
                queues.push_back(queue_key(name));
                assert(texts(queues@) =~= seq![queue_key_text(name@)]);
                worker.queues = queues;
            },
            None => {},
        }
        worker.identity = Some(identity);
        worker.tid = Some(tid);
        worker
    }
}

} // verus!
