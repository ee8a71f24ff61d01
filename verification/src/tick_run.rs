//! A tick with all that it does to Redis on the way.

use core::time::Duration;
use vstd::prelude::*;

use crate::command::{Command, CommandView, Effect, EffectView, Event, EventView};
use crate::fetch::{fetch_effect, fetch_next, fetch_start, Fetch, FetchPhase, FetchView};
use crate::job::UnitOfWork;
use crate::keys::{work_key_text, Text};
use crate::outside::{unix_now, ClockReading};
use crate::processor::{claiming_identity, rebalanced, Processor, ProcessorView};
use crate::tick::{
    tick_next, tick_start, tick_work, Tick, TickAction, TickEvent, TickEventView, TickPhase, TickView, WorkFetcher,
};
use crate::work::{
    ack_command, reliable_ack, requeue_effect, requeue_interrupted, requeue_next, requeue_start, set_work_effect,
    set_work_next, set_work_reads_clock, Requeue, RequeueView, SetWork, SetWorkPhase, SetWorkView,
};

verus! {

/// The operation on Redis that a tick is at.
enum Part<E> {
    Fetch(Fetch<E>),
    SetWork(SetWork<E>),
    /// A command whose failure does not matter.
    Send(Command),
    Requeue(Requeue<E>),
    Nothing,
}

/// A tick under way.
pub struct TickRun<E> {
    tick: Tick<E>,
    part: Part<E>,
}

/// The operation on Redis that a tick is at, by its contents.
pub enum PartView<E> {
    Fetch(FetchView<E>),
    SetWork(SetWorkView<E>),
    Send(CommandView),
    Requeue(RequeueView<E>),
    Nothing,
}

/// A [`TickRun`] by its contents.
pub struct TickRunView<E> {
    pub tick: TickView<E>,
    pub part: PartView<E>,
}

impl<E> View for TickRun<E> {
    type V = TickRunView<E>;

    closed spec fn view(&self) -> TickRunView<E> {
        TickRunView {
            tick: self.tick@,
            part: match self.part {
                Part::Fetch(fetch) => PartView::Fetch(fetch@),
                Part::SetWork(set_work) => PartView::SetWork(set_work@),
                Part::Send(command) => PartView::Send(command@),
                Part::Requeue(requeue) => PartView::Requeue(requeue@),
                Part::Nothing => PartView::Nothing,
            },
        }
    }
}

/// What a tick waits for.
#[derive(Debug)]
pub enum TickEffect {
    /// An effect on Redis or on the text of the job.
    Redis(Effect),
    /// Let other tasks run, such as one that waits for a connection.
    Yield,
    /// Run the job, and watch out for shutdown meanwhile. If both come at once, the
    /// job's result counts.
    RunJob,
    /// Let the job run on for this long at most.
    AwaitJob(Duration),
}

/// A [`TickEffect`] by its contents.
pub enum TickEffectView {
    Redis(EffectView),
    Yield,
    RunJob,
    AwaitJob(Duration),
}

impl View for TickEffect {
    type V = TickEffectView;

    open spec fn view(&self) -> TickEffectView {
        match self {
            TickEffect::Redis(effect) => TickEffectView::Redis(effect@),
            TickEffect::Yield => TickEffectView::Yield,
            TickEffect::RunJob => TickEffectView::RunJob,
            TickEffect::AwaitJob(grace) => TickEffectView::AwaitJob(*grace),
        }
    }
}

/// What came of it.
pub enum TickRunEvent<E> {
    /// What came of an effect on Redis or on the text of the job.
    Redis(Event<E>),
    /// Other tasks have had their turn.
    Yielded,
    /// The job ended.
    JobEnded(Result<(), E>),
    /// Shutdown was signalled while the job ran.
    ShutdownSignalled,
    /// The job has not ended within its grace, and was interrupted.
    GraceElapsed,
}

/// A [`TickRunEvent`] by its contents.
pub enum TickRunEventView<E> {
    Redis(EventView<E>),
    Yielded,
    JobEnded(Result<(), E>),
    ShutdownSignalled,
    GraceElapsed,
}

impl<E> View for TickRunEvent<E> {
    type V = TickRunEventView<E>;

    open spec fn view(&self) -> TickRunEventView<E> {
        match self {
            TickRunEvent::Redis(event) => TickRunEventView::Redis(event@),
            TickRunEvent::Yielded => TickRunEventView::Yielded,
            TickRunEvent::JobEnded(result) => TickRunEventView::JobEnded(*result),
            TickRunEvent::ShutdownSignalled => TickRunEventView::ShutdownSignalled,
            TickRunEvent::GraceElapsed => TickRunEventView::GraceElapsed,
        }
    }
}

/// The process and the thread under which a job at hand is recorded. Without both of
/// them it is not.
pub open spec fn recorded_under<W>(v: ProcessorView<W>) -> Option<(Text, Text)> {
    match (v.identity, v.tid) {
        (Some(identity), Some(tid)) => Some((identity, tid)),
        _ => None,
    }
}

/// A tick passes over the recording of its job where there is nothing to record it
/// under.
pub open spec fn passed_over<E>(under: Option<(Text, Text)>, tick: TickView<E>) -> TickView<E> {
    if under is None && (tick.phase is Publishing || tick.phase is Clearing) {
        tick_next(tick, TickEventView::Performed)
    } else {
        tick
    }
}

/// The operation on Redis that a phase of a tick calls for.
pub open spec fn part_of<E>(under: Option<(Text, Text)>, tick: TickView<E>) -> PartView<E> {
    match (tick.phase, under) {
        (TickPhase::Publishing(work), Some((identity, tid))) => PartView::SetWork(
            SetWorkView { key: work_key_text(identity), tid, job: work.job, phase: SetWorkPhase::Connecting },
        ),
        (TickPhase::Clearing(work, outcome), Some((identity, tid))) => PartView::Send(
            CommandView::Hdel { key: work_key_text(identity), field: tid },
        ),
        (TickPhase::Requeueing(work), _) => PartView::Requeue(requeue_start(work)),
        (TickPhase::Acking(work, result), _) => PartView::Send(ack_command(work.reliable->Some_0)),
        _ => PartView::Nothing,
    }
}

/// A tick that has just come to a phase.
pub open spec fn tick_run_at<E>(under: Option<(Text, Text)>, tick: TickView<E>) -> TickRunView<E> {
    let tick = passed_over(under, tick);
    TickRunView { tick, part: part_of(under, tick) }
}

/// A tick that begins to fetch a job.
pub open spec fn tick_run_start<E>(grace: Duration, identity: Option<Text>, queues: Seq<Text>) -> TickRunView<E> {
    TickRunView { tick: tick_start(grace), part: PartView::Fetch(fetch_start(identity, queues)) }
}

/// What a tick waits for.
pub open spec fn tick_run_effect<E>(v: TickRunView<E>) -> Option<TickEffectView> {
    let effect = match v.part {
        PartView::Fetch(fetch) => fetch_effect(fetch),
        PartView::SetWork(set_work) => set_work_effect(set_work),
        PartView::Send(command) => Some(EffectView::Send(command)),
        PartView::Requeue(requeue) => requeue_effect(requeue),
        PartView::Nothing => None,
    };
    match (effect, v.tick.phase) {
        (Some(effect), _) => Some(TickEffectView::Redis(effect)),
        (None, TickPhase::Yielding) => Some(TickEffectView::Yield),
        (None, TickPhase::Running(_)) => Some(TickEffectView::RunJob),
        (None, TickPhase::Lingering(_)) => Some(TickEffectView::AwaitJob(v.tick.grace)),
        _ => None,
    }
}

/// How a tick goes on at the time `now`, and the lists that the worker has recorded
/// then. Each operation on Redis goes on as it does by itself, and when it is over, the
/// tick turns to its next phase. Only the outcome of the fetch matters to it: whether the
/// job could be recorded, cleared, requeued or dropped does not. An event that does not
/// answer the pending effect changes nothing.
pub open spec fn tick_run_next<E>(
    v: TickRunView<E>,
    under: Option<(Text, Text)>,
    registered: Set<Text>,
    event: TickRunEventView<E>,
    now: int,
) -> (TickRunView<E>, Set<Text>) {
    let performed = tick_run_at(under, tick_next(v.tick, TickEventView::Performed));
    match (v.part, event) {
        (PartView::Fetch(fetch), TickRunEventView::Redis(event)) => {
            let (next, after) = fetch_next(fetch, registered, event);
            match next.phase {
                FetchPhase::Finished(result) => (
                    tick_run_at(under, tick_next(v.tick, TickEventView::Fetched(result))),
                    after,
                ),
                _ => (TickRunView { part: PartView::Fetch(next), ..v }, after),
            }
        },
        (PartView::SetWork(set_work), TickRunEventView::Redis(event)) => {
            let next = set_work_next(set_work, event, now);
            if next.phase is Finished {
                (performed, registered)
            } else {
                (TickRunView { part: PartView::SetWork(next), ..v }, registered)
            }
        },
        (PartView::Requeue(requeue), TickRunEventView::Redis(event)) => {
            let next = requeue_next(requeue, event);
            if next.phase is Finished {
                (performed, registered)
            } else {
                (TickRunView { part: PartView::Requeue(next), ..v }, registered)
            }
        },
        (PartView::Send(_), TickRunEventView::Redis(EventView::Reply(_))) => (performed, registered),
        (PartView::Send(_), TickRunEventView::Redis(EventView::Failed(_))) => (performed, registered),
        (PartView::Nothing, TickRunEventView::Yielded) => (performed, registered),
        (PartView::Nothing, TickRunEventView::JobEnded(result)) => (
            tick_run_at(under, tick_next(v.tick, TickEventView::JobEnded(result))),
            registered,
        ),
        (PartView::Nothing, TickRunEventView::ShutdownSignalled) => (
            tick_run_at(under, tick_next(v.tick, TickEventView::ShutdownSignalled)),
            registered,
        ),
        (PartView::Nothing, TickRunEventView::GraceElapsed) => (
            tick_run_at(under, tick_next(v.tick, TickEventView::GraceElapsed)),
            registered,
        ),
        _ => (v, registered),
    }
}

/// Whether the time matters to how a tick goes on: it does where the record of the job is
/// made.
pub open spec fn tick_run_reads_clock<E>(v: TickRunView<E>, event: TickRunEventView<E>) -> bool {
    match (v.part, event) {
        (PartView::SetWork(set_work), TickRunEventView::Redis(event)) => set_work_reads_clock(set_work, event),
        _ => false,
    }
}

/// The content of an optional effect.
pub open spec fn tick_effect_view(effect: Option<TickEffect>) -> Option<TickEffectView> {
    match effect {
        Some(e) => Some(e@),
        None => None,
    }
}

impl<E> TickRun<E> {
    /// A tick drops the copy of a claimed job only.
    #[verifier::type_invariant]
    spec fn on_course(self) -> bool {
        self.tick@.phase matches TickPhase::Acking(work, _) ==> work.reliable is Some
    }

    /// What the tick waits for, `None` once it is over.
    pub fn pending(&self) -> (effect: Option<TickEffect>)
        ensures
            tick_effect_view(effect) == tick_run_effect(self@),
    {
        let effect: Option<Effect> = match &self.part {
            Part::Fetch(fetch) => fetch.pending(),
            Part::SetWork(set_work) => set_work.pending(),
            Part::Send(command) => Some(Effect::Send(command.clone())),
            Part::Requeue(requeue) => requeue.pending(),
            Part::Nothing => None,
        };
        match (effect, self.tick.action()) {
            (Some(effect), _) => Some(TickEffect::Redis(effect)),
            (None, Some(TickAction::Yield)) => Some(TickEffect::Yield),
            (None, Some(TickAction::RunJob)) => Some(TickEffect::RunJob),
            (None, Some(TickAction::AwaitJob(grace))) => Some(TickEffect::AwaitJob(grace)),
            _ => None,
        }
    }

    /// The work at hand, if there is any.
    pub fn work(&self) -> (work: Option<&UnitOfWork>)
        ensures
            match work {
                Some(w) => tick_work(self@.tick) == Some(w@),
                None => tick_work(self@.tick) is None,
            },
    {
        self.tick.work()
    }

    /// Whether the time matters to how the tick goes on.
    pub(crate) fn reads_clock(&self, event: &TickRunEvent<E>) -> (reads: bool)
        ensures
            reads == tick_run_reads_clock(self@, event@),
    {
        match (&self.part, event) {
            (Part::SetWork(set_work), TickRunEvent::Redis(event)) => set_work.reads_clock(event),
            _ => false,
        }
    }

    /// Whether the tick is over.
    pub(crate) fn is_over(&self) -> (over: bool)
        ensures
            over == (self@.tick.phase is Finished),
    {
        self.tick.action().is_none()
    }

    /// What the tick found to do, or the error that ended it; `None` while it goes on.
    pub fn outcome(self) -> (outcome: Option<Result<WorkFetcher, E>>)
        ensures
            match self@.tick.phase {
                TickPhase::Finished(result) => outcome == Some(result),
                _ => outcome is None,
            },
    {
        self.tick.outcome()
    }
}

impl<W> Processor<W> {
    /// Begins a tick: at most one job, fetched and dealt with.
    pub fn process_one_tick_once<E>(&mut self) -> (run: TickRun<E>)
        ensures
            final(self)@ == rebalanced(old(self)@),
            run@ == tick_run_start::<E>(
                old(self)@.config.shutdown_grace,
                claiming_identity(old(self)@),
                final(self)@.queues,
            ),
    {
        let fetch: Fetch<E> = self.fetch();
        TickRun { tick: Tick::start(self.config().shutdown_grace), part: Part::Fetch(fetch) }
    }

    /// Who runs the job that a tick has at hand: the worker registered for its class, or,
    /// where none is, the class, whose jobs all fail. `None` where there is no job at hand;
    /// a tick that waits for its job to be run has one.
    pub fn worker_at_hand<E>(&self, run: &TickRun<E>) -> (worker: Option<Result<&W, String>>)
        ensures
            match tick_work(run@.tick) {
                Some(work) => match worker {
                    Some(Ok(w)) => self@.workers.contains_key(work.job.class) && self@.workers[work.job.class] == *w,
                    Some(Err(class)) => !self@.workers.contains_key(work.job.class) && class@ == work.job.class,
                    None => false,
                },
                None => worker is None,
            },
            tick_run_effect(run@) == Some(TickEffectView::RunJob) ==> worker is Some,
    {
        match run.work() {
            Some(work) => match self.worker(work.job.class.as_str()) {
                Some(worker) => Some(Ok(worker)),
                None => Some(Err(work.job.class.clone())),
            },
            None => None,
        }
    }

    /// A tick that has just come to a phase.
    fn tick_at<E>(&self, tick: Tick<E>) -> (run: TickRun<E>)
        requires
            tick@.phase matches TickPhase::Acking(work, _) ==> work.reliable is Some,
        ensures
            run@ == tick_run_at(recorded_under(self@), tick@),
    {
        let unrecorded: bool = self.clear_work().is_none();
        let tick: Tick<E> = match (unrecorded, tick.action()) {
            (true, Some(TickAction::SetWork)) => tick.resume(TickEvent::Performed),
            (true, Some(TickAction::ClearWork)) => tick.resume(TickEvent::Performed),
            _ => tick,
        };
        let part: Part<E> = match (tick.action(), tick.work()) {
            (Some(TickAction::SetWork), Some(work)) => match self.set_work(work) {
                Some(set_work) => Part::SetWork(set_work),
                None => Part::Nothing,
            },
            (Some(TickAction::ClearWork), _) => match self.clear_work() {
                Some(command) => Part::Send(command),
                None => Part::Nothing,
            },
            (Some(TickAction::Requeue), Some(work)) => Part::Requeue(requeue_interrupted(work)),
            (Some(TickAction::Ack), Some(work)) => match &work.reliable {
                Some(claim) => Part::Send(reliable_ack(claim)),
                None => Part::Nothing,
            },
            _ => Part::Nothing,
        };
        TickRun { tick, part }
    }

    /// Goes on with a tick, at the time `now`, after what came of its pending effect.
    pub fn resume_tick_at<E>(&mut self, run: TickRun<E>, event: TickRunEvent<E>, now: i64) -> (next: TickRun<E>)
        ensures
            next@ == tick_run_next(
                run@,
                recorded_under(old(self)@),
                old(self)@.registered_inprogress,
                event@,
                now as int,
            ).0,
            final(self)@ == (ProcessorView {
                registered_inprogress: tick_run_next(
                    run@,
                    recorded_under(old(self)@),
                    old(self)@.registered_inprogress,
                    event@,
                    now as int,
                ).1,
                ..old(self)@
            }),
    {
        proof {
            use_type_invariant(&run);
        }
        let TickRun { tick, part } = run;
        match (part, event) {
            (Part::Fetch(fetch), TickRunEvent::Redis(event)) => {
                let fetch: Fetch<E> = self.resume_fetch(fetch, event);
                if fetch.pending().is_some() {
                    return TickRun { tick, part: Part::Fetch(fetch) };
                }
                match fetch.outcome() {
                    Some(result) => self.tick_at(tick.resume(TickEvent::Fetched(result))),
                    None => TickRun { tick, part: Part::Nothing },
                }
            },
            (Part::SetWork(set_work), TickRunEvent::Redis(event)) => {
                let set_work: SetWork<E> = set_work.resume_at(event, now);
                if set_work.pending().is_some() {
                    return TickRun { tick, part: Part::SetWork(set_work) };
                }
                self.tick_at(tick.resume(TickEvent::Performed))
            },
            (Part::Requeue(requeue), TickRunEvent::Redis(event)) => {
                let requeue: Requeue<E> = requeue.resume(event);
                if requeue.pending().is_some() {
                    return TickRun { tick, part: Part::Requeue(requeue) };
                }
                self.tick_at(tick.resume(TickEvent::Performed))
            },
            (Part::Send(_), TickRunEvent::Redis(Event::Reply(_))) => self.tick_at(tick.resume(TickEvent::Performed)),
            (Part::Send(_), TickRunEvent::Redis(Event::Failed(_))) => self.tick_at(tick.resume(TickEvent::Performed)),
            (Part::Nothing, TickRunEvent::Yielded) => self.tick_at(tick.resume(TickEvent::Performed)),
            (Part::Nothing, TickRunEvent::JobEnded(result)) => self.tick_at(tick.resume(TickEvent::JobEnded(result))),
            (Part::Nothing, TickRunEvent::ShutdownSignalled) => self.tick_at(
                tick.resume(TickEvent::ShutdownSignalled),
            ),
            (Part::Nothing, TickRunEvent::GraceElapsed) => self.tick_at(tick.resume(TickEvent::GraceElapsed)),
            (part, _) => TickRun { tick, part },
        }
    }

    /// Goes on with a tick, at the present time, after what came of its pending effect. The
    /// clock is read only where the record of the job is made.
    pub fn resume_tick<E>(&mut self, run: TickRun<E>, event: TickRunEvent<E>) -> (next: TickRun<E>)
        ensures
            tick_run_reads_clock(run@, event@) ==> exists|now: ClockReading|
                {
                    let step = tick_run_next(
                        run@,
                        recorded_under(old(self)@),
                        old(self)@.registered_inprogress,
                        event@,
                        #[trigger] now@ as int,
                    );
                    &&& next@ == step.0
                    &&& final(self)@ == (ProcessorView { registered_inprogress: step.1, ..old(self)@ })
                },
            !tick_run_reads_clock(run@, event@) ==> forall|now: int|
                {
                    let step = #[trigger] tick_run_next(
                        run@,
                        recorded_under(old(self)@),
                        old(self)@.registered_inprogress,
                        event@,
                        now,
                    );
                    &&& next@ == step.0
                    &&& final(self)@ == (ProcessorView { registered_inprogress: step.1, ..old(self)@ })
                },
    {
        if run.reads_clock(&event) {
            let now: ClockReading = unix_now();
            self.resume_tick_at(run, event, now.get())
        } else {
            self.resume_tick_at(run, event, 0)
        }
    }
}

} // verus!
