//! Running one job, from fetching it to having dealt with it.

use core::time::Duration;
use vstd::prelude::*;

use crate::fetch::work_view;
use crate::job::{UnitOfWork, UnitOfWorkView};

verus! {

/// What a tick found to do.
#[derive(Clone, Copy, Debug, PartialEq, Eq, Structural)]
pub enum WorkFetcher {
    NoWorkFound,
    Done,
}

/// Where a tick stands.
enum Phase<E> {
    Fetching,
    Yielding,
    Publishing(UnitOfWork),
    Running(UnitOfWork),
    Lingering(UnitOfWork),
    Clearing(UnitOfWork, Option<Result<(), E>>),
    Requeueing(UnitOfWork),
    Acking(UnitOfWork, Result<(), E>),
    Finished(Result<WorkFetcher, E>),
}

/// One tick of a worker: at most one job, fetched and dealt with.
pub struct Tick<E> {
    grace: Duration,
    phase: Phase<E>,
}

/// Where a tick stands, by its contents.
pub enum TickPhase<E> {
    /// A job is being fetched.
    Fetching,
    /// There was no job, and other tasks are let run.
    Yielding,
    /// The job is being recorded as at hand.
    Publishing(UnitOfWorkView),
    /// The job runs.
    Running(UnitOfWorkView),
    /// Shutdown was signalled, and the job is given its grace to finish.
    Lingering(UnitOfWorkView),
    /// The record of the job is being cleared. The job ended with the result, or was
    /// interrupted where there is none.
    Clearing(UnitOfWorkView, Option<Result<(), E>>),
    /// The job was interrupted, and is being pushed back onto its queue.
    Requeueing(UnitOfWorkView),
    /// The job ended, and its claimed copy is being dropped.
    Acking(UnitOfWorkView, Result<(), E>),
    /// The tick is over.
    Finished(Result<WorkFetcher, E>),
}

/// A [`Tick`] by its contents.
pub struct TickView<E> {
    pub grace: Duration,
    pub phase: TickPhase<E>,
}

impl<E> View for Tick<E> {
    type V = TickView<E>;

    closed spec fn view(&self) -> TickView<E> {
        TickView {
            grace: self.grace,
            phase: match self.phase {
                Phase::Fetching => TickPhase::Fetching,
                Phase::Yielding => TickPhase::Yielding,
                Phase::Publishing(work) => TickPhase::Publishing(work@),
                Phase::Running(work) => TickPhase::Running(work@),
                Phase::Lingering(work) => TickPhase::Lingering(work@),
                Phase::Clearing(work, outcome) => TickPhase::Clearing(work@, outcome),
                Phase::Requeueing(work) => TickPhase::Requeueing(work@),
                Phase::Acking(work, result) => TickPhase::Acking(work@, result),
                Phase::Finished(result) => TickPhase::Finished(result),
            },
        }
    }
}

/// What a tick asks of its driver.
#[derive(Clone, Copy, Debug)]
pub enum TickAction {
    /// Fetch a job.
    Fetch,
    /// Let other tasks run, such as one that waits for a connection.
    Yield,
    /// Record the job as at hand, as well as can be.
    SetWork,
    /// Run the job, and watch out for shutdown meanwhile. If both come at once, the
    /// job's result counts.
    RunJob,
    /// Let the job run on for this long at most.
    AwaitJob(Duration),
    /// Clear the record of the job, as well as can be.
    ClearWork,
    /// Push the job back onto its queue, as well as can be.
    Requeue,
    /// Drop the claimed copy of the job, as well as can be.
    Ack,
}

/// What came of an action.
pub enum TickEvent<E> {
    /// What the fetch came back with.
    Fetched(Result<Option<UnitOfWork>, E>),
    /// The job ended.
    JobEnded(Result<(), E>),
    /// Shutdown was signalled while the job ran.
    ShutdownSignalled,
    /// The job has not ended within its grace.
    GraceElapsed,
    /// Any other action was performed, as well as could be.
    Performed,
}

/// A [`TickEvent`] by its contents.
pub enum TickEventView<E> {
    Fetched(Result<Option<UnitOfWorkView>, E>),
    JobEnded(Result<(), E>),
    ShutdownSignalled,
    GraceElapsed,
    Performed,
}

impl<E> View for TickEvent<E> {
    type V = TickEventView<E>;

    open spec fn view(&self) -> TickEventView<E> {
        match self {
            TickEvent::Fetched(Ok(work)) => TickEventView::Fetched(Ok(work_view(*work))),
            TickEvent::Fetched(Err(error)) => TickEventView::Fetched(Err(*error)),
            TickEvent::JobEnded(result) => TickEventView::JobEnded(*result),
            TickEvent::ShutdownSignalled => TickEventView::ShutdownSignalled,
            TickEvent::GraceElapsed => TickEventView::GraceElapsed,
            TickEvent::Performed => TickEventView::Performed,
        }
    }
}

/// A tick that gives a job `grace` to finish on shutdown.
pub open spec fn tick_start<E>(grace: Duration) -> TickView<E> {
    TickView { grace, phase: TickPhase::Fetching }
}

/// What a tick asks for.
pub open spec fn tick_action<E>(v: TickView<E>) -> Option<TickAction> {
    match v.phase {
        TickPhase::Fetching => Some(TickAction::Fetch),
        TickPhase::Yielding => Some(TickAction::Yield),
        TickPhase::Publishing(_) => Some(TickAction::SetWork),
        TickPhase::Running(_) => Some(TickAction::RunJob),
        TickPhase::Lingering(_) => Some(TickAction::AwaitJob(v.grace)),
        TickPhase::Clearing(..) => Some(TickAction::ClearWork),
        TickPhase::Requeueing(_) => Some(TickAction::Requeue),
        TickPhase::Acking(..) => Some(TickAction::Ack),
        TickPhase::Finished(_) => None,
    }
}

/// What a tick reports of a job that ended.
pub open spec fn tick_result<E>(result: Result<(), E>) -> Result<WorkFetcher, E> {
    match result {
        Ok(_) => Ok(WorkFetcher::Done),
        Err(error) => Err(error),
    }
}

/// How a tick goes on. A job that ended, be it with an error, is taken out of its
/// in-progress list: a failed job already lives in the retry or dead set. A job that was
/// interrupted is requeued and not reported as failed. An event that does not answer the
/// action changes nothing.
pub open spec fn tick_next<E>(v: TickView<E>, event: TickEventView<E>) -> TickView<E> {
    let phase = match (v.phase, event) {
        (TickPhase::Fetching, TickEventView::Fetched(Ok(Some(work)))) => TickPhase::Publishing(work),
        (TickPhase::Fetching, TickEventView::Fetched(Ok(None))) => TickPhase::Yielding,
        (TickPhase::Fetching, TickEventView::Fetched(Err(error))) => TickPhase::Finished(Err(error)),
        (TickPhase::Yielding, TickEventView::Performed) => TickPhase::Finished(Ok(WorkFetcher::NoWorkFound)),
        (TickPhase::Publishing(work), TickEventView::Performed) => TickPhase::Running(work),
        (TickPhase::Running(work), TickEventView::JobEnded(result)) => TickPhase::Clearing(work, Some(result)),
        (TickPhase::Running(work), TickEventView::ShutdownSignalled) => TickPhase::Lingering(work),
        (TickPhase::Lingering(work), TickEventView::JobEnded(result)) => TickPhase::Clearing(work, Some(result)),
        (TickPhase::Lingering(work), TickEventView::GraceElapsed) => TickPhase::Clearing(work, None),
        (TickPhase::Clearing(work, None), TickEventView::Performed) => TickPhase::Requeueing(work),
        (TickPhase::Clearing(work, Some(result)), TickEventView::Performed) => if work.reliable is Some {
            TickPhase::Acking(work, result)
        } else {
            TickPhase::Finished(tick_result(result))
        },
        (TickPhase::Requeueing(_), TickEventView::Performed) => TickPhase::Finished(Ok(WorkFetcher::Done)),
        (TickPhase::Acking(_, result), TickEventView::Performed) => TickPhase::Finished(tick_result(result)),
        _ => v.phase,
    };
    TickView { phase, ..v }
}

/// The work that a tick has at hand.
pub open spec fn tick_work<E>(v: TickView<E>) -> Option<UnitOfWorkView> {
    match v.phase {
        TickPhase::Publishing(work) => Some(work),
        TickPhase::Running(work) => Some(work),
        TickPhase::Lingering(work) => Some(work),
        TickPhase::Clearing(work, _) => Some(work),
        TickPhase::Requeueing(work) => Some(work),
        TickPhase::Acking(work, _) => Some(work),
        _ => None,
    }
}

/// What a tick reports of a job that ended.
fn reported<E>(result: Result<(), E>) -> (report: Result<WorkFetcher, E>)
    ensures
        report == tick_result(result),
{
    match result {
        Ok(_) => Ok(WorkFetcher::Done),
        Err(error) => Err(error),
    }
}

impl<E> Tick<E> {
    /// Begins a tick that gives a job `grace` to finish on shutdown.
    pub(crate) fn start(grace: Duration) -> (tick: Self)
        ensures
            tick@ == tick_start::<E>(grace),
    {
        Tick { grace, phase: Phase::Fetching }
    }

    /// What the tick asks for, `None` once it is over.
    pub(crate) fn action(&self) -> (action: Option<TickAction>)
        ensures
            action == tick_action(self@),
    {
        match &self.phase {
            Phase::Fetching => Some(TickAction::Fetch),
            Phase::Yielding => Some(TickAction::Yield),
            Phase::Publishing(_) => Some(TickAction::SetWork),
            Phase::Running(_) => Some(TickAction::RunJob),
            Phase::Lingering(_) => Some(TickAction::AwaitJob(self.grace)),
            Phase::Clearing(..) => Some(TickAction::ClearWork),
            Phase::Requeueing(_) => Some(TickAction::Requeue),
            Phase::Acking(..) => Some(TickAction::Ack),
            Phase::Finished(_) => None,
        }
    }

    /// The work at hand, if there is any.
    pub(crate) fn work(&self) -> (work: Option<&UnitOfWork>)
        ensures
            match work {
                Some(w) => tick_work(self@) == Some(w@),
                None => tick_work(self@) is None,
            },
    {
        match &self.phase {
            Phase::Publishing(work) => Some(work),
            Phase::Running(work) => Some(work),
            Phase::Lingering(work) => Some(work),
            Phase::Clearing(work, _) => Some(work),
            Phase::Requeueing(work) => Some(work),
            Phase::Acking(work, _) => Some(work),
            _ => None,
        }
    }

    /// Goes on with what came of the action.
    pub(crate) fn resume(self, event: TickEvent<E>) -> (next: Self)
        ensures
            next@ == tick_next(self@, event@),
    {
        let Tick { grace, phase } = self;
        let phase: Phase<E> = match (phase, event) {
            (Phase::Fetching, TickEvent::Fetched(Ok(Some(work)))) => Phase::Publishing(work),
            (Phase::Fetching, TickEvent::Fetched(Ok(None))) => Phase::Yielding,
            (Phase::Fetching, TickEvent::Fetched(Err(error))) => Phase::Finished(Err(error)),
            (Phase::Yielding, TickEvent::Performed) => Phase::Finished(Ok(WorkFetcher::NoWorkFound)),
            (Phase::Publishing(work), TickEvent::Performed) => Phase::Running(work),
            (Phase::Running(work), TickEvent::JobEnded(result)) => Phase::Clearing(work, Some(result)),
            (Phase::Running(work), TickEvent::ShutdownSignalled) => Phase::Lingering(work),
            (Phase::Lingering(work), TickEvent::JobEnded(result)) => Phase::Clearing(work, Some(result)),
            (Phase::Lingering(work), TickEvent::GraceElapsed) => Phase::Clearing(work, None),
            (Phase::Clearing(work, None), TickEvent::Performed) => Phase::Requeueing(work),
            (Phase::Clearing(work, Some(result)), TickEvent::Performed) => {
                if work.reliable.is_some() {
                    Phase::Acking(work, result)
                } else {
                    Phase::Finished(reported(result))
                }
            },
            (Phase::Requeueing(_), TickEvent::Performed) => Phase::Finished(Ok(WorkFetcher::Done)),
            (Phase::Acking(_, result), TickEvent::Performed) => Phase::Finished(reported(result)),
            (phase, _) => phase,
        };
        Tick { grace, phase }
    }

    /// What the tick found to do, or the error that ended it; `None` while it goes on.
    pub(crate) fn outcome(self) -> (outcome: Option<Result<WorkFetcher, E>>)
        ensures
            match self@.phase {
                TickPhase::Finished(result) => outcome == Some(result),
                _ => outcome is None,
            },
    {
        match self.phase {
            Phase::Finished(result) => Some(result),
            _ => None,
        }
    }
}

/// What the processing of one job asks for: ticks until one finds work, unless
/// shutdown was signalled.
pub enum ProcessOne<E> {
    /// See whether shutdown was signalled.
    CheckCancelled,
    /// Perform a tick.
    Tick,
    /// The processing is over.
    Return(Result<(), E>),
}

/// What came of it.
pub enum ProcessOneEvent<E> {
    /// Whether shutdown was signalled.
    Cancelled(bool),
    /// What the tick came to.
    Ticked(Result<WorkFetcher, E>),
}

/// How the processing of one job goes on. An event that does not answer what was asked
/// for changes nothing.
pub open spec fn process_one_next<E>(state: ProcessOne<E>, event: ProcessOneEvent<E>) -> ProcessOne<E> {
    match (state, event) {
        (ProcessOne::CheckCancelled, ProcessOneEvent::Cancelled(true)) => ProcessOne::Return(Ok(())),
        (ProcessOne::CheckCancelled, ProcessOneEvent::Cancelled(false)) => ProcessOne::Tick,
        (ProcessOne::Tick, ProcessOneEvent::Ticked(Ok(WorkFetcher::NoWorkFound))) => ProcessOne::CheckCancelled,
        (ProcessOne::Tick, ProcessOneEvent::Ticked(Ok(WorkFetcher::Done))) => ProcessOne::Return(Ok(())),
        (ProcessOne::Tick, ProcessOneEvent::Ticked(Err(error))) => ProcessOne::Return(Err(error)),
        _ => state,
    }
}

impl<E> ProcessOne<E> {
    /// Begins to process one job.
    pub fn start() -> (state: Self)
        ensures
            state == ProcessOne::<E>::CheckCancelled,
    {
        ProcessOne::CheckCancelled
    }

    /// Goes on with what came of what was asked for.
    pub fn resume(self, event: ProcessOneEvent<E>) -> (next: Self)
        ensures
            next == process_one_next(self, event),
    {
        match (self, event) {
            (ProcessOne::CheckCancelled, ProcessOneEvent::Cancelled(cancelled)) => {
                if cancelled {
                    ProcessOne::Return(Ok(()))
                } else {
                    ProcessOne::Tick
                }
            },
            (ProcessOne::Tick, ProcessOneEvent::Ticked(Ok(found))) => {
                match found {
                    WorkFetcher::NoWorkFound => ProcessOne::CheckCancelled,
                    WorkFetcher::Done => ProcessOne::Return(Ok(())),
                }
            },
            (ProcessOne::Tick, ProcessOneEvent::Ticked(Err(error))) => ProcessOne::Return(Err(error)),
            (state, _) => state,
        }
    }
}

} // verus!
