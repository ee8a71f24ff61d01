//! The processing of one job: ticks, one after the other, until one finds work.

use vstd::prelude::*;

use crate::job::UnitOfWork;
use crate::outside::{unix_now, ClockReading};
use crate::processor::{claiming_identity, rebalanced, Processor, ProcessorView};
use crate::tick::{process_one_next, tick_work, ProcessOne, ProcessOneEvent, TickPhase};
use crate::tick_run::{
    recorded_under, tick_run_effect, tick_run_next, tick_run_reads_clock, tick_run_start, TickEffect, TickEffectView, TickRun, TickRunEvent,
    TickRunEventView, TickRunView,
};

verus! {

/// The processing of one job under way.
pub struct ProcessRun<E> {
    state: ProcessOne<E>,
    tick: Option<TickRun<E>>,
}

/// A [`ProcessRun`] by its contents.
pub struct ProcessRunView<E> {
    pub state: ProcessOne<E>,
    /// The tick that is under way, if one is.
    pub tick: Option<TickRunView<E>>,
}

impl<E> View for ProcessRun<E> {
    type V = ProcessRunView<E>;

    closed spec fn view(&self) -> ProcessRunView<E> {
        ProcessRunView {
            state: self.state,
            tick: match self.tick {
                Some(run) => Some(run@),
                None => None,
            },
        }
    }
}

/// What the processing waits for.
#[derive(Debug)]
pub enum ProcessEffect {
    /// See whether shutdown was signalled.
    CheckCancelled,
    /// What the tick under way waits for.
    Tick(TickEffect),
}

/// A [`ProcessEffect`] by its contents.
pub enum ProcessEffectView {
    CheckCancelled,
    Tick(TickEffectView),
}

impl View for ProcessEffect {
    type V = ProcessEffectView;

    open spec fn view(&self) -> ProcessEffectView {
        match self {
            ProcessEffect::CheckCancelled => ProcessEffectView::CheckCancelled,
            ProcessEffect::Tick(effect) => ProcessEffectView::Tick(effect@),
        }
    }
}

/// The content of an optional effect.
pub open spec fn process_effect_view(effect: Option<ProcessEffect>) -> Option<ProcessEffectView> {
    match effect {
        Some(e) => Some(e@),
        None => None,
    }
}

/// What came of it.
pub enum ProcessEvent<E> {
    /// Whether shutdown was signalled.
    Cancelled(bool),
    /// What came of the effect of the tick under way.
    Tick(TickRunEvent<E>),
}

/// A [`ProcessEvent`] by its contents.
pub enum ProcessEventView<E> {
    Cancelled(bool),
    Tick(TickRunEventView<E>),
}

impl<E> View for ProcessEvent<E> {
    type V = ProcessEventView<E>;

    open spec fn view(&self) -> ProcessEventView<E> {
        match self {
            ProcessEvent::Cancelled(cancelled) => ProcessEventView::Cancelled(*cancelled),
            ProcessEvent::Tick(event) => ProcessEventView::Tick(event@),
        }
    }
}

/// What becomes of a processor, and of the processing of a job, once it is known whether
/// shutdown was signalled. If it was, the processing is over and the processor stays as
/// it is. If not, a tick begins, with the queues in their next order.
pub open spec fn process_checked<W, E>(v: ProcessorView<W>, cancelled: bool) -> (ProcessorView<W>, ProcessRunView<E>) {
    let state = process_one_next(ProcessOne::CheckCancelled, ProcessOneEvent::Cancelled(cancelled));
    if cancelled {
        (v, ProcessRunView { state, tick: None })
    } else {
        let after = rebalanced(v);
        (
            after,
            ProcessRunView {
                state,
                tick: Some(tick_run_start(v.config.shutdown_grace, claiming_identity(v), after.queues)),
            },
        )
    }
}

/// What the processing waits for.
pub open spec fn process_effect<E>(v: ProcessRunView<E>) -> Option<ProcessEffectView> {
    match (v.state, v.tick) {
        (ProcessOne::CheckCancelled, _) => Some(ProcessEffectView::CheckCancelled),
        (ProcessOne::Tick, Some(run)) => match tick_run_effect(run) {
            Some(effect) => Some(ProcessEffectView::Tick(effect)),
            None => None,
        },
        _ => None,
    }
}

/// How the processing goes on at the time `now`, and what becomes of the processor. The
/// tick under way goes on as it does by itself. One that found no work is followed by
/// another look for shutdown; any other ends the processing with its error, if it had
/// one. An event that does not answer the pending effect changes nothing.
pub open spec fn process_next<W, E>(v: ProcessorView<W>, run: ProcessRunView<E>, event: ProcessEventView<E>, now: int) -> (
    ProcessorView<W>,
    ProcessRunView<E>,
) {
    match (run.state, run.tick, event) {
        (ProcessOne::CheckCancelled, _, ProcessEventView::Cancelled(cancelled)) => process_checked(v, cancelled),
        (ProcessOne::Tick, Some(tick), ProcessEventView::Tick(event)) => {
            let (next, registered_inprogress) = tick_run_next(
                tick,
                recorded_under(v),
                v.registered_inprogress,
                event,
                now,
            );
            let after = ProcessorView { registered_inprogress, ..v };
            match next.tick.phase {
                TickPhase::Finished(result) => (
                    after,
                    ProcessRunView {
                        state: process_one_next(run.state, ProcessOneEvent::Ticked(result)),
                        tick: None,
                    },
                ),
                _ => (after, ProcessRunView { tick: Some(next), ..run }),
            }
        },
        _ => (v, run),
    }
}

/// Whether the time matters to how the processing goes on.
pub open spec fn process_reads_clock<E>(run: ProcessRunView<E>, event: ProcessEventView<E>) -> bool {
    match (run.tick, event) {
        (Some(tick), ProcessEventView::Tick(event)) => tick_run_reads_clock(tick, event),
        _ => false,
    }
}

impl<E> ProcessRun<E> {
    /// The tick under way, if one is.
    pub fn tick(&self) -> (tick: Option<&TickRun<E>>)
        ensures
            match tick {
                Some(run) => self@.tick == Some(run@),
                None => self@.tick is None,
            },
    {
        match &self.tick {
            Some(run) => Some(run),
            None => None,
        }
    }

    /// Whether the time matters to how the processing goes on.
    fn reads_clock(&self, event: &ProcessEvent<E>) -> (reads: bool)
        ensures
            reads == process_reads_clock(self@, event@),
    {
        match (&self.tick, event) {
            (Some(tick), ProcessEvent::Tick(event)) => tick.reads_clock(event),
            _ => false,
        }
    }

    /// What the processing waits for, `None` once it is over.
    pub fn pending(&self) -> (effect: Option<ProcessEffect>)
        ensures
            process_effect_view(effect) == process_effect(self@),
    {
        match (&self.state, &self.tick) {
            (ProcessOne::CheckCancelled, _) => Some(ProcessEffect::CheckCancelled),
            (ProcessOne::Tick, Some(run)) => match run.pending() {
                Some(effect) => Some(ProcessEffect::Tick(effect)),
                None => None,
            },
            _ => None,
        }
    }

    /// The work at hand, if there is any.
    pub fn work(&self) -> (work: Option<&UnitOfWork>)
        ensures
            match work {
                Some(w) => self@.tick matches Some(run) && tick_work(run.tick) == Some(w@),
                None => self@.tick matches Some(run) ==> tick_work(run.tick) is None,
            },
    {
        match &self.tick {
            Some(run) => run.work(),
            None => None,
        }
    }

    /// How the processing ended; `None` while it goes on.
    pub fn outcome(self) -> (outcome: Option<Result<(), E>>)
        ensures
            match self@.state {
                ProcessOne::Return(result) => outcome == Some(result),
                _ => outcome is None,
            },
    {
        match self.state {
            ProcessOne::Return(result) => Some(result),
            _ => None,
        }
    }
}

impl<W> Processor<W> {
    /// Goes on to a tick, unless shutdown was signalled.
    pub(crate) fn process_checked<E>(&mut self, cancelled: bool) -> (run: ProcessRun<E>)
        ensures
            (final(self)@, run@) == process_checked::<W, E>(old(self)@, cancelled),
    {
        let state: ProcessOne<E> = ProcessOne::start().resume(ProcessOneEvent::Cancelled(cancelled));
        if cancelled {
            ProcessRun { state, tick: None }
        } else {
            let tick: TickRun<E> = self.process_one_tick_once();
            ProcessRun { state, tick: Some(tick) }
        }
    }

    /// Goes on with the processing of a job, at the time `now`, after what came of its
    /// pending effect.
    pub fn resume_process_one_at<E>(&mut self, run: ProcessRun<E>, event: ProcessEvent<E>, now: i64) -> (next: ProcessRun<E>)
        ensures
            (final(self)@, next@) == process_next(old(self)@, run@, event@, now as int),
    {
        let ProcessRun { state, tick } = run;
        match (state, tick, event) {
            (ProcessOne::CheckCancelled, _, ProcessEvent::Cancelled(cancelled)) => self.process_checked(cancelled),
            (ProcessOne::Tick, Some(tick), ProcessEvent::Tick(event)) => {
                let tick: TickRun<E> = self.resume_tick_at(tick, event, now);
                if tick.is_over() {
                    match tick.outcome() {
                        Some(result) => ProcessRun {
                            state: ProcessOne::Tick.resume(ProcessOneEvent::Ticked(result)),
                            tick: None,
                        },
                        None => ProcessRun { state: ProcessOne::Tick, tick: None },
                    }
                } else {
                    ProcessRun { state: ProcessOne::Tick, tick: Some(tick) }
                }
            },
            (state, tick, _) => ProcessRun { state, tick },
        }
    }

    /// Goes on with the processing of a job, at the present time, after what came of its
    /// pending effect. The clock is read only where the record of a job is made.
    pub fn resume_process_one<E>(&mut self, run: ProcessRun<E>, event: ProcessEvent<E>) -> (next: ProcessRun<E>)
        ensures
            process_reads_clock(run@, event@) ==> exists|now: ClockReading|
                (final(self)@, next@) == process_next(old(self)@, run@, event@, #[trigger] now@ as int),
            !process_reads_clock(run@, event@) ==> forall|now: int|
                (final(self)@, next@) == #[trigger] process_next(old(self)@, run@, event@, now),
    {
        if run.reads_clock(&event) {
            let now: ClockReading = unix_now();
            self.resume_process_one_at(run, event, now.get())
        } else {
            self.resume_process_one_at(run, event, 0)
        }
    }
}

} // verus!
