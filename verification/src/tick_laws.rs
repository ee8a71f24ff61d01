//! What becomes of a job in the course of a tick, and when the processing of jobs ends.

use core::time::Duration;
use vstd::prelude::*;

use crate::job::UnitOfWorkView;
use crate::tick::{
    process_one_next, tick_action, tick_next, tick_result, tick_start, tick_work, ProcessOne, ProcessOneEvent, TickAction,
    TickEventView, TickPhase, TickView, WorkFetcher,
};

verus! {

/// One event that takes a tick on.
pub open spec fn tick_step<E>(a: TickView<E>, b: TickView<E>) -> bool {
    &&& a != b
    &&& exists|event: TickEventView<E>| b == #[trigger] tick_next(a, event)
}

/// The course of a tick, whatever comes of its actions. Events that change nothing are
/// left out.
pub open spec fn tick_course<E>(course: Seq<TickView<E>>, grace: Duration) -> bool {
    &&& course.len() > 0
    &&& course[0] == tick_start::<E>(grace)
    &&& forall|i: int| #![trigger course[i]] 0 < i < course.len() ==> tick_step(course[i - 1], course[i])
}

/// The phases that a tick went through.
pub open spec fn phases<E>(course: Seq<TickView<E>>) -> Seq<TickPhase<E>> {
    course.map_values(|v: TickView<E>| v.phase)
}

/// No job could be fetched for an error.
pub open spec fn failed_course<E>(error: E) -> Seq<TickPhase<E>> {
    seq![TickPhase::Fetching, TickPhase::Finished(Err(error))]
}

/// There was no job.
pub open spec fn idle_course<E>() -> Seq<TickPhase<E>> {
    seq![TickPhase::Fetching, TickPhase::Yielding, TickPhase::Finished(Ok(WorkFetcher::NoWorkFound))]
}

/// The job is recorded and run. If shutdown is signalled meanwhile, it is given its
/// grace.
pub open spec fn job_starts<E>(work: UnitOfWorkView, lingers: bool) -> Seq<TickPhase<E>> {
    let running = seq![TickPhase::Fetching, TickPhase::Publishing(work), TickPhase::Running(work)];
    if lingers {
        running.push(TickPhase::Lingering(work))
    } else {
        running
    }
}

/// The job ended, in time if shutdown was signalled. Its record is cleared, its claimed
/// copy is dropped if it has one, whatever the result, and the result is reported.
pub open spec fn ended_course<E>(work: UnitOfWorkView, lingers: bool, result: Result<(), E>) -> Seq<TickPhase<E>> {
    let cleared = job_starts(work, lingers).push(TickPhase::Clearing(work, Some(result)));
    let acked = if work.reliable is Some {
        cleared.push(TickPhase::Acking(work, result))
    } else {
        cleared
    };
    acked.push(TickPhase::Finished(tick_result(result)))
}

/// The job did not end in time after shutdown was signalled. Its record is cleared, it
/// is requeued and not dropped, and the tick counts as done.
pub open spec fn interrupted_course<E>(work: UnitOfWorkView) -> Seq<TickPhase<E>> {
    job_starts(work, true).push(TickPhase::Clearing(work, None)).push(TickPhase::Requeueing(work)).push(
        TickPhase::Finished(Ok(WorkFetcher::Done)),
    )
}

/// A tick that comes to its end has had one of four courses. In particular, a job that
/// was run is afterwards either requeued or, if it was claimed, dropped, and never both:
/// it is requeued if and only if it was interrupted.
pub proof fn law_tick_deals_with_its_job<E>(course: Seq<TickView<E>>, grace: Duration)
    requires
        tick_course(course, grace),
        course.last().phase is Finished,
    ensures
        ({
            ||| exists|error: E| phases(course) == #[trigger] failed_course(error)
            ||| phases(course) == idle_course::<E>()
            ||| exists|work: UnitOfWorkView, lingers: bool, result: Result<(), E>|
                phases(course) == #[trigger] ended_course(work, lingers, result)
            ||| exists|work: UnitOfWorkView| phases(course) == #[trigger] interrupted_course::<E>(work)
        }),
{
    let n = course.len();
    assert(n > 1);
    assert(tick_step(course[0], course[1]));
    if n > 2 {
        assert(tick_step(course[1], course[2]));
    }
    if n > 3 {
        assert(tick_step(course[2], course[3]));
    }
    if n > 4 {
        assert(tick_step(course[3], course[4]));
    }
    if n > 5 {
        assert(tick_step(course[4], course[5]));
    }
    if n > 6 {
        assert(tick_step(course[5], course[6]));
    }
    if n > 7 {
        assert(tick_step(course[6], course[7]));
    }
    match course[1].phase {
        TickPhase::Finished(Err(error)) => {
            assert(phases(course) =~= failed_course(error));
        },
        TickPhase::Yielding => {
            assert(phases(course) =~= idle_course::<E>());
        },
        TickPhase::Publishing(work) => {
            assert(course[2].phase == TickPhase::<E>::Running(work));
            match course[3].phase {
                TickPhase::Clearing(_, Some(result)) => {
                    assert(phases(course) =~= ended_course(work, false, result));
                },
                _ => {
                    assert(course[3].phase == TickPhase::<E>::Lingering(work));
                    match course[4].phase {
                        TickPhase::Clearing(_, Some(result)) => {
                            assert(phases(course) =~= ended_course(work, true, result));
                        },
                        _ => {
                            assert(course[4].phase == TickPhase::<E>::Clearing(work, None));
                            assert(phases(course) =~= interrupted_course::<E>(work));
                        },
                    }
                },
            }
        },
        _ => {},
    }
}

/// How far a tick still is from its end.
pub open spec fn steps_left<E>(v: TickView<E>) -> nat {
    match v.phase {
        TickPhase::Fetching => 6,
        TickPhase::Publishing(_) => 5,
        TickPhase::Running(_) => 4,
        TickPhase::Lingering(_) => 3,
        TickPhase::Clearing(..) => 2,
        TickPhase::Yielding => 1,
        TickPhase::Requeueing(_) => 1,
        TickPhase::Acking(..) => 1,
        TickPhase::Finished(_) => 0,
    }
}

/// A tick comes to an end: each event that takes it on brings it nearer to it.
pub proof fn law_tick_comes_to_an_end<E>(a: TickView<E>, b: TickView<E>)
    requires
        tick_step(a, b),
    ensures
        steps_left(b) < steps_left(a),
{
}

/// The processing of a job goes on to another tick only after one that found no work,
/// and after having seen that shutdown was not signalled. It ends without an error if
/// it was.
pub proof fn law_ticks_until_work_is_found<E>(state: ProcessOne<E>, event: ProcessOneEvent<E>)
    ensures
        process_one_next(state, event) is Tick && !(state is Tick) ==> state is CheckCancelled && event
            == ProcessOneEvent::<E>::Cancelled(false),
        process_one_next(state, event) is CheckCancelled && !(state is CheckCancelled) ==> state is Tick && event
            == ProcessOneEvent::<E>::Ticked(Ok(WorkFetcher::NoWorkFound)),
        state is CheckCancelled && event == ProcessOneEvent::<E>::Cancelled(true) ==> process_one_next(state, event)
            == ProcessOne::<E>::Return(Ok(())),
{
}

/// A tick begins with the fetch. A job that came of it is recorded and then run; without
/// one, other tasks are let run, and the tick has found no work; an error ends it.
pub proof fn law_tick_goes_on_from_its_fetch<E>(v: TickView<E>, work: UnitOfWorkView, error: E, grace: Duration)
    ensures
        tick_start::<E>(grace).grace == grace && tick_start::<E>(grace).phase is Fetching,
        v.phase is Fetching ==> {
            &&& tick_action(v) == Some(TickAction::Fetch)
            &&& tick_work(v) is None
            &&& tick_next(v, TickEventView::Fetched(Ok(Some(work)))).phase == TickPhase::<E>::Publishing(work)
            &&& tick_next(v, TickEventView::Fetched(Ok(None))).phase is Yielding
            &&& tick_next(v, TickEventView::Fetched(Err(error))).phase == TickPhase::<E>::Finished(Err(error))
        },
        v.phase is Yielding ==> {
            &&& tick_action(v) == Some(TickAction::Yield)
            &&& tick_work(v) is None
            &&& tick_next(v, TickEventView::Performed).phase == TickPhase::<E>::Finished(Ok(WorkFetcher::NoWorkFound))
        },
        v.phase == TickPhase::<E>::Publishing(work) ==> {
            &&& tick_action(v) == Some(TickAction::SetWork)
            &&& tick_work(v) == Some(work)
            &&& tick_next(v, TickEventView::Performed).phase == TickPhase::<E>::Running(work)
        },
{
}

/// A job that ends, before or after shutdown was signalled, is cleared with its own result;
/// only one that has not ended within its grace is cleared as interrupted. The grace is the
/// one that the tick was begun with.
pub proof fn law_tick_tells_ended_jobs_from_interrupted_ones<E>(
    v: TickView<E>,
    work: UnitOfWorkView,
    result: Result<(), E>,
)
    ensures
        v.phase == TickPhase::<E>::Running(work) ==> {
            &&& tick_action(v) == Some(TickAction::RunJob)
            &&& tick_work(v) == Some(work)
            &&& tick_next(v, TickEventView::JobEnded(result)).phase == TickPhase::Clearing(work, Some(result))
            &&& tick_next(v, TickEventView::ShutdownSignalled).phase == TickPhase::<E>::Lingering(work)
            &&& tick_next(v, TickEventView::GraceElapsed) == v
        },
        v.phase == TickPhase::<E>::Lingering(work) ==> {
            &&& tick_action(v) == Some(TickAction::AwaitJob(v.grace))
            &&& tick_work(v) == Some(work)
            &&& tick_next(v, TickEventView::JobEnded(result)).phase == TickPhase::Clearing(work, Some(result))
            &&& tick_next(v, TickEventView::GraceElapsed).phase == TickPhase::<E>::Clearing(work, None)
            &&& tick_next(v, TickEventView::ShutdownSignalled) == v
        },
{
}

/// Once cleared, an interrupted job is requeued and the tick counts as done. Of a job that
/// ended, the claimed copy is dropped if there is one, and the tick reports the job's own
/// error, or that it is done.
pub proof fn law_tick_ends_as_its_job_did<E>(v: TickView<E>, work: UnitOfWorkView, result: Result<(), E>)
    ensures
        v.phase == TickPhase::<E>::Clearing(work, None) ==> {
            &&& tick_action(v) == Some(TickAction::ClearWork)
            &&& tick_work(v) == Some(work)
            &&& tick_next(v, TickEventView::Performed).phase == TickPhase::<E>::Requeueing(work)
        },
        v.phase == TickPhase::Clearing(work, Some(result)) ==> {
            &&& tick_action(v) == Some(TickAction::ClearWork)
            &&& tick_work(v) == Some(work)
            &&& work.reliable is Some ==> tick_next(v, TickEventView::Performed).phase == TickPhase::Acking(work, result)
            &&& work.reliable is None ==> tick_next(v, TickEventView::Performed).phase == TickPhase::Finished(
                match result {
                    Ok(_) => Ok::<WorkFetcher, E>(WorkFetcher::Done),
                    Err(error) => Err(error),
                },
            )
        },
        v.phase == TickPhase::<E>::Requeueing(work) ==> {
            &&& tick_action(v) == Some(TickAction::Requeue)
            &&& tick_work(v) == Some(work)
            &&& tick_next(v, TickEventView::Performed).phase == TickPhase::<E>::Finished(Ok(WorkFetcher::Done))
        },
        v.phase == TickPhase::Acking(work, result) ==> {
            &&& tick_action(v) == Some(TickAction::Ack)
            &&& tick_work(v) == Some(work)
            &&& tick_next(v, TickEventView::Performed).phase == TickPhase::Finished(
                match result {
                    Ok(_) => Ok::<WorkFetcher, E>(WorkFetcher::Done),
                    Err(error) => Err(error),
                },
            )
        },
{
}

/// Events that do not answer what a tick asks for change nothing, nor does any once it is
/// over, and none changes its grace.
pub proof fn law_tick_heeds_answers_only<E>(v: TickView<E>, event: TickEventView<E>)
    ensures
        tick_next(v, event).grace == v.grace,
        v.phase is Finished <==> tick_action(v) is None,
        v.phase is Finished ==> tick_next(v, event) == v && tick_work(v) is None,
        v.phase is Fetching && !(event is Fetched) ==> tick_next(v, event) == v,
        (v.phase is Running || v.phase is Lingering) && (event is Fetched || event is Performed) ==> tick_next(v, event)
            == v,
        (v.phase is Yielding || v.phase is Publishing || v.phase is Clearing || v.phase is Requeueing
            || v.phase is Acking) && !(event is Performed) ==> tick_next(v, event) == v,
{
}

/// A tick that found no work is followed by a look for shutdown, and that by another tick
/// unless shutdown was signalled. A tick that is done ends the processing, as does one with
/// an error, with that error.
pub proof fn law_processing_follows_its_ticks<E>(error: E, cancelled: bool, event: ProcessOneEvent<E>, result: Result<(), E>)
    ensures
        process_one_next(ProcessOne::<E>::CheckCancelled, ProcessOneEvent::Cancelled(cancelled)) == if cancelled {
            ProcessOne::<E>::Return(Ok(()))
        } else {
            ProcessOne::<E>::Tick
        },
        process_one_next(ProcessOne::<E>::Tick, ProcessOneEvent::Ticked(Ok(WorkFetcher::NoWorkFound))) == ProcessOne::<
            E,
        >::CheckCancelled,
        process_one_next(ProcessOne::<E>::Tick, ProcessOneEvent::Ticked(Ok(WorkFetcher::Done))) == ProcessOne::<E>::Return(
            Ok(()),
        ),
        process_one_next(ProcessOne::<E>::Tick, ProcessOneEvent::Ticked(Err(error))) == ProcessOne::<E>::Return(Err(error)),
        process_one_next(ProcessOne::Return(result), event) == ProcessOne::<E>::Return(result),
        event is Ticked ==> process_one_next(ProcessOne::CheckCancelled, event) == ProcessOne::<E>::CheckCancelled,
        event is Cancelled ==> process_one_next(ProcessOne::Tick, event) == ProcessOne::<E>::Tick,
{
}

} // verus!
