//! What holds of a tick and its work on Redis, whatever happens between its effects.

use core::time::Duration;
use vstd::prelude::*;

use crate::command::{CommandView, EffectView, EventView};
use crate::fetch::{fetch_effect, fetch_next, FetchPhase, FetchView};
use crate::job::UnitOfWorkView;
use crate::keys::{queue_key_text, work_key_text, Text};
use crate::processor::ProcessorView;
use crate::tick::{TickPhase, WorkFetcher};
use crate::tick_run::{
    recorded_under, tick_run_effect, tick_run_next, tick_run_reads_clock, tick_run_start, PartView, TickEffectView,
    TickRunEventView, TickRunView,
};
use crate::work::{requeue_effect, requeue_next, set_work_effect, set_work_next, RequeueView, SetWorkView};

verus! {

/// A job is recorded under the identity and the thread id of the processor, if it has both.
pub proof fn law_jobs_are_recorded_under_both_ids<W>(v: ProcessorView<W>)
    ensures
        recorded_under(v) is Some <==> v.identity is Some && v.tid is Some,
        recorded_under(v) matches Some(under) ==> v.identity == Some(under.0) && v.tid == Some(under.1),
{
}

/// A tick begins with its fetch, for the identity and from the queues that are given.
pub proof fn law_tick_begins_with_its_fetch<E>(grace: Duration, identity: Option<Text>, queues: Seq<Text>)
    ensures
        ({
            let v = tick_run_start::<E>(grace, identity, queues);
            &&& v.tick.grace == grace
            &&& v.tick.phase is Fetching
            &&& v.part matches PartView::Fetch(fetch)
            &&& fetch.identity == identity
            &&& fetch.queues == queues
            &&& fetch.phase is Connecting
            &&& tick_run_effect(v) == Some(TickEffectView::Redis(EffectView::Connect))
        }),
{
}

/// Whether a tick has come to a job: it waits for a connection to record it, if there is
/// anything to record it under, and else for it to be run.
pub open spec fn takes_up<E>(v: TickRunView<E>, under: Option<(Text, Text)>, work: UnitOfWorkView) -> bool {
    match under {
        Some((identity, tid)) => {
            &&& v.tick.phase == TickPhase::<E>::Publishing(work)
            &&& v.part matches PartView::SetWork(set_work)
            &&& set_work.key == work_key_text(identity)
            &&& set_work.tid == tid
            &&& set_work.job == work.job
            &&& set_work.phase is Connecting
        },
        None => runs(v, work),
    }
}

/// Whether a tick waits for its job to be run.
pub open spec fn runs<E>(v: TickRunView<E>, work: UnitOfWorkView) -> bool {
    &&& v.tick.phase == TickPhase::<E>::Running(work)
    &&& v.part is Nothing
    &&& tick_run_effect(v) == Some(TickEffectView::RunJob)
}

/// Whether a tick has come to clear the record of its job, if there is one, and else to
/// what follows that.
pub open spec fn clears<E>(
    v: TickRunView<E>,
    under: Option<(Text, Text)>,
    work: UnitOfWorkView,
    outcome: Option<Result<(), E>>,
) -> bool {
    match under {
        Some((identity, tid)) => {
            &&& v.tick.phase == TickPhase::Clearing(work, outcome)
            &&& v.part == PartView::<E>::Send(CommandView::Hdel { key: work_key_text(identity), field: tid })
            &&& tick_run_effect(v) == Some(
                TickEffectView::Redis(
                    EffectView::Send(CommandView::Hdel { key: work_key_text(identity), field: tid }),
                ),
            )
        },
        None => settles(v, work, outcome),
    }
}

/// Whether a tick has come to requeue an interrupted job, to drop the claimed copy of one
/// that ended, or, where it has none, to its end.
pub open spec fn settles<E>(v: TickRunView<E>, work: UnitOfWorkView, outcome: Option<Result<(), E>>) -> bool {
    match (outcome, work.reliable) {
        (None, _) => {
            &&& v.tick.phase == TickPhase::<E>::Requeueing(work)
            &&& v.part matches PartView::Requeue(requeue)
            &&& requeue.job == work.job
            &&& requeue.reliable == work.reliable
            &&& requeue.queue_key == queue_key_text(work.job.queue)
            &&& requeue.phase is Connecting
        },
        (Some(result), Some(claim)) => {
            &&& v.tick.phase == TickPhase::Acking(work, result)
            &&& tick_run_effect(v) == Some(
                TickEffectView::Redis(
                    EffectView::Send(
                        CommandView::Lrem { key: claim.inprogress_key, count: -1, value: claim.job_raw },
                    ),
                ),
            )
            &&& v.part == PartView::<E>::Send(
                CommandView::Lrem { key: claim.inprogress_key, count: -1, value: claim.job_raw },
            )
        },
        (Some(result), None) => is_over(v, reported(result)),
    }
}

/// What is reported of a job that ended.
pub open spec fn reported<E>(result: Result<(), E>) -> Result<WorkFetcher, E> {
    match result {
        Ok(_) => Ok(WorkFetcher::Done),
        Err(error) => Err(error),
    }
}

/// Whether a tick is over with this result.
pub open spec fn is_over<E>(v: TickRunView<E>, result: Result<WorkFetcher, E>) -> bool {
    &&& v.tick.phase == TickPhase::Finished(result)
    &&& v.part is Nothing
    &&& tick_run_effect(v) is None
}

/// A tick that fetches waits for what its fetch waits for, and hands on what comes of it.
/// When the fetch comes back, its job, if it has one, is taken up at once; otherwise other
/// tasks are let run; an error ends the tick.
pub proof fn law_tick_follows_its_fetch<E>(
    v: TickRunView<E>,
    fetch: FetchView<E>,
    under: Option<(Text, Text)>,
    registered: Set<Text>,
    event: EventView<E>,
    now: int,
)
    requires
        v.part == PartView::Fetch(fetch),
        v.tick.phase is Fetching,
    ensures
        fetch_effect(fetch) matches Some(effect) ==> tick_run_effect(v) == Some(TickEffectView::Redis(effect)),
        ({
            let (next, after) = tick_run_next(v, under, registered, TickRunEventView::Redis(event), now);
            let (on, recorded) = fetch_next(fetch, registered, event);
            &&& after == recorded
            &&& match on.phase {
                FetchPhase::Finished(Ok(Some(work))) => takes_up(next, under, work),
                FetchPhase::Finished(Ok(None)) => {
                    &&& next.tick.phase is Yielding
                    &&& tick_run_effect(next) == Some(TickEffectView::Yield)
                    &&& is_over(
                        tick_run_next(next, under, after, TickRunEventView::Yielded, now).0,
                        Ok(WorkFetcher::NoWorkFound),
                    )
                },
                FetchPhase::Finished(Err(error)) => is_over(next, Err(error)),
                _ => next.part == PartView::Fetch(on) && next.tick == v.tick,
            }
        }),
{
}

/// A tick that records its job waits for what the recording waits for, and hands on what
/// comes of it, at the time that it is. When the recording is over, be it by an error, the
/// job is run.
pub proof fn law_tick_follows_its_recording<E>(
    v: TickRunView<E>,
    work: UnitOfWorkView,
    set_work: SetWorkView<E>,
    under: Option<(Text, Text)>,
    registered: Set<Text>,
    event: EventView<E>,
    now: int,
)
    requires
        v.part == PartView::SetWork(set_work),
        v.tick.phase == TickPhase::<E>::Publishing(work),
    ensures
        set_work_effect(set_work) matches Some(effect) ==> tick_run_effect(v) == Some(TickEffectView::Redis(effect)),
        ({
            let (next, after) = tick_run_next(v, under, registered, TickRunEventView::Redis(event), now);
            let on = set_work_next(set_work, event, now);
            &&& after == registered
            &&& on.phase is Finished ==> runs(next, work)
            &&& !(on.phase is Finished) ==> next.part == PartView::SetWork(on) && next.tick == v.tick
        }),
{
}

/// A job that runs is cleared when it ends, with its result. When shutdown is signalled it
/// is let run on for the grace of the tick, and is cleared as interrupted if it has not
/// ended then.
pub proof fn law_tick_follows_its_job<E>(
    v: TickRunView<E>,
    work: UnitOfWorkView,
    under: Option<(Text, Text)>,
    registered: Set<Text>,
    result: Result<(), E>,
    now: int,
)
    requires
        v.part is Nothing,
        v.tick.phase == TickPhase::<E>::Running(work),
    ensures
        tick_run_effect(v) == Some(TickEffectView::RunJob),
        ({
            let ended = TickRunEventView::JobEnded(result);
            let lingering = tick_run_next(v, under, registered, TickRunEventView::ShutdownSignalled, now).0;
            &&& clears(tick_run_next(v, under, registered, ended, now).0, under, work, Some(result))
            &&& tick_run_next(v, under, registered, ended, now).1 == registered
            &&& lingering.tick.phase == TickPhase::<E>::Lingering(work)
            &&& lingering.part is Nothing
            &&& tick_run_effect(lingering) == Some(TickEffectView::AwaitJob(v.tick.grace))
            &&& clears(tick_run_next(lingering, under, registered, ended, now).0, under, work, Some(result))
            &&& clears(
                tick_run_next(lingering, under, registered, TickRunEventView::GraceElapsed, now).0,
                under,
                work,
                None,
            )
        }),
{
}

/// Whether or not the record could be cleared, the job is requeued, dropped, or done with.
pub proof fn law_tick_goes_on_from_clearing<E>(
    v: TickRunView<E>,
    work: UnitOfWorkView,
    outcome: Option<Result<(), E>>,
    command: CommandView,
    under: Option<(Text, Text)>,
    registered: Set<Text>,
    event: EventView<E>,
    now: int,
)
    requires
        v.part == PartView::<E>::Send(command),
        v.tick.phase == TickPhase::Clearing(work, outcome),
        event is Reply || event is Failed,
    ensures
        tick_run_effect(v) == Some(TickEffectView::Redis(EffectView::Send(command))),
        settles(tick_run_next(v, under, registered, TickRunEventView::Redis(event), now).0, work, outcome),
        tick_run_next(v, under, registered, TickRunEventView::Redis(event), now).1 == registered,
{
}

/// Whether or not the copy could be dropped, the tick is over and reports the job's result.
pub proof fn law_tick_is_over_when_acked<E>(
    v: TickRunView<E>,
    work: UnitOfWorkView,
    result: Result<(), E>,
    command: CommandView,
    under: Option<(Text, Text)>,
    registered: Set<Text>,
    event: EventView<E>,
    now: int,
)
    requires
        v.part == PartView::<E>::Send(command),
        v.tick.phase == TickPhase::Acking(work, result),
        event is Reply || event is Failed,
    ensures
        tick_run_effect(v) == Some(TickEffectView::Redis(EffectView::Send(command))),
        is_over(
            tick_run_next(v, under, registered, TickRunEventView::Redis(event), now).0,
            reported(result),
        ),
        tick_run_next(v, under, registered, TickRunEventView::Redis(event), now).1 == registered,
{
}

/// A tick that requeues its job waits for what the requeue waits for, and hands on what
/// comes of it. When the requeue is over, be it by an error, the tick is done.
pub proof fn law_tick_follows_its_requeue<E>(
    v: TickRunView<E>,
    work: UnitOfWorkView,
    requeue: RequeueView<E>,
    under: Option<(Text, Text)>,
    registered: Set<Text>,
    event: EventView<E>,
    now: int,
)
    requires
        v.part == PartView::Requeue(requeue),
        v.tick.phase == TickPhase::<E>::Requeueing(work),
    ensures
        requeue_effect(requeue) matches Some(effect) ==> tick_run_effect(v) == Some(TickEffectView::Redis(effect)),
        ({
            let (next, after) = tick_run_next(v, under, registered, TickRunEventView::Redis(event), now);
            let on = requeue_next(requeue, event);
            &&& after == registered
            &&& on.phase is Finished ==> is_over(next, Ok(WorkFetcher::Done))
            &&& !(on.phase is Finished) ==> next.part == PartView::Requeue(on) && next.tick == v.tick
        }),
{
}

/// A tick that works on Redis heeds what comes of that alone; one that does not heeds
/// nothing of it. The time matters to nothing but the record of the job, and is read for
/// it. Nothing changes the grace.
pub proof fn law_tick_run_heeds_answers_only<E>(
    v: TickRunView<E>,
    under: Option<(Text, Text)>,
    registered: Set<Text>,
    event: TickRunEventView<E>,
    now: int,
    later: int,
)
    ensures
        !(v.part is Nothing) && !(event is Redis) ==> tick_run_next(v, under, registered, event, now) == (v, registered),
        v.part is Nothing && event is Redis ==> tick_run_next(v, under, registered, event, now) == (v, registered),
        v.part is Send && event is Redis && !(event->Redis_0 is Reply || event->Redis_0 is Failed) ==> tick_run_next(
            v,
            under,
            registered,
            event,
            now,
        ) == (v, registered),
        !tick_run_reads_clock(v, event) ==> tick_run_next(v, under, registered, event, now) == tick_run_next(
            v,
            under,
            registered,
            event,
            later,
        ),
        tick_run_reads_clock(v, event) <==> {
            &&& v.part is SetWork
            &&& v.part->SetWork_0.phase is Serializing
            &&& event is Redis
            &&& event->Redis_0 is Serialized
        },
        tick_run_next(v, under, registered, event, now).0.tick.grace == v.tick.grace,
        v.part is Nothing && v.tick.phase is Running && (event is Yielded || event is GraceElapsed) ==> tick_run_next(
            v,
            under,
            registered,
            event,
            now,
        ) == (v, registered),
        v.part is Nothing && v.tick.phase is Lingering && (event is Yielded || event is ShutdownSignalled)
            ==> tick_run_next(v, under, registered, event, now) == (v, registered),
        v.part is Nothing && v.tick.phase is Yielding && !(event is Yielded) ==> tick_run_next(
            v,
            under,
            registered,
            event,
            now,
        ) == (v, registered),
        v.part is Nothing && v.tick.phase is Finished ==> tick_run_next(v, under, registered, event, now) == (
            v,
            registered,
        ),
{
}

} // verus!
