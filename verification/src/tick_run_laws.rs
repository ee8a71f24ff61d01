//! What a tick does to Redis as a whole.

use core::time::Duration;
use vstd::prelude::*;

use crate::command::{CommandView, EffectView, ReplyView};
use crate::fetch::{fetch_effect, fetch_next, fetched_work, FetchPhase};
use crate::fetch_laws::{
    after_fetch, between, claims_only, fetch_step, lemma_fetch_step, taken_from, waits_for_nothing,
    FetchWorld, Taken,
};
use crate::job::{JobView, UnitOfWorkView};
use crate::keys::{work_key_text, Text};
use crate::store::{answers, executes, first_nonempty, keeps_jobs, writes, Store};
use crate::tick::{tick_result, tick_work, TickPhase, TickView, WorkFetcher};
use crate::tick_laws::steps_left;
use crate::tick_run::{
    part_of, tick_run_at, tick_run_effect, tick_run_next, tick_run_start, PartView, TickEffectView,
    TickRunEventView, TickRunView,
};
use crate::work::{ack_command, requeue_effect, requeue_next, set_work_next};
use crate::work_laws::{
    gained_record, lemma_requeue_step, lemma_set_work_step, put_back, recording, records, requeue_step, requeueing,
    set_work_step, with_record,
};

verus! {

/// The states of a tick that fetches reliably.
pub open spec fn reliable_run<E>(v: TickRunView<E>) -> bool {
    &&& tick_work(v.tick) matches Some(work) ==> work.reliable is Some
    &&& match v.part {
        PartView::Fetch(fetch) => v.tick.phase is Fetching && claims_only(fetch),
        PartView::SetWork(_) => v.tick.phase is Publishing,
        PartView::Send(command) => match v.tick.phase {
            TickPhase::Clearing(..) => command is Hdel,
            TickPhase::Acking(work, _) => command == ack_command(work.reliable->Some_0),
            _ => false,
        },
        PartView::Requeue(requeue) => {
            &&& v.tick.phase is Requeueing
            &&& requeue.reliable is Some
            &&& !(requeue.phase is Serializing || requeue.phase is Pushing)
        },
        PartView::Nothing => match v.tick.phase {
            TickPhase::Yielding => true,
            TickPhase::Running(_) => true,
            TickPhase::Lingering(_) => true,
            TickPhase::Finished(_) => true,
            _ => false,
        },
    }
}

/// With reliable fetch no job leaves Redis by a tick before it has ended. Whatever
/// happens to the tick and to Redis meanwhile, every command keeps all jobs, but for the
/// one that drops the copy of the job that the tick has run to its end.
pub proof fn law_reliable_tick_keeps_jobs_until_they_end<E>(
    v: TickRunView<E>,
    under: Option<(Text, Text)>,
    registered: Set<Text>,
    event: TickRunEventView<E>,
    now: int,
)
    requires
        reliable_run(v),
    ensures
        reliable_run(tick_run_next(v, under, registered, event, now).0),
        tick_run_effect(v) matches Some(TickEffectView::Redis(EffectView::Send(command))) ==> {
            ||| keeps_jobs(command)
            ||| v.tick.phase matches TickPhase::Acking(work, result) && command == ack_command(
                work.reliable->Some_0,
            )
        },
{
}

/// A tick of a processor that claims jobs is reliable from its start.
pub proof fn law_reliable_tick_starts_so<E>(grace: Duration, identity: Text, queues: Seq<Text>)
    ensures
        reliable_run(tick_run_start::<E>(grace, Some(identity), queues)),
{
}

/// The states of a tick in which what is recorded or requeued is the job at hand.
pub open spec fn works_on_its_job<E>(v: TickRunView<E>) -> bool {
    match v.part {
        PartView::Fetch(_) => v.tick.phase is Fetching,
        PartView::SetWork(set_work) => v.tick.phase matches TickPhase::Publishing(work) && set_work.job == work.job,
        PartView::Requeue(requeue) => v.tick.phase matches TickPhase::Requeueing(work) && requeue.job == work.job,
        PartView::Send(_) => v.tick.phase is Clearing || v.tick.phase is Acking,
        PartView::Nothing => true,
    }
}

/// A tick has no other job written as text than the one at hand, whatever happens to it.
pub proof fn law_tick_serializes_the_job_at_hand<E>(
    v: TickRunView<E>,
    under: Option<(Text, Text)>,
    registered: Set<Text>,
    event: TickRunEventView<E>,
    now: int,
)
    requires
        works_on_its_job(v),
    ensures
        works_on_its_job(tick_run_next(v, under, registered, event, now).0),
        tick_run_effect(v) matches Some(TickEffectView::Redis(EffectView::Serialize(job))) ==> {
            tick_work(v.tick) matches Some(work) && work.job == job
        },
{
}

/// A tick works on its job from its start.
pub proof fn law_tick_starts_with_its_job<E>(grace: Duration, identity: Option<Text>, queues: Seq<Text>)
    ensures
        works_on_its_job(tick_run_start::<E>(grace, identity, queues)),
{
}

/// A tick, the lists that the worker has recorded, and Redis.
pub struct TickWorld<E> {
    pub run: TickRunView<E>,
    pub registered: Set<Text>,
    pub store: Store,
}

/// Whether `event` answers `effect`, which leaves Redis with the content `post`. A job
/// may do to Redis what it likes; `payload` is the text as which it is written.
pub open spec fn tick_answers<E>(
    payload: Text,
    pre: Store,
    effect: TickEffectView,
    post: Store,
    event: TickRunEventView<E>,
) -> bool {
    match effect {
        TickEffectView::Redis(effect) => event matches TickRunEventView::Redis(e) && answers(pre, effect, post, e)
            && writes(payload, effect, e),
        TickEffectView::Yield => post == pre && event is Yielded,
        TickEffectView::RunJob => event is JobEnded || event is ShutdownSignalled,
        TickEffectView::AwaitJob(_) => event is JobEnded || event is GraceElapsed,
    }
}

/// One effect of a tick, performed and answered.
pub open spec fn tick_run_step<E>(under: Option<(Text, Text)>, payload: Text, a: TickWorld<E>, b: TickWorld<E>) -> bool {
    &&& tick_run_effect(a.run) is Some
    &&& exists|event: TickRunEventView<E>, now: int|
        tick_answers(payload, a.store, tick_run_effect(a.run)->Some_0, b.store, event) && (b.run, b.registered)
            == #[trigger] tick_run_next(a.run, under, a.registered, event, now)
}

/// A course of a tick on a Redis that nobody else uses meanwhile, but for the job.
pub open spec fn tick_run_trace<E>(under: Option<(Text, Text)>, payload: Text, trace: Seq<TickWorld<E>>) -> bool {
    forall|i: int| #![trigger trace[i]] 0 < i < trace.len() ==> tick_run_step(under, payload, trace[i - 1], trace[i])
}

/// Whether `work` is what a fetch makes of the job that it took.
pub open spec fn made_of(work: UnitOfWorkView, taken: Option<Taken>) -> bool {
    taken matches Some(t) && exists|job: JobView|
        work == #[trigger] fetched_work(t.queue, t.claim, t.job_raw, job)
}

/// Whether one store is another with a record of the job of the given queue, written as
/// `payload`, if it is recorded at all.
pub open spec fn recorded_in(
    under: Option<(Text, Text)>,
    queue: Text,
    payload: Text,
    before: Store,
    after: Store,
) -> bool {
    match under {
        Some((identity, tid)) => {
            let key = work_key_text(identity);
            exists|record: Text|
                #[trigger] records(record, queue, payload) && after == before.with_hash(
                    key,
                    before.hash(key).insert(tid, record),
                )
        },
        None => after == before,
    }
}

/// The store without the record of the job, if it was recorded at all.
pub open spec fn cleared(under: Option<(Text, Text)>, store: Store) -> Store {
    match under {
        Some((identity, tid)) => {
            let key = work_key_text(identity);
            store.with_hash(key, store.hash(key).remove(tid))
        },
        None => store,
    }
}

/// The fetch that a tick begins with, and its surroundings.
pub open spec fn fetch_of<E>(w: TickWorld<E>) -> FetchWorld<E> {
    FetchWorld { fetch: w.run.part->Fetch_0, registered: w.registered, store: w.store }
}

/// What the fetch of a tick takes.
pub open spec fn taken_by<E>(start: TickWorld<E>) -> Option<Taken> {
    taken_from(start.store, fetch_of(start).fetch.identity, fetch_of(start).fetch.queues)
}

/// Whether the fetch of a tick is refused.
pub open spec fn refused_by_redis<E>(start: TickWorld<E>) -> bool {
    waits_for_nothing(fetch_of(start).fetch.identity, fetch_of(start).fetch.queues)
}

/// What the fetch of a tick leaves behind.
pub open spec fn left_by_fetch<E>(start: TickWorld<E>) -> (Store, Set<Text>) {
    after_fetch(start.store, start.registered, taken_by(start))
}

/// A tick that begins.
pub open spec fn begins<E>(w: TickWorld<E>) -> bool {
    exists|grace: Duration, identity: Option<Text>, queues: Seq<Text>|
        w.run == #[trigger] tick_run_start::<E>(grace, identity, queues)
}

/// The worlds that a tick goes through from `start` on.
spec fn on_its_way<E>(under: Option<(Text, Text)>, payload: Text, start: TickWorld<E>, w: TickWorld<E>) -> bool {
    let taken = taken_by(start);
    let fetched = left_by_fetch(start);
    match (w.run.tick.phase, w.run.part) {
        (TickPhase::Fetching, PartView::Fetch(fetch)) => {
            &&& !(fetch.phase is Finished)
            &&& between(fetch_of(start), fetch_of(w))
        },
        (TickPhase::Yielding, PartView::Nothing) => {
            &&& taken is None
            &&& !refused_by_redis(start)
            &&& w.store == start.store
            &&& w.registered == fetched.1
        },
        (TickPhase::Publishing(work), PartView::SetWork(set_work)) => {
            &&& made_of(work, taken)
            &&& w.registered == fetched.1
            &&& under is Some
            &&& !(set_work.phase is Finished)
            &&& recording(
                payload,
                (part_of(under, w.run.tick)->SetWork_0, fetched.0),
                (set_work, w.store),
            )
        },
        (TickPhase::Running(work), PartView::Nothing) => {
            &&& made_of(work, taken)
            &&& w.registered == fetched.1
            &&& recorded_in(under, work.job.queue, payload, fetched.0, w.store)
        },
        (TickPhase::Lingering(work), PartView::Nothing) => made_of(work, taken) && w.registered == fetched.1,
        (TickPhase::Clearing(work, _), PartView::Send(_)) => made_of(work, taken) && w.registered == fetched.1,
        (TickPhase::Requeueing(work), PartView::Requeue(_)) => made_of(work, taken) && w.registered == fetched.1,
        (TickPhase::Acking(work, _), PartView::Send(_)) => made_of(work, taken) && w.registered == fetched.1,
        (TickPhase::Finished(result), PartView::Nothing) => {
            &&& w.registered == fetched.1
            &&& taken is None && !refused_by_redis(start) <==> result == Ok::<WorkFetcher, E>(WorkFetcher::NoWorkFound)
            &&& refused_by_redis(start) ==> taken is None && result is Err
            &&& taken is None ==> w.store == start.store
        },
        _ => false,
    }
}

proof fn lemma_on_its_way<E>(
    under: Option<(Text, Text)>,
    payload: Text,
    start: TickWorld<E>,
    a: TickWorld<E>,
    b: TickWorld<E>,
)
    requires
        on_its_way(under, payload, start, a),
        tick_run_step(under, payload, a, b),
    ensures
        on_its_way(under, payload, start, b),
        a.run.tick.phase is Fetching && b.run.tick.phase is Finished ==> b.store == left_by_fetch(start).0,
{
    let (event, now) = choose|event: TickRunEventView<E>, now: int|
        tick_answers(payload, a.store, tick_run_effect(a.run)->Some_0, b.store, event) && (b.run, b.registered)
            == #[trigger] tick_run_next(a.run, under, a.registered, event, now);
    assert(refused_by_redis(start) ==> taken_by(start) is None) by {
        let queues = fetch_of(start).fetch.queues;
        assert(queues.len() == 0 ==> first_nonempty(start.store, queues) is None);
    }
    match (a.run.tick.phase, a.run.part) {
        (TickPhase::Fetching, PartView::Fetch(fetch)) => {
            let e = event->Redis_0;
            let step = fetch_next(fetch, a.registered, e);
            let next = FetchWorld { fetch: step.0, registered: step.1, store: b.store };
            let before = fetch_of(a);
            assert(answers(before.store, fetch_effect(before.fetch)->Some_0, next.store, e));
            assert((next.fetch, next.registered) == fetch_next(before.fetch, before.registered, e));
            assert(fetch_step(before, next));
            lemma_fetch_step(fetch_of(start), before, next);
            if let FetchPhase::Finished(Ok(Some(work))) = next.fetch.phase {
                let t = taken_by(start)->Some_0;
                let job = choose|job: JobView|
                    next.fetch.phase == FetchPhase::<E>::Finished(
                        Ok(Some(#[trigger] fetched_work(t.queue, t.claim, t.job_raw, job))),
                    );
                assert(work == fetched_work(t.queue, t.claim, t.job_raw, job));
                assert(made_of(work, taken_by(start)));
            }
        },
        (TickPhase::Publishing(work), PartView::SetWork(set_work)) => {
            let e = event->Redis_0;
            let next = (set_work_next(set_work, e, now), b.store);
            assert(set_work_step(payload, (set_work, a.store), next));
            let first = (part_of(under, a.run.tick)->SetWork_0, left_by_fetch(start).0);
            lemma_set_work_step(payload, first, (set_work, a.store), next);
            if next.0.phase is Finished {
                assert(gained_record(payload, first.1, next.0, next.1));
                let record = choose|record: Text|
                    #[trigger] records(record, next.0.job.queue, payload) && next.1 == with_record(first.1, next.0, record);
                assert(records(record, work.job.queue, payload));
                assert(recorded_in(under, work.job.queue, payload, first.1, b.store));
            }
        },
        _ => {},
    }
}

proof fn lemma_trace<E>(under: Option<(Text, Text)>, payload: Text, trace: Seq<TickWorld<E>>, i: int)
    requires
        tick_run_trace(under, payload, trace),
        0 <= i < trace.len(),
        begins(trace[0]),
    ensures
        on_its_way(under, payload, trace[0], trace[i]),
    decreases i,
{
    if i > 0 {
        lemma_trace(under, payload, trace, i - 1);
        lemma_on_its_way(under, payload, trace[0], trace[i - 1], trace[i]);
    }
}

/// When a tick runs a job, it is the next one of the queues; nothing has changed in
/// Redis but what the fetch does, and that the job is recorded as at hand.
pub proof fn law_tick_runs_the_next_job<E>(
    under: Option<(Text, Text)>,
    payload: Text,
    trace: Seq<TickWorld<E>>,
    i: int,
    work: UnitOfWorkView,
)
    requires
        tick_run_trace(under, payload, trace),
        begins(trace[0]),
        0 <= i < trace.len(),
        trace[i].run.tick.phase == TickPhase::<E>::Running(work),
    ensures
        made_of(work, taken_by(trace[0])),
        trace[i].registered == left_by_fetch(trace[0]).1,
        recorded_in(under, work.job.queue, payload, left_by_fetch(trace[0]).0, trace[i].store),
{
    lemma_trace(under, payload, trace, i);
}

/// A tick that comes to its end found no work if and only if all queues were empty, and
/// has then changed nothing. Only a plain fetch without any queue is refused, and ends
/// the tick with an error.
pub proof fn law_tick_finds_work_if_there_is_any<E>(
    under: Option<(Text, Text)>,
    payload: Text,
    trace: Seq<TickWorld<E>>,
)
    requires
        tick_run_trace(under, payload, trace),
        trace.len() > 0,
        begins(trace[0]),
        trace.last().run.tick.phase is Finished,
    ensures
        trace.last().run.tick.phase == TickPhase::<E>::Finished(Ok(WorkFetcher::NoWorkFound)) <==> taken_by(
            trace[0],
        ) is None && !refused_by_redis(trace[0]),
        refused_by_redis(trace[0]) ==> taken_by(trace[0]) is None && trace.last().run.tick.phase->Finished_0 is Err,
        taken_by(trace[0]) is None ==> trace.last().store == trace[0].store && trace.last().registered
            == trace[0].registered,
{
    lemma_trace(under, payload, trace, trace.len() - 1);
}

/// A tick that ends with its fetch could not read the job, unless its fetch was refused;
/// a claimed job stays in the list of its process.
pub proof fn law_unreadable_job_stays_claimed<E>(
    under: Option<(Text, Text)>,
    payload: Text,
    trace: Seq<TickWorld<E>>,
    i: int,
)
    requires
        tick_run_trace(under, payload, trace),
        begins(trace[0]),
        0 < i < trace.len(),
        trace[i - 1].run.tick.phase is Fetching,
        trace[i].run.tick.phase is Finished,
    ensures
        trace[i].run.tick.phase->Finished_0 is Err,
        trace[i].store == left_by_fetch(trace[0]).0,
{
    lemma_trace(under, payload, trace, i - 1);
    lemma_on_its_way(under, payload, trace[0], trace[i - 1], trace[i]);
}

/// What a tick makes of a job that ended with a result, or was interrupted where there
/// is none: `ended` is the store at that moment.
pub open spec fn dealt_with<E>(
    under: Option<(Text, Text)>,
    payload: Text,
    work: UnitOfWorkView,
    outcome: Option<Result<(), E>>,
    ended: Store,
    last: Store,
    report: Result<WorkFetcher, E>,
) -> bool {
    match outcome {
        None => {
            &&& report == Ok::<WorkFetcher, E>(WorkFetcher::Done)
            &&& exists|found: bool| put_back(cleared(under, ended), work, payload, last, found)
        },
        Some(result) => {
            &&& report == tick_result(result)
            &&& match work.reliable {
                Some(claim) => executes(cleared(under, ended), ack_command(claim), last, ReplyView::Done),
                None => last == cleared(under, ended),
            }
        },
    }
}

/// The worlds that a tick goes through once its job has ended or was interrupted.
spec fn after_job<E>(
    under: Option<(Text, Text)>,
    payload: Text,
    work: UnitOfWorkView,
    outcome: Option<Result<(), E>>,
    ended: Store,
    w: TickWorld<E>,
) -> bool {
    match (w.run.tick.phase, w.run.part) {
        (TickPhase::Clearing(w_work, w_outcome), PartView::Send(command)) => {
            &&& w_work == work
            &&& w_outcome == outcome
            &&& under matches Some((identity, tid)) && command == CommandView::Hdel {
                key: work_key_text(identity),
                field: tid,
            }
            &&& w.store == ended
        },
        (TickPhase::Requeueing(w_work), PartView::Requeue(requeue)) => {
            &&& w_work == work
            &&& outcome is None
            &&& !(requeue.phase is Finished)
            &&& requeueing(work, payload, cleared(under, ended), (requeue, w.store))
        },
        (TickPhase::Acking(w_work, result), PartView::Send(command)) => {
            &&& w_work == work
            &&& outcome == Some(result)
            &&& work.reliable matches Some(claim) && command == ack_command(claim)
            &&& w.store == cleared(under, ended)
        },
        (TickPhase::Finished(report), PartView::Nothing) => dealt_with(under, payload, work, outcome, ended, w.store, report),
        _ => false,
    }
}

proof fn lemma_after_job<E>(
    under: Option<(Text, Text)>,
    payload: Text,
    work: UnitOfWorkView,
    outcome: Option<Result<(), E>>,
    ended: Store,
    a: TickWorld<E>,
    b: TickWorld<E>,
)
    requires
        after_job(under, payload, work, outcome, ended, a),
        tick_run_step(under, payload, a, b),
    ensures
        after_job(under, payload, work, outcome, ended, b),
        b.registered == a.registered,
{
    let (event, now) = choose|event: TickRunEventView<E>, now: int|
        tick_answers(payload, a.store, tick_run_effect(a.run)->Some_0, b.store, event) && (b.run, b.registered)
            == #[trigger] tick_run_next(a.run, under, a.registered, event, now);
    if let (TickPhase::Requeueing(_), PartView::Requeue(requeue)) = (a.run.tick.phase, a.run.part) {
        let e = event->Redis_0;
        let next = (requeue_next(requeue, e), b.store);
        let before = (requeue, a.store);
        assert(answers(before.1, requeue_effect(before.0)->Some_0, next.1, e));
        assert(requeue_step(payload, before, next));
        lemma_requeue_step(work, payload, cleared(under, ended), before, next);
    }
}

proof fn lemma_after_job_trace<E>(
    under: Option<(Text, Text)>,
    payload: Text,
    trace: Seq<TickWorld<E>>,
    work: UnitOfWorkView,
    outcome: Option<Result<(), E>>,
    i: int,
    j: int,
)
    requires
        tick_run_trace(under, payload, trace),
        0 <= i <= j < trace.len(),
        after_job(under, payload, work, outcome, trace[i].store, trace[i]),
    ensures
        after_job(under, payload, work, outcome, trace[i].store, trace[j]),
        trace[j].registered == trace[i].registered,
    decreases j - i,
{
    if i < j {
        lemma_after_job_trace(under, payload, trace, work, outcome, i, j - 1);
        lemma_after_job(under, payload, work, outcome, trace[i].store, trace[j - 1], trace[j]);
    }
}

/// Once the job has ended, or was interrupted, a tick that comes to its end has cleared
/// its record, and has dropped the copy of a claimed job that ended, whatever its result,
/// or put back the job that was interrupted. Nothing else has changed in Redis since. It
/// reports the job's result, and an interrupted job as done.
pub proof fn law_tick_deals_with_the_job_that_it_ran<E>(
    under: Option<(Text, Text)>,
    payload: Text,
    trace: Seq<TickWorld<E>>,
    i: int,
    work: UnitOfWorkView,
    outcome: Option<Result<(), E>>,
)
    requires
        tick_run_trace(under, payload, trace),
        0 < i < trace.len(),
        trace[i].run == tick_run_at(
            under,
            TickView { phase: TickPhase::Clearing(work, outcome), ..trace[i].run.tick },
        ),
        trace.last().run.tick.phase is Finished,
    ensures
        dealt_with(
            under,
            payload,
            work,
            outcome,
            trace[i].store,
            trace.last().store,
            trace.last().run.tick.phase->Finished_0,
        ),
        trace.last().registered == trace[i].registered,
{
    assert(after_job(under, payload, work, outcome, trace[i].store, trace[i]));
    lemma_after_job_trace(under, payload, trace, work, outcome, i, trace.len() - 1);
}

/// A step out of the running of a job, and not into its grace, leads where
/// `law_tick_deals_with_the_job_that_it_ran` starts from.
pub proof fn law_running_ends_with_an_outcome<E>(
    under: Option<(Text, Text)>,
    payload: Text,
    a: TickWorld<E>,
    b: TickWorld<E>,
    work: UnitOfWorkView,
) -> (outcome: Option<Result<(), E>>)
    requires
        tick_run_step(under, payload, a, b),
        a.run.part is Nothing,
        a.run.tick.phase == TickPhase::<E>::Running(work) || a.run.tick.phase == TickPhase::<E>::Lingering(work),
        !(b.run.tick.phase is Lingering),
    ensures
        b.run == tick_run_at(under, TickView { phase: TickPhase::Clearing(work, outcome), ..b.run.tick }),
        a.run.tick.phase is Running ==> outcome is Some,
{
    let (event, now) = choose|event: TickRunEventView<E>, now: int|
        tick_answers(payload, a.store, tick_run_effect(a.run)->Some_0, b.store, event) && (b.run, b.registered)
            == #[trigger] tick_run_next(a.run, under, a.registered, event, now);
    match event {
        TickRunEventView::JobEnded(result) => Some(result),
        _ => None,
    }
}

proof fn lemma_nearer<E>(under: Option<(Text, Text)>, payload: Text, a: TickWorld<E>, b: TickWorld<E>)
    requires
        tick_run_step(under, payload, a, b),
    ensures
        steps_left(b.run.tick) <= steps_left(a.run.tick),
        tick_run_effect(a.run) == Some(TickEffectView::RunJob) && a.run.part is Nothing ==> steps_left(b.run.tick)
            < steps_left(a.run.tick),
{
}

/// A tick asks for its job to be run once at most.
pub proof fn law_tick_runs_its_job_once<E>(
    under: Option<(Text, Text)>,
    payload: Text,
    trace: Seq<TickWorld<E>>,
    i: int,
    j: int,
)
    requires
        tick_run_trace(under, payload, trace),
        begins(trace[0]),
        0 <= i < j < trace.len(),
        tick_run_effect(trace[i].run) == Some(TickEffectView::RunJob),
    ensures
        tick_run_effect(trace[j].run) != Some(TickEffectView::RunJob),
        steps_left(trace[j].run.tick) < steps_left(trace[i].run.tick),
    decreases j,
{
    lemma_trace(under, payload, trace, i);
    lemma_trace(under, payload, trace, j);
    lemma_nearer(under, payload, trace[j - 1], trace[j]);
    if j - 1 > i {
        law_tick_runs_its_job_once(under, payload, trace, i, j - 1);
    }
}

} // verus!
