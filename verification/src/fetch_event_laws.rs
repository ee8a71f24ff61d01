//! What holds of a fetch whatever others do to Redis between its effects.

use vstd::prelude::*;

use crate::command::{CommandView, EffectView, EventView, ReplyView};
use crate::command_laws::fits;
use crate::fetch::{fetch_effect, fetch_next, fetch_start, FetchPhase, FetchView};
use crate::job::{JobView, UnitOfWorkView};
use crate::keys::{inprogress_text, Text};

verus! {

/// The states of a fetch in which it looks at one of its queues, or is past them. A
/// reliable fetch has somebody to claim jobs for.
pub open spec fn within_bounds<E>(v: FetchView<E>) -> bool {
    match v.phase {
        FetchPhase::Popping => v.identity is None,
        FetchPhase::Sweeping(i) => v.identity is Some && 0 <= i < v.queues.len(),
        FetchPhase::Blocking => v.identity is Some && 0 < v.queues.len(),
        _ => true,
    }
}

/// A fetch stays within bounds from its start on, for the identity and the queues that it
/// was begun with, whatever happens.
pub proof fn law_fetch_stays_within_bounds<E>(
    identity: Option<Text>,
    queues: Seq<Text>,
    v: FetchView<E>,
    registered: Set<Text>,
    event: EventView<E>,
)
    requires
        within_bounds(v),
    ensures
        within_bounds(fetch_next(v, registered, event).0),
        fetch_next(v, registered, event).0.identity == v.identity,
        fetch_next(v, registered, event).0.queues == v.queues,
        within_bounds(fetch_start::<E>(identity, queues)),
        fetch_start::<E>(identity, queues).identity == identity,
        fetch_start::<E>(identity, queues).queues == queues,
        fetch_start::<E>(identity, queues).phase is Connecting,
{
}

/// A fetch first takes a connection. Then a plain one waits up to two seconds for a job of
/// any of its queues, and a reliable one tries its queues one after the other, from the
/// first. Without any queue a reliable fetch is over.
pub proof fn law_fetch_connects_first<E>(v: FetchView<E>, registered: Set<Text>)
    requires
        v.phase is Connecting,
    ensures
        fetch_effect(v) == Some(EffectView::Connect),
        ({
            let (next, after) = fetch_next(v, registered, EventView::Connected);
            &&& after == registered
            &&& v.identity is None ==> fetch_effect(next) == Some(
                EffectView::Send(CommandView::Brpop { keys: v.queues, timeout: 2 }),
            )
            &&& v.identity is Some && v.queues.len() > 0 ==> {
                &&& next.phase == FetchPhase::<E>::Sweeping(0)
                &&& fetch_effect(next) == Some(
                    EffectView::Send(
                        CommandView::Rpoplpush {
                            source: v.queues[0],
                            destination: inprogress_text(v.queues[0], v.identity->Some_0),
                        },
                    ),
                )
            }
            &&& v.identity is Some && v.queues.len() == 0 ==> next.phase == FetchPhase::<E>::Finished(Ok(None))
        }),
{
}

/// A reliable fetch tries every queue in turn, each for the list of its own process, and
/// only then waits, up to two seconds, at the first one. It comes back with nothing only
/// if nothing comes there either.
pub proof fn law_sweep_tries_every_queue<E>(v: FetchView<E>, registered: Set<Text>, identity: Text, i: int)
    requires
        v.identity == Some(identity),
        0 <= i < v.queues.len(),
        v.phase == FetchPhase::<E>::Sweeping(i),
    ensures
        fetch_effect(v) == Some(
            EffectView::Send(
                CommandView::Rpoplpush {
                    source: v.queues[i],
                    destination: inprogress_text(v.queues[i], identity),
                },
            ),
        ),
        ({
            let (next, after) = fetch_next(v, registered, EventView::Reply(ReplyView::Moved(None)));
            &&& after == registered
            &&& i + 1 < v.queues.len() ==> next.phase == FetchPhase::<E>::Sweeping(i + 1)
            &&& i + 1 == v.queues.len() ==> {
                let (given_up, last) = fetch_next(next, after, EventView::Reply(ReplyView::Moved(None)));
                &&& next.phase is Blocking
                &&& fetch_effect(next) == Some(
                    EffectView::Send(
                        CommandView::Brpoplpush {
                            source: v.queues[0],
                            destination: inprogress_text(v.queues[0], identity),
                            timeout: 2,
                        },
                    ),
                )
                &&& given_up.phase == FetchPhase::<E>::Finished(Ok(None))
                &&& last == registered
            }
        }),
{
}

/// Where the command of a fetch answers with a job, the fetch goes on with that job: with
/// the text that came, the queue that the command took it from, and the list that it moved
/// it to. That holds for every set of lists that the worker has recorded; it only decides
/// whether the list is looked up or recorded at once.
pub proof fn law_claimed_job_is_gone_on_with<E>(
    v: FetchView<E>,
    registered: Set<Text>,
    source: Text,
    destination: Text,
    job_raw: Text,
)
    requires
        within_bounds(v),
        ({
            ||| fetch_effect(v) == Some(EffectView::Send(CommandView::Rpoplpush { source, destination }))
            ||| exists|timeout: usize|
                fetch_effect(v) == Some(
                    EffectView::Send(#[trigger] waiting_claim(source, destination, timeout)),
                )
        }),
    ensures
        ({
            let (next, after) = fetch_next(v, registered, EventView::Reply(ReplyView::Moved(Some(job_raw))));
            &&& next.phase == if registered.contains(destination) {
                FetchPhase::<E>::Confirming { queue: source, inprogress: destination, job_raw }
            } else {
                FetchPhase::<E>::Registering { queue: source, inprogress: destination, job_raw }
            }
            &&& after == registered.insert(destination)
            &&& v.queues.contains(source)
            &&& destination == inprogress_text(source, v.identity->Some_0)
        }),
{
    match v.phase {
        FetchPhase::Sweeping(i) => {
            assert(v.queues.contains(v.queues[i]));
        },
        _ => {
            assert(v.queues.contains(v.queues[0]));
        },
    }
    if registered.contains(destination) {
        assert(registered =~= registered.insert(destination));
    }
}

/// A claim that waits for a job.
pub open spec fn waiting_claim(source: Text, destination: Text, timeout: usize) -> CommandView {
    CommandView::Brpoplpush { source, destination, timeout }
}

/// A plain fetch that popped a job goes on with its text and the queue that it came from.
/// It comes back with nothing only if nothing was popped.
pub proof fn law_popped_job_is_gone_on_with<E>(v: FetchView<E>, registered: Set<Text>, queue: Text, job_raw: Text)
    requires
        v.phase is Popping,
    ensures
        fetch_effect(v) == Some(EffectView::Send(CommandView::Brpop { keys: v.queues, timeout: 2 })),
        fetch_next(v, registered, EventView::Reply(ReplyView::Popped(Some((queue, job_raw))))) == (
            FetchView::<E> { phase: FetchPhase::Parsing { queue, claim: None, job_raw }, ..v },
            registered,
        ),
        fetch_next(v, registered, EventView::Reply(ReplyView::Popped(None))) == (
            FetchView::<E> { phase: FetchPhase::Finished(Ok(None)), ..v },
            registered,
        ),
{
}

/// The list of a claimed job is looked up, and recorded if it is not listed, in the one
/// working set. Whatever comes of that, the job is read.
pub proof fn law_claimed_job_is_read_in_any_case<E>(
    v: FetchView<E>,
    registered: Set<Text>,
    queue: Text,
    inprogress: Text,
    job_raw: Text,
    error: E,
)
    requires
        ({
            ||| v.phase == FetchPhase::<E>::Confirming { queue, inprogress, job_raw }
            ||| v.phase == FetchPhase::<E>::Registering { queue, inprogress, job_raw }
        }),
    ensures
        ({
            let read = FetchPhase::<E>::Parsing { queue, claim: Some(inprogress), job_raw };
            let working_set = "reliable_fetch:working"@;
            &&& v.phase is Confirming ==> {
                &&& fetch_effect(v) == Some(
                    EffectView::Send(CommandView::Sismember { key: working_set, member: inprogress }),
                )
                &&& fetch_next(v, registered, EventView::Reply(ReplyView::Flag(true))).0.phase == read
                &&& fetch_next(v, registered, EventView::Reply(ReplyView::Flag(false))).0.phase == FetchPhase::<
                    E,
                >::Registering { queue, inprogress, job_raw }
            }
            &&& v.phase is Registering ==> {
                &&& fetch_effect(v) == Some(
                    EffectView::Send(CommandView::Sadd { key: working_set, member: inprogress }),
                )
                &&& fetch_next(v, registered, EventView::Reply(ReplyView::Done)).0.phase == read
            }
            &&& fetch_next(v, registered, EventView::Failed(error)).0.phase == read
        }),
{
}

/// A job is read from the text that was taken, and handed over with its queue and, if it
/// was claimed, with its list and that text.
pub proof fn law_read_job_is_handed_over<E>(
    v: FetchView<E>,
    registered: Set<Text>,
    queue: Text,
    claim: Option<Text>,
    job_raw: Text,
    job: JobView,
)
    requires
        v.phase == (FetchPhase::<E>::Parsing { queue, claim, job_raw }),
    ensures
        fetch_effect(v) == Some(EffectView::Parse(job_raw)),
        ({
            let (next, after) = fetch_next(v, registered, EventView::Parsed(job));
            &&& after == registered
            &&& next.phase matches FetchPhase::Finished(Ok(Some(work)))
            &&& work.queue == queue
            &&& work.job == job
            &&& work.reliable is Some <==> claim is Some
            &&& claim matches Some(list) ==> {
                &&& work.reliable->Some_0.inprogress_key == list
                &&& work.reliable->Some_0.job_raw == job_raw
            }
        }),
{
}

/// A fetch ends with the first error, but for one of looking up or recording a list. Once
/// it is over it waits for nothing, and while it is not it waits for something. Events that
/// do not answer what it waits for change nothing.
pub proof fn law_fetch_heeds_answers_only<E>(v: FetchView<E>, registered: Set<Text>, event: EventView<E>, error: E)
    ensures
        fetch_effect(v) is None <==> v.phase is Finished,
        fetch_effect(v) is None || !fits(fetch_effect(v)->Some_0, event) ==> fetch_next(v, registered, event) == (
            v,
            registered,
        ),
        !(v.phase is Confirming || v.phase is Registering || v.phase is Finished) ==> fetch_next(
            v,
            registered,
            EventView::Failed(error),
        ) == (FetchView::<E> { phase: FetchPhase::Finished(Err(error)), ..v }, registered),
{
}

/// A course of a fetch: what it went through, the lists recorded before each event, and
/// the events, whatever they are.
pub open spec fn fetch_course<E>(
    course: Seq<FetchView<E>>,
    registered: Seq<Set<Text>>,
    events: Seq<EventView<E>>,
) -> bool {
    &&& course.len() == events.len() + 1
    &&& registered.len() == events.len()
    &&& forall|i: int|
        #![trigger events[i]]
        0 <= i < events.len() ==> course[i + 1] == fetch_next(course[i], registered[i], events[i]).0
}

/// A fetch that has the job with this text, from this queue, claimed into this list or not.
spec fn has_job<E>(v: FetchView<E>, queue: Text, claim: Option<Text>, job_raw: Text) -> bool {
    match v.phase {
        FetchPhase::Confirming { queue: q, inprogress, job_raw: raw } => {
            q == queue && Some(inprogress) == claim && raw == job_raw
        },
        FetchPhase::Registering { queue: q, inprogress, job_raw: raw } => {
            q == queue && Some(inprogress) == claim && raw == job_raw
        },
        FetchPhase::Parsing { queue: q, claim: list, job_raw: raw } => q == queue && list == claim && raw == job_raw,
        _ => false,
    }
}

/// Whether a unit of work is the job with this text, from this queue, claimed into this
/// list or not.
pub open spec fn is_work_of(work: UnitOfWorkView, queue: Text, claim: Option<Text>, job_raw: Text) -> bool {
    &&& work.queue == queue
    &&& match claim {
        Some(list) => work.reliable matches Some(c) && c.inprogress_key == list && c.job_raw == job_raw,
        None => work.reliable is None,
    }
}

proof fn lemma_job_is_kept<E>(
    course: Seq<FetchView<E>>,
    registered: Seq<Set<Text>>,
    events: Seq<EventView<E>>,
    k: int,
    n: int,
    queue: Text,
    claim: Option<Text>,
    job_raw: Text,
)
    requires
        fetch_course(course, registered, events),
        0 <= k <= n < course.len(),
        has_job(course[k], queue, claim, job_raw),
    ensures
        ({
            ||| has_job(course[n], queue, claim, job_raw)
            ||| course[n].phase matches FetchPhase::Finished(Ok(Some(work))) && is_work_of(work, queue, claim, job_raw)
            ||| course[n].phase matches FetchPhase::Finished(Err(error)) && exists|j: int|
                k <= j < n && (#[trigger] course[j]).phase is Parsing && events[j] == EventView::<E>::Failed(error)
        }),
    decreases n - k,
{
    if k < n {
        lemma_job_is_kept(course, registered, events, k, n - 1, queue, claim, job_raw);
        assert(course[n] == fetch_next(course[n - 1], registered[n - 1], events[n - 1]).0);
        if has_job(course[n - 1], queue, claim, job_raw) && course[n].phase is Finished {
            assert(course[n - 1].phase is Parsing);
        }
    }
}

/// Whatever happens between its effects: where a claim of a fetch has answered with a job,
/// the fetch never comes back with nothing. It comes back with that job, claimed from the
/// source of the command into its destination, unless the text could not be read.
pub proof fn law_claimed_job_is_handed_over<E>(
    course: Seq<FetchView<E>>,
    registered: Seq<Set<Text>>,
    events: Seq<EventView<E>>,
    k: int,
    source: Text,
    destination: Text,
    job_raw: Text,
)
    requires
        fetch_course(course, registered, events),
        0 <= k < events.len(),
        within_bounds(course[k]),
        ({
            ||| fetch_effect(course[k]) == Some(EffectView::Send(CommandView::Rpoplpush { source, destination }))
            ||| exists|timeout: usize|
                fetch_effect(course[k]) == Some(
                    EffectView::Send(#[trigger] waiting_claim(source, destination, timeout)),
                )
        }),
        events[k] == EventView::<E>::Reply(ReplyView::Moved(Some(job_raw))),
        course.last().phase is Finished,
    ensures
        match course.last().phase {
            FetchPhase::Finished(Ok(Some(work))) => is_work_of(work, source, Some(destination), job_raw),
            FetchPhase::Finished(Err(error)) => exists|j: int|
                k < j < events.len() && (#[trigger] course[j]).phase is Parsing && events[j] == EventView::<E>::Failed(
                    error,
                ),
            _ => false,
        },
{
    law_claimed_job_is_gone_on_with(course[k], registered[k], source, destination, job_raw);
    assert(course[k + 1] == fetch_next(course[k], registered[k], events[k]).0);
    lemma_job_is_kept(course, registered, events, k + 1, course.len() - 1, source, Some(destination), job_raw);
}

/// Whatever happens between its effects: where a plain fetch has popped a job, it comes
/// back with that job, unless the text could not be read.
pub proof fn law_popped_job_is_handed_over<E>(
    course: Seq<FetchView<E>>,
    registered: Seq<Set<Text>>,
    events: Seq<EventView<E>>,
    k: int,
    queue: Text,
    job_raw: Text,
)
    requires
        fetch_course(course, registered, events),
        0 <= k < events.len(),
        course[k].phase is Popping,
        events[k] == EventView::<E>::Reply(ReplyView::Popped(Some((queue, job_raw)))),
        course.last().phase is Finished,
    ensures
        match course.last().phase {
            FetchPhase::Finished(Ok(Some(work))) => is_work_of(work, queue, None, job_raw),
            FetchPhase::Finished(Err(error)) => exists|j: int|
                k < j < events.len() && (#[trigger] course[j]).phase is Parsing && events[j] == EventView::<E>::Failed(
                    error,
                ),
            _ => false,
        },
{
    assert(course[k + 1] == fetch_next(course[k], registered[k], events[k]).0);
    lemma_job_is_kept(course, registered, events, k + 1, course.len() - 1, queue, None, job_raw);
}

/// The queues from which a fetch may take a job by the command that it waits for.
pub open spec fn sources<E>(v: FetchView<E>) -> Seq<Text> {
    match fetch_effect(v) {
        Some(EffectView::Send(CommandView::Brpop { keys, timeout })) => keys,
        Some(EffectView::Send(CommandView::Rpoplpush { source, destination })) => seq![source],
        Some(EffectView::Send(CommandView::Brpoplpush { source, destination, timeout })) => seq![source],
        _ => Seq::empty(),
    }
}

/// A fetch takes jobs from no other queue than those that it was begun with.
pub proof fn law_fetch_has_no_other_source<E>(v: FetchView<E>, source: Text)
    requires
        within_bounds(v),
        sources(v).contains(source),
    ensures
        v.queues.contains(source),
{
    match v.phase {
        FetchPhase::Sweeping(i) => {
            assert(v.queues.contains(v.queues[i]));
        },
        FetchPhase::Blocking => {
            assert(v.queues.contains(v.queues[0]));
        },
        _ => {},
    }
}

} // verus!
