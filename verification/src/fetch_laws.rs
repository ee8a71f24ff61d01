//! What a fetch does to Redis as a whole.

use vstd::prelude::*;

use crate::command::{CommandView, EffectView, EventView, ReplyView};
use crate::fetch::{fetch_effect, fetch_next, fetch_start, fetched_work, FetchPhase, FetchView};
use crate::job::JobView;
use crate::keys::{inprogress_text, Text, WORKING_SET};
use crate::store::{answers, first_nonempty, keeps_jobs, touches, Store};

verus! {

/// A fetch, the lists that the worker has recorded, and Redis.
pub struct FetchWorld<E> {
    pub fetch: FetchView<E>,
    pub registered: Set<Text>,
    pub store: Store,
}

/// One effect of a fetch, performed and answered.
pub open spec fn fetch_step<E>(a: FetchWorld<E>, b: FetchWorld<E>) -> bool {
    &&& fetch_effect(a.fetch) is Some
    &&& exists|event: EventView<E>|
        #[trigger] answers(a.store, fetch_effect(a.fetch)->Some_0, b.store, event) && (b.fetch, b.registered)
            == fetch_next(a.fetch, a.registered, event)
}

/// A course of a fetch on a Redis that nobody else uses meanwhile.
pub open spec fn fetch_trace<E>(trace: Seq<FetchWorld<E>>) -> bool {
    forall|i: int| #![trigger trace[i]] 0 < i < trace.len() ==> fetch_step(trace[i - 1], trace[i])
}

/// A job that was taken from a queue.
pub struct Taken {
    pub queue: Text,
    /// The list of this process that the job was moved to, if it was claimed.
    pub claim: Option<Text>,
    pub job_raw: Text,
}

/// What a fetch takes: the last job of the first queue that has one.
pub open spec fn taken_from(store: Store, identity: Option<Text>, queues: Seq<Text>) -> Option<Taken> {
    match first_nonempty(store, queues) {
        Some(i) => Some(
            Taken {
                queue: queues[i],
                claim: match identity {
                    Some(id) => Some(inprogress_text(queues[i], id)),
                    None => None,
                },
                job_raw: store.list(queues[i]).last(),
            },
        ),
        None => None,
    }
}

/// What a fetch leaves behind. A claimed job is moved to the list of its process, and
/// the list is recorded, unless it is still listed since the worker has recorded it. Any
/// other job is gone.
pub open spec fn after_fetch(store: Store, registered: Set<Text>, taken: Option<Taken>) -> (Store, Set<Text>) {
    match taken {
        Some(Taken { queue, claim: Some(list), job_raw }) => recorded(store.moved(queue, list), registered, list),
        Some(Taken { queue, claim: None, job_raw }) => (
            store.with_list(queue, store.list(queue).drop_last()),
            registered,
        ),
        None => (store, registered),
    }
}

/// What is left behind once the list is recorded, unless it is still listed since the
/// worker has recorded it.
pub open spec fn recorded(store: Store, registered: Set<Text>, list: Text) -> (Store, Set<Text>) {
    if registered.contains(list) && store.set(WORKING_SET@).contains(list) {
        (store, registered)
    } else {
        (store.with_set(WORKING_SET@, store.set(WORKING_SET@).insert(list)), registered.insert(list))
    }
}

/// Whether a fetch asks Redis to wait for no queues at all, which Redis refuses.
pub open spec fn waits_for_nothing(identity: Option<Text>, queues: Seq<Text>) -> bool {
    identity is None && queues.len() == 0
}

/// Whether a fetch that took `taken`, or was `refused`, may come back with `result`.
pub open spec fn comes_back<E>(refused: bool, taken: Option<Taken>, result: FetchPhase<E>) -> bool {
    match taken {
        Some(t) => {
            ||| result matches FetchPhase::Finished(Err(_))
            ||| exists|job: JobView|
                result == FetchPhase::<E>::Finished(
                    Ok(Some(#[trigger] fetched_work(t.queue, t.claim, t.job_raw, job))),
                )
        },
        None => if refused {
            result matches FetchPhase::Finished(Err(_))
        } else {
            result == FetchPhase::<E>::Finished(Ok(None))
        },
    }
}

/// The queues before the position `i` are empty.
pub open spec fn empty_before(store: Store, queues: Seq<Text>, i: int) -> bool {
    forall|j: int| 0 <= j < i ==> (#[trigger] store.list(queues[j])).len() == 0
}

/// The worlds that a fetch goes through between `start` and its end.
pub open spec fn between<E>(start: FetchWorld<E>, w: FetchWorld<E>) -> bool {
    let v = w.fetch;
    let taken = taken_from(start.store, start.fetch.identity, start.fetch.queues);
    &&& v.identity == start.fetch.identity
    &&& v.queues == start.fetch.queues
    &&& match v.phase {
        FetchPhase::Connecting => w.store == start.store && w.registered == start.registered,
        FetchPhase::Popping => w.store == start.store && w.registered == start.registered && v.identity is None,
        FetchPhase::Sweeping(i) => {
            &&& w.store == start.store
            &&& w.registered == start.registered
            &&& v.identity is Some
            &&& 0 <= i < v.queues.len()
            &&& empty_before(w.store, v.queues, i)
        },
        FetchPhase::Blocking => {
            &&& w.store == start.store
            &&& w.registered == start.registered
            &&& v.identity is Some
            &&& 0 < v.queues.len()
            &&& empty_before(w.store, v.queues, v.queues.len() as int)
        },
        FetchPhase::Confirming { queue, inprogress, job_raw } => {
            &&& taken == Some(Taken { queue, claim: Some(inprogress), job_raw })
            &&& start.registered.contains(inprogress)
            &&& w.store == start.store.moved(queue, inprogress)
            &&& w.registered == start.registered
        },
        FetchPhase::Registering { queue, inprogress, job_raw } => {
            &&& taken == Some(Taken { queue, claim: Some(inprogress), job_raw })
            &&& !start.registered.contains(inprogress) || !w.store.set(WORKING_SET@).contains(inprogress)
            &&& w.store == start.store.moved(queue, inprogress)
            &&& w.registered == start.registered.insert(inprogress)
        },
        FetchPhase::Parsing { queue, claim, job_raw } => {
            &&& taken == Some(Taken { queue, claim, job_raw })
            &&& (w.store, w.registered) == after_fetch(start.store, start.registered, taken)
        },
        FetchPhase::Finished(_) => {
            &&& comes_back(waits_for_nothing(v.identity, v.queues), taken, v.phase)
            &&& (w.store, w.registered) == after_fetch(start.store, start.registered, taken)
        },
    }
}

proof fn lemma_first_nonempty(store: Store, queues: Seq<Text>, i: int)
    requires
        0 <= i <= queues.len(),
        empty_before(store, queues, i),
    ensures
        i < queues.len() && store.list(queues[i]).len() > 0 ==> first_nonempty(store, queues) == Some(i),
        i == queues.len() ==> first_nonempty(store, queues) is None,
    decreases queues.len(),
{
    if i > 0 {
        let rest = queues.drop_first();
        assert(store.list(queues[0]).len() == 0);
        assert forall|j: int| 0 <= j < i - 1 implies (#[trigger] store.list(rest[j])).len() == 0 by {
            assert(rest[j] == queues[j + 1]);
        }
        lemma_first_nonempty(store, rest, i - 1);
        if i < queues.len() {
            assert(rest[i - 1] == queues[i]);
        }
    }
}

/// How far a fetch still is from its end.
pub open spec fn steps_left<E>(v: FetchView<E>) -> int {
    match v.phase {
        FetchPhase::Connecting => (v.queues.len() + 6) as int,
        FetchPhase::Popping => 4,
        FetchPhase::Sweeping(i) => v.queues.len() - i + 5,
        FetchPhase::Blocking => 4,
        FetchPhase::Confirming { .. } => 3,
        FetchPhase::Registering { .. } => 2,
        FetchPhase::Parsing { .. } => 1,
        FetchPhase::Finished(_) => 0,
    }
}

/// A fetch stays between its start and its end.
pub(crate) proof fn lemma_fetch_step<E>(start: FetchWorld<E>, a: FetchWorld<E>, b: FetchWorld<E>)
    requires
        between(start, a),
        fetch_step(a, b),
    ensures
        between(start, b),
        0 <= steps_left(b.fetch) < steps_left(a.fetch),
{
    let v = a.fetch;
    let event = choose|event: EventView<E>|
        #[trigger] answers(a.store, fetch_effect(a.fetch)->Some_0, b.store, event) && (b.fetch, b.registered)
            == fetch_next(a.fetch, a.registered, event);
    match v.phase {
        FetchPhase::Connecting => {
            if v.queues.len() == 0 {
                lemma_first_nonempty(a.store, v.queues, 0);
            }
        },
        FetchPhase::Sweeping(i) => {
            lemma_first_nonempty(a.store, v.queues, i);
        },
        FetchPhase::Blocking => {
            assert(a.store.list(v.queues[0]).len() == 0);
            lemma_first_nonempty(a.store, v.queues, v.queues.len() as int);
        },
        FetchPhase::Popping => {
            if v.queues.len() == 0 {
                lemma_first_nonempty(a.store, v.queues, 0);
            }
        },
        FetchPhase::Confirming { queue, inprogress, job_raw } => {
            assert(a.registered =~= a.registered.insert(inprogress));
        },
        FetchPhase::Parsing { queue, claim, job_raw } => {
            if let EventView::Parsed(job) = event {
                let work = fetched_work(queue, claim, job_raw, job);
                assert(b.fetch.phase == FetchPhase::<E>::Finished(Ok(Some(work))));
            }
        },
        _ => {},
    }
}

proof fn lemma_trace<E>(trace: Seq<FetchWorld<E>>, i: int)
    requires
        fetch_trace(trace),
        0 <= i < trace.len(),
        trace[0].fetch.phase is Connecting,
    ensures
        between(trace[0], trace[i]),
    decreases i,
{
    if i > 0 {
        lemma_trace(trace, i - 1);
        lemma_fetch_step(trace[0], trace[i - 1], trace[i]);
    }
}

/// A fetch takes the last job of the first queue that has one, in the order of the
/// queues. It comes back with that job, or with the error of reading it, and with
/// nothing if and only if all queues are empty; only a plain fetch without any queue is
/// refused. Nothing changes in Redis but that the job has left its queue and, if it was
/// claimed, stands at the front of the list of its process, which is recorded.
pub proof fn law_fetch_takes_the_next_job<E>(trace: Seq<FetchWorld<E>>, identity: Option<Text>, queues: Seq<Text>)
    requires
        fetch_trace(trace),
        trace.len() > 0,
        trace[0].fetch == fetch_start::<E>(identity, queues),
        trace.last().fetch.phase is Finished,
    ensures
        ({
            let taken = taken_from(trace[0].store, identity, queues);
            &&& comes_back(waits_for_nothing(identity, queues), taken, trace.last().fetch.phase)
            &&& (trace.last().store, trace.last().registered) == after_fetch(
                trace[0].store,
                trace[0].registered,
                taken,
            )
        }),
{
    lemma_trace(trace, trace.len() - 1);
}

/// A fetch comes to an end: each effect brings it nearer to it.
pub proof fn law_fetch_comes_to_an_end<E>(
    trace: Seq<FetchWorld<E>>,
    identity: Option<Text>,
    queues: Seq<Text>,
    i: int,
)
    requires
        fetch_trace(trace),
        trace[0].fetch == fetch_start::<E>(identity, queues),
        0 < i < trace.len(),
    ensures
        0 <= steps_left(trace[i].fetch) < steps_left(trace[i - 1].fetch),
{
    lemma_trace(trace, i - 1);
    lemma_fetch_step(trace[0], trace[i - 1], trace[i]);
}

/// A fetch reaches for nothing but its queues and, if it is reliable, the lists of its
/// own process: no process takes jobs from the list of another one by fetching.
pub proof fn law_fetch_touches_its_own_lists_only<E>(
    trace: Seq<FetchWorld<E>>,
    identity: Option<Text>,
    queues: Seq<Text>,
    i: int,
    command: CommandView,
    name: Text,
)
    requires
        fetch_trace(trace),
        trace[0].fetch == fetch_start::<E>(identity, queues),
        0 <= i < trace.len(),
        fetch_effect(trace[i].fetch) == Some(EffectView::Send(command)),
        touches(command, name),
    ensures
        queues.contains(name) || exists|queue: Text|
            identity is Some && queues.contains(queue) && name == #[trigger] inprogress_text(
                queue,
                identity->Some_0,
            ),
{
    lemma_trace(trace, i);
    match trace[i].fetch.phase {
        FetchPhase::Sweeping(k) => {
            assert(queues.contains(queues[k]));
        },
        FetchPhase::Blocking => {
            assert(queues.contains(queues[0]));
        },
        _ => {},
    }
}

/// The phases of a fetch that claims jobs never take one out of Redis.
pub open spec fn claims_only<E>(v: FetchView<E>) -> bool {
    &&& v.identity is Some
    &&& match v.phase {
        FetchPhase::Popping => false,
        FetchPhase::Parsing { queue, claim, job_raw } => claim is Some,
        FetchPhase::Finished(Ok(Some(work))) => work.reliable is Some,
        _ => true,
    }
}

/// A reliable fetch only claims, whatever Redis answers, and however often it fails.
pub proof fn law_reliable_fetch_only_claims<E>(v: FetchView<E>, registered: Set<Text>, event: EventView<E>)
    requires
        claims_only(v),
    ensures
        claims_only(fetch_next(v, registered, event).0),
{
}

/// A reliable fetch only sends commands that keep every job in Redis.
pub proof fn law_reliable_fetch_keeps_jobs<E>(v: FetchView<E>)
    requires
        claims_only(v),
    ensures
        fetch_effect(v) matches Some(EffectView::Send(command)) ==> keeps_jobs(command),
{
}

/// Once a reliable fetch has come to its end, the list that holds its job is listed in
/// the working set, whatever the worker had recorded before, and whatever other processes
/// had dropped meanwhile. Where it was listed, the working set stays as it was.
pub proof fn law_list_of_a_claimed_job_is_listed<E>(
    trace: Seq<FetchWorld<E>>,
    identity: Text,
    queues: Seq<Text>,
    taken: Taken,
)
    requires
        fetch_trace(trace),
        trace.len() > 0,
        trace[0].fetch == fetch_start::<E>(Some(identity), queues),
        trace.last().fetch.phase is Finished,
        taken_from(trace[0].store, Some(identity), queues) == Some(taken),
    ensures
        trace.last().store.list(inprogress_text(taken.queue, identity)).contains(taken.job_raw),
        trace.last().store.set(WORKING_SET@) == trace[0].store.set(WORKING_SET@).insert(
            inprogress_text(taken.queue, identity),
        ),
        trace.last().registered == trace[0].registered.insert(inprogress_text(taken.queue, identity)),
{
    let list = inprogress_text(taken.queue, identity);
    let listed = trace[0].store.set(WORKING_SET@);
    law_fetch_takes_the_next_job(trace, Some(identity), queues);
    assert(trace.last().store.list(list)[0] == taken.job_raw);
    if trace[0].registered.contains(list) {
        assert(trace[0].registered =~= trace[0].registered.insert(list));
    }
    if listed.contains(list) {
        assert(listed =~= listed.insert(list));
    }
}

/// The list of a claimed job is recorded without a question if the worker has not
/// recorded it before. If it has, the list is looked up, and recorded again only if it is
/// no longer listed. Where either fails, the worker forgets the list, so that the next
/// claim records it.
pub proof fn law_lists_are_recorded_unless_listed<E>(v: FetchView<E>, registered: Set<Text>, event: EventView<E>)
    ensures
        ({
            let (next, after) = fetch_next(v, registered, event);
            match (v.phase, next.phase) {
                (FetchPhase::Registering { .. }, FetchPhase::Registering { .. }) => after == registered,
                (FetchPhase::Confirming { .. }, FetchPhase::Confirming { .. }) => after == registered,
                (FetchPhase::Confirming { inprogress, .. }, FetchPhase::Registering { inprogress: same, .. }) => {
                    &&& event == EventView::<E>::Reply(ReplyView::Flag(false))
                    &&& same == inprogress
                    &&& after == registered
                },
                (_, FetchPhase::Registering { inprogress, .. }) => {
                    !registered.contains(inprogress) && after == registered.insert(inprogress)
                },
                (_, FetchPhase::Confirming { inprogress, .. }) => {
                    registered.contains(inprogress) && after == registered
                },
                (FetchPhase::Registering { inprogress, .. }, _) => after == if event is Failed {
                    registered.remove(inprogress)
                } else {
                    registered
                },
                (FetchPhase::Confirming { inprogress, .. }, _) => after == if event is Failed {
                    registered.remove(inprogress)
                } else {
                    registered
                },
                _ => after == registered,
            }
        }),
{
}

} // verus!
