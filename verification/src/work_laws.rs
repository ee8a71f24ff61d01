//! What becomes of a job in Redis when it has finished or was interrupted.

use vstd::prelude::*;

use crate::command::{CommandView, EffectView, EventView, ReplyView};
use crate::job::{ReliableClaimView, UnitOfWorkView};
use crate::keys::{queue_key_text, split_text, Text};
use crate::recovery_laws::{law_dead_owners_jobs_are_requeued, recover_member};
use crate::store::{answers, executes, keeps_jobs, requeues, writes, Store};
use crate::work::{
    ack_command, record_text, requeue_effect, requeue_next, requeue_start, set_work_effect, set_work_next, RequeuePhase,
    RequeueView, SetWorkPhase, SetWorkView,
};

verus! {

/// A finished job leaves its in-progress list: one copy of its text, and nothing else,
/// is taken out. If there was one copy, none is left.
pub proof fn law_ack_drops_one_copy(pre: Store, claim: ReliableClaimView, post: Store, reply: ReplyView)
    requires
        executes(pre, ack_command(claim), post, reply),
    ensures
        ({
            let list = claim.inprogress_key;
            let before = pre.list(list).to_multiset();
            let after = post.list(list).to_multiset();
            &&& pre.list(list).contains(claim.job_raw) ==> after == before.remove(claim.job_raw)
            &&& !pre.list(list).contains(claim.job_raw) ==> post == pre
            &&& before.count(claim.job_raw) <= 1 ==> !post.list(list).contains(claim.job_raw)
            &&& forall|name: Text| name != list ==> #[trigger] post.list(name) == pre.list(name)
            &&& post.sets == pre.sets
            &&& post.hashes == pre.hashes
        }),
{
    broadcast use vstd::seq_lib::group_to_multiset_ensures;

    let jobs = pre.list(claim.inprogress_key);
    if jobs.contains(claim.job_raw) {
        let k = choose|k: int| 0 <= k < jobs.len() && jobs[k] == claim.job_raw;
        jobs.index_of_last_ensures(claim.job_raw);
        let i = jobs.index_of_last(claim.job_raw)->Some_0;
        assert(jobs[i] == claim.job_raw);
        assert(post.list(claim.inprogress_key) == jobs.remove(i));
        assert(jobs.remove(i).to_multiset() == jobs.to_multiset().remove(claim.job_raw));
        assert(jobs.to_multiset().count(claim.job_raw) > 0);
        assert(jobs.remove(i).contains(claim.job_raw) ==> jobs.remove(i).to_multiset().count(claim.job_raw) > 0);
    } else {
        jobs.index_of_last_ensures(claim.job_raw);
        assert(post == pre);
    }
}

/// One effect of a requeue, performed and answered, where `payload` is the text as which
/// the job at hand is written.
pub open spec fn requeue_step<E>(payload: Text, a: (RequeueView<E>, Store), b: (RequeueView<E>, Store)) -> bool {
    &&& requeue_effect(a.0) is Some
    &&& exists|event: EventView<E>|
        {
            &&& #[trigger] answers(a.1, requeue_effect(a.0)->Some_0, b.1, event)
            &&& writes(payload, requeue_effect(a.0)->Some_0, event)
            &&& b.0 == requeue_next(a.0, event)
        }
}

/// A course of a requeue on a Redis that nobody else uses meanwhile.
pub open spec fn requeue_trace<E>(payload: Text, trace: Seq<(RequeueView<E>, Store)>) -> bool {
    forall|i: int| #![trigger trace[i]] 0 < i < trace.len() ==> requeue_step(payload, trace[i - 1], trace[i])
}

/// Whether a requeue of `work` may leave Redis with the content `post` and say whether
/// the job was put back. A claimed job is put back only out of its in-progress list, as
/// the text that was claimed. Any other job is put back as the text `payload`.
pub open spec fn put_back(pre: Store, work: UnitOfWorkView, payload: Text, post: Store, found: bool) -> bool {
    let queue_key = queue_key_text(work.job.queue);
    match work.reliable {
        Some(claim) => requeues(
            pre,
            claim.inprogress_key,
            queue_key,
            claim.job_raw,
            post,
            ReplyView::Flag(found),
        ),
        None => found && post == pre.with_list(queue_key, pre.list(queue_key).push(payload)),
    }
}

/// The worlds that a requeue goes through from the store `start` on.
pub open spec fn requeueing<E>(work: UnitOfWorkView, payload: Text, start: Store, w: (RequeueView<E>, Store)) -> bool {
    &&& w.0.queue_key == queue_key_text(work.job.queue)
    &&& w.0.reliable == work.reliable
    &&& w.0.job == work.job
    &&& match w.0.phase {
        RequeuePhase::Connecting => w.1 == start,
        RequeuePhase::Serializing => w.1 == start && work.reliable is None,
        RequeuePhase::Pushing { value } => w.1 == start && work.reliable is None && value == payload,
        RequeuePhase::Moving { claim } => w.1 == start && work.reliable == Some(claim),
        RequeuePhase::Finished(result) => result matches Ok(found) && put_back(start, work, payload, w.1, found),
    }
}

/// A requeue stays on its way from its start to its end.
pub(crate) proof fn lemma_requeue_step<E>(
    work: UnitOfWorkView,
    payload: Text,
    start: Store,
    a: (RequeueView<E>, Store),
    b: (RequeueView<E>, Store),
)
    requires
        requeueing(work, payload, start, a),
        requeue_step(payload, a, b),
    ensures
        requeueing(work, payload, start, b),
{
}

proof fn lemma_requeue<E>(payload: Text, trace: Seq<(RequeueView<E>, Store)>, work: UnitOfWorkView, i: int)
    requires
        requeue_trace(payload, trace),
        0 <= i < trace.len(),
        trace[0].0 == requeue_start::<E>(work),
    ensures
        requeueing(work, payload, trace[0].1, trace[i]),
    decreases i,
{
    if i > 0 {
        lemma_requeue(payload, trace, work, i - 1);
        lemma_requeue_step(work, payload, trace[0].1, trace[i - 1], trace[i]);
    }
}

/// A requeue that comes to its end has put the job back, unless it was claimed and its
/// copy is no longer in the in-progress list. It never fails on its own account.
pub proof fn law_requeue_puts_the_job_back<E>(
    payload: Text,
    trace: Seq<(RequeueView<E>, Store)>,
    work: UnitOfWorkView,
)
    requires
        requeue_trace(payload, trace),
        trace.len() > 0,
        trace[0].0 == requeue_start::<E>(work),
        trace.last().0.phase is Finished,
    ensures
        trace.last().0.phase matches RequeuePhase::Finished(Ok(found)) && put_back(
            trace[0].1,
            work,
            payload,
            trace.last().1,
            found,
        ),
{
    lemma_requeue(payload, trace, work, trace.len() - 1);
}

/// A claimed job whose copy is still in the in-progress list is put at the end of its
/// queue, and one copy leaves the list.
pub proof fn law_claimed_job_is_moved_back(
    pre: Store,
    work: UnitOfWorkView,
    payload: Text,
    claim: ReliableClaimView,
    post: Store,
    found: bool,
)
    requires
        work.reliable == Some(claim),
        put_back(pre, work, payload, post, found),
        claim.inprogress_key != queue_key_text(work.job.queue),
        pre.list(claim.inprogress_key).contains(claim.job_raw),
    ensures
        found,
        post.list(queue_key_text(work.job.queue)) == pre.list(queue_key_text(work.job.queue)).push(claim.job_raw),
        post.list(claim.inprogress_key).to_multiset() == pre.list(claim.inprogress_key).to_multiset().remove(
            claim.job_raw,
        ),
        forall|name: Text|
            name != claim.inprogress_key && name != queue_key_text(work.job.queue) ==> #[trigger] post.list(name)
                == pre.list(name),
{
    broadcast use vstd::seq_lib::group_to_multiset_ensures;

    let list = claim.inprogress_key;
    let queue_key = queue_key_text(work.job.queue);
    let i = choose|i: int|
        {
            let taken = #[trigger] pre.with_list(list, pre.list(list).remove(i));
            &&& 0 <= i < pre.list(list).len()
            &&& pre.list(list)[i] == claim.job_raw
            &&& post == taken.with_list(queue_key, taken.list(queue_key).push(claim.job_raw))
        };
    assert(post.list(list) == pre.list(list).remove(i));
}

/// A claimed job whose copy has left the in-progress list is not put back: Redis does
/// not change.
pub proof fn law_recovered_job_is_not_doubled(
    pre: Store,
    work: UnitOfWorkView,
    payload: Text,
    claim: ReliableClaimView,
    post: Store,
    found: bool,
)
    requires
        work.reliable == Some(claim),
        put_back(pre, work, payload, post, found),
        !pre.list(claim.inprogress_key).contains(claim.job_raw),
    ensures
        !found,
        post == pre,
{
}

/// Once recovery has dealt with the list of a process, a requeue by that process
/// changes nothing.
pub proof fn law_requeue_after_recovery_changes_nothing(
    store: Store,
    my_identity: Text,
    working_set: Text,
    work: UnitOfWorkView,
    payload: Text,
    claim: ReliableClaimView,
    queue_key: Text,
    owner: Text,
    post: Store,
    found: bool,
)
    requires
        work.reliable == Some(claim),
        split_text(claim.inprogress_key) == Some((queue_key, owner)),
        owner != my_identity,
        !store.has_key(owner),
        put_back(recover_member(store, my_identity, working_set, claim.inprogress_key).0, work, payload, post, found),
    ensures
        !found,
        post == recover_member(store, my_identity, working_set, claim.inprogress_key).0,
{
    law_dead_owners_jobs_are_requeued(store, my_identity, working_set, claim.inprogress_key, queue_key, owner);
}

/// A job that lives only in memory is put at the end of its queue in any case, as the
/// text as which it is written.
pub proof fn law_plain_job_is_pushed_back(pre: Store, work: UnitOfWorkView, payload: Text, post: Store, found: bool)
    requires
        work.reliable is None,
        put_back(pre, work, payload, post, found),
    ensures
        found,
        post.list(queue_key_text(work.job.queue)) == pre.list(queue_key_text(work.job.queue)).push(payload),
        forall|name: Text|
            name != queue_key_text(work.job.queue) ==> #[trigger] post.list(name) == pre.list(name),
{
}

/// The requeue of a claimed job only sends commands that keep every job in Redis,
/// whatever Redis answers, and however often it fails.
pub proof fn law_claimed_requeue_keeps_jobs<E>(v: RequeueView<E>, event: EventView<E>)
    requires
        v.reliable is Some,
        !(v.phase is Serializing || v.phase is Pushing),
    ensures
        requeue_effect(v) matches Some(EffectView::Send(command)) ==> keeps_jobs(command),
        ({
            let next = requeue_next(v, event);
            next.reliable is Some && !(next.phase is Serializing || next.phase is Pushing)
        }),
{
}

/// One effect of the recording of a job at hand, performed and answered, where `payload`
/// is the text as which the job is written.
pub open spec fn set_work_step<E>(payload: Text, a: (SetWorkView<E>, Store), b: (SetWorkView<E>, Store)) -> bool {
    &&& set_work_effect(a.0) is Some
    &&& exists|event: EventView<E>, now: int|
        {
            &&& answers(a.1, set_work_effect(a.0)->Some_0, b.1, event)
            &&& writes(payload, set_work_effect(a.0)->Some_0, event)
            &&& b.0 == #[trigger] set_work_next(a.0, event, now)
        }
}

/// A course of the recording on a Redis that nobody else uses meanwhile.
pub open spec fn set_work_trace<E>(payload: Text, trace: Seq<(SetWorkView<E>, Store)>) -> bool {
    forall|i: int| #![trigger trace[i]] 0 < i < trace.len() ==> set_work_step(payload, trace[i - 1], trace[i])
}

/// Whether `record` says of the job of this queue, written as `payload`, that it is at
/// hand since some time.
pub open spec fn records(record: Text, queue: Text, payload: Text) -> bool {
    exists|run_at: int| record == #[trigger] record_text(queue, payload, run_at)
}

/// The store with a record under the worker's process and thread.
pub open spec fn with_record<E>(store: Store, v: SetWorkView<E>, record: Text) -> Store {
    store.with_hash(v.key, store.hash(v.key).insert(v.tid, record))
}

/// Whether one store is another with a record of a job under the worker's process and
/// thread.
pub open spec fn gained_record<E>(payload: Text, before: Store, v: SetWorkView<E>, after: Store) -> bool {
    exists|record: Text| #[trigger] records(record, v.job.queue, payload) && after == with_record(before, v, record)
}

/// The worlds that a recording goes through from `start` on.
pub open spec fn recording<E>(payload: Text, start: (SetWorkView<E>, Store), w: (SetWorkView<E>, Store)) -> bool {
    let v = w.0;
    let store = w.1;
    &&& v.key == start.0.key
    &&& v.tid == start.0.tid
    &&& v.job == start.0.job
    &&& match v.phase {
        SetWorkPhase::Connecting => store == start.1,
        SetWorkPhase::Serializing => store == start.1,
        SetWorkPhase::Storing { record } => store == start.1 && records(record, v.job.queue, payload),
        SetWorkPhase::Expiring => gained_record(payload, start.1, v, store),
        SetWorkPhase::Finished(result) => result is Ok && gained_record(payload, start.1, v, store),
    }
}

/// A recording stays on its way from its start to its end.
pub(crate) proof fn lemma_set_work_step<E>(
    payload: Text,
    start: (SetWorkView<E>, Store),
    a: (SetWorkView<E>, Store),
    b: (SetWorkView<E>, Store),
)
    requires
        recording(payload, start, a),
        set_work_step(payload, a, b),
    ensures
        recording(payload, start, b),
{
    let (v, store) = a;
    let (event, now) = choose|event: EventView<E>, now: int|
        {
            &&& answers(store, set_work_effect(v)->Some_0, b.1, event)
            &&& writes(payload, set_work_effect(v)->Some_0, event)
            &&& b.0 == #[trigger] set_work_next(v, event, now)
        };
    match v.phase {
        SetWorkPhase::Serializing => {
            assert(records(record_text(v.job.queue, payload, now), v.job.queue, payload));
        },
        SetWorkPhase::Storing { record } => {
            assert(b.1 == with_record(start.1, b.0, record));
            assert(records(record, b.0.job.queue, payload));
        },
        SetWorkPhase::Expiring => {
            let record = choose|record: Text|
                #[trigger] records(record, v.job.queue, payload) && store == with_record(start.1, v, record);
            assert(b.1 == with_record(start.1, b.0, record));
            assert(records(record, b.0.job.queue, payload));
        },
        _ => {},
    }
}

proof fn lemma_set_work<E>(payload: Text, trace: Seq<(SetWorkView<E>, Store)>, i: int)
    requires
        set_work_trace(payload, trace),
        0 <= i < trace.len(),
        trace[0].0.phase is Connecting,
    ensures
        recording(payload, trace[0], trace[i]),
    decreases i,
{
    if i > 0 {
        lemma_set_work(payload, trace, i - 1);
        lemma_set_work_step(payload, trace[0], trace[i - 1], trace[i]);
    }
}

/// The recording of a job at hand leaves a record of it under the worker's process and
/// thread, and changes nothing else.
pub proof fn law_set_work_leaves_a_record<E>(payload: Text, trace: Seq<(SetWorkView<E>, Store)>) -> (record: Text)
    requires
        set_work_trace(payload, trace),
        trace.len() > 0,
        trace[0].0.phase is Connecting,
        trace.last().0.phase is Finished,
    ensures
        trace.last().0.phase == SetWorkPhase::<E>::Finished(Ok(())),
        records(record, trace[0].0.job.queue, payload),
        trace.last().1 == with_record(trace[0].1, trace[0].0, record),
{
    lemma_set_work(payload, trace, trace.len() - 1);
    let v = trace.last().0;
    choose|record: Text|
        #[trigger] records(record, v.job.queue, payload) && trace.last().1 == with_record(trace[0].1, v, record)
}

/// The recording of a job at hand only sends commands that keep every job in Redis.
pub proof fn law_recording_keeps_jobs<E>(v: SetWorkView<E>)
    ensures
        set_work_effect(v) matches Some(EffectView::Send(command)) ==> keeps_jobs(command),
{
}

/// Clearing the record of a job takes away what the recording left, and nothing else.
pub proof fn law_clear_work_takes_the_record_away<E>(
    before: Store,
    v: SetWorkView<E>,
    record: Text,
    cleared: Store,
    reply: ReplyView,
)
    requires
        executes(with_record(before, v, record), CommandView::Hdel { key: v.key, field: v.tid }, cleared, reply),
    ensures
        cleared.hash(v.key) == before.hash(v.key).remove(v.tid),
        forall|key: Text| key != v.key ==> #[trigger] cleared.hash(key) == before.hash(key),
        cleared.lists == before.lists,
        cleared.sets == before.sets,
        keeps_jobs(CommandView::Hdel { key: v.key, field: v.tid }),
{
    assert(before.hash(v.key).insert(v.tid, record).remove(v.tid) =~= before.hash(v.key).remove(v.tid));
}

} // verus!
