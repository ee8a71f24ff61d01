//! What reliable fetch is for: a claimed job outlives the process that claimed it.

use vstd::prelude::*;

use crate::fetch::fetch_start;
use crate::fetch_laws::{fetch_trace, law_list_of_a_claimed_job_is_listed, taken_from, FetchWorld, Taken};
use crate::keys::{has_marker, inprogress_text, law_split_undoes_inprogress_key, split_text, Text, WORKING_SET};
use crate::recovery::{recovery_start, RecoveryView};
use crate::recovery_laws::{
    law_dead_owners_jobs_are_requeued, law_recovery_deals_with_every_entry, recover_member, recover_members, recovery_trace,
};
use crate::store::Store;

verus! {

/// Whether an entry of the working set has nothing to do with another process's list:
/// it is not the queue of that list, and its own queue is neither the list nor the key
/// of the process's heartbeat.
pub open spec fn stands_apart(member: Text, list: Text, queue_key: Text, owner: Text) -> bool {
    match split_text(member) {
        Some(parts) => member != queue_key && parts.0 != list && parts.0 != owner,
        None => true,
    }
}

/// Dealing with other entries leaves the list of a process as it is, and does not
/// bring the process to life.
proof fn lemma_other_member(
    store: Store,
    my_identity: Text,
    working_set: Text,
    member: Text,
    list: Text,
    queue_key: Text,
    owner: Text,
)
    requires
        member != list,
        stands_apart(member, list, queue_key, owner),
        !store.has_key(owner),
    ensures
        ({
            let after = recover_member(store, my_identity, working_set, member).0;
            &&& after.list(list) == store.list(list)
            &&& !after.has_key(owner)
        }),
{
    let after = recover_member(store, my_identity, working_set, member).0;
    assert forall|m: Text| after.set(owner).contains(m) implies store.set(owner).contains(m) by {}
    assert(after.hash(owner) == store.hash(owner));
    assert(after.list(owner).len() == 0);
}

/// Once a list is empty and dropped, dealing with other entries leaves it so, and takes
/// nothing from its queue.
proof fn lemma_stays_recovered(
    store: Store,
    my_identity: Text,
    working_set: Text,
    members: Seq<Text>,
    list: Text,
    queue_key: Text,
    owner: Text,
    job: Text,
)
    requires
        !members.contains(list),
        forall|i: int| 0 <= i < members.len() ==> stands_apart(#[trigger] members[i], list, queue_key, owner),
        store.list(list).len() == 0,
        !store.set(working_set).contains(list),
    ensures
        ({
            let after = recover_members(store, my_identity, working_set, members).0;
            &&& after.list(list).len() == 0
            &&& !after.set(working_set).contains(list)
            &&& store.list(queue_key).contains(job) ==> after.list(queue_key).contains(job)
        }),
    decreases members.len(),
{
    if members.len() > 0 {
        let member = members[0];
        let next = recover_member(store, my_identity, working_set, member).0;
        let rest = members.drop_first();
        assert(members.contains(member));
        assert(stands_apart(member, list, queue_key, owner));
        assert forall|m: Text| rest.contains(m) implies members.contains(m) by {
            let i = choose|i: int| 0 <= i < rest.len() && rest[i] == m;
            assert(members[i + 1] == m);
        }
        assert forall|i: int| 0 <= i < rest.len() implies stands_apart(#[trigger] rest[i], list, queue_key, owner) by {
            assert(rest[i] == members[i + 1]);
        }
        if store.list(queue_key).contains(job) {
            match split_text(member) {
                Some((key, other)) => {
                    if other != my_identity && !store.has_key(other) {
                        law_dead_owners_jobs_are_requeued(store, my_identity, working_set, member, key, other);
                        if key == queue_key {
                            let k = choose|k: int|
                                0 <= k < store.list(queue_key).len() && store.list(queue_key)[k] == job;
                            let both = store.list(member) + store.list(queue_key);
                            assert(both[store.list(member).len() + k] == job);
                        }
                    }
                },
                None => {},
            }
            assert(next.list(queue_key).contains(job));
        }
        lemma_stays_recovered(next, my_identity, working_set, rest, list, queue_key, owner, job);
    }
}

/// Dealing with all entries recovers the list of a dead owner among them.
proof fn lemma_recovered(
    store: Store,
    my_identity: Text,
    working_set: Text,
    members: Seq<Text>,
    queue_key: Text,
    owner: Text,
    list: Text,
    job: Text,
)
    requires
        members.contains(list),
        members.no_duplicates(),
        split_text(list) == Some((queue_key, owner)),
        owner != my_identity,
        !store.has_key(owner),
        forall|i: int|
            0 <= i < members.len() && members[i] != list ==> stands_apart(
                #[trigger] members[i],
                list,
                queue_key,
                owner,
            ),
        store.list(list).contains(job),
    ensures
        ({
            let after = recover_members(store, my_identity, working_set, members).0;
            &&& after.list(list).len() == 0
            &&& after.list(queue_key).contains(job)
            &&& !after.set(working_set).contains(list)
        }),
    decreases members.len(),
{
    let member = members[0];
    let next = recover_member(store, my_identity, working_set, member).0;
    let rest = members.drop_first();
    assert forall|i: int| 0 <= i < rest.len() && rest[i] != list implies stands_apart(
        #[trigger] rest[i],
        list,
        queue_key,
        owner,
    ) by {
        assert(rest[i] == members[i + 1]);
    }
    if member == list {
        law_dead_owners_jobs_are_requeued(store, my_identity, working_set, member, queue_key, owner);
        let k = choose|k: int| 0 <= k < store.list(list).len() && store.list(list)[k] == job;
        assert(next.list(queue_key)[k] == job);
        assert(!rest.contains(list)) by {
            if rest.contains(list) {
                let i = choose|i: int| 0 <= i < rest.len() && rest[i] == list;
                assert(members[i + 1] == members[0]);
            }
        }
        assert forall|i: int| 0 <= i < rest.len() implies rest[i] != list by {
            assert(rest.contains(rest[i]));
        }
        lemma_stays_recovered(next, my_identity, working_set, rest, list, queue_key, owner, job);
    } else {
        let i = choose|i: int| 0 <= i < members.len() && members[i] == list;
        assert(rest[i - 1] == list);
        assert(rest.no_duplicates()) by {
            assert forall|i: int, j: int| 0 <= i < rest.len() && 0 <= j < rest.len() && i != j implies rest[i]
                != rest[j] by {
                assert(members[i + 1] != members[j + 1]);
            }
        }
        lemma_other_member(store, my_identity, working_set, member, list, queue_key, owner);
        lemma_recovered(next, my_identity, working_set, rest, queue_key, owner, list, job);
    }
}

/// A recovery that comes to its end has put every job that a dead process left in a
/// recorded list back onto its queue; the list is empty and no longer recorded.
pub proof fn law_recovery_returns_stranded_jobs<E>(
    trace: Seq<(RecoveryView<E>, Store)>,
    my_identity: Text,
    working_set: Text,
    queue_key: Text,
    owner: Text,
    list: Text,
    job: Text,
)
    requires
        recovery_trace(trace),
        trace.len() > 0,
        trace[0].0 == recovery_start::<E>(my_identity, working_set),
        trace.last().0.phase is Finished,
        trace[0].1.set(working_set).contains(list),
        split_text(list) == Some((queue_key, owner)),
        forall|member: Text|
            #[trigger] trace[0].1.set(working_set).contains(member) && member != list ==> stands_apart(
                member,
                list,
                queue_key,
                owner,
            ),
        owner != my_identity,
        !trace[0].1.has_key(owner),
        trace[0].1.list(list).contains(job),
    ensures
        trace.last().1.list(list).len() == 0,
        trace.last().1.list(queue_key).contains(job),
        !trace.last().1.set(working_set).contains(list),
{
    let members = law_recovery_deals_with_every_entry(trace, my_identity, working_set);
    let recorded = trace[0].1.set(working_set);
    assert(members.to_set().contains(list));
    assert forall|i: int| 0 <= i < members.len() && members[i] != list implies stands_apart(
        #[trigger] members[i],
        list,
        queue_key,
        owner,
    ) by {
        assert(members.to_set().contains(members[i]));
        assert(recorded.contains(members[i]));
    }
    lemma_recovered(trace[0].1, my_identity, working_set, members, queue_key, owner, list, job);
}

/// A job that was fetched reliably by a process that then died is back on its queue
/// once another process has run recovery: it was not lost with the process.
pub proof fn law_claimed_job_outlives_its_process<E>(
    fetched: Seq<FetchWorld<E>>,
    identity: Text,
    queues: Seq<Text>,
    taken: Taken,
    recovered: Seq<(RecoveryView<E>, Store)>,
    other_identity: Text,
)
    requires
        fetch_trace(fetched),
        fetched.len() > 0,
        fetched[0].fetch == fetch_start::<E>(Some(identity), queues),
        fetched.last().fetch.phase is Finished,
        taken_from(fetched[0].store, Some(identity), queues) == Some(taken),
        recovery_trace(recovered),
        recovered.len() > 0,
        recovered[0].0 == recovery_start::<E>(other_identity, WORKING_SET@),
        recovered[0].1 == fetched.last().store,
        recovered.last().0.phase is Finished,
        !has_marker(seq![':'] + identity),
        forall|member: Text|
            #[trigger] recovered[0].1.set(WORKING_SET@).contains(member) && member != inprogress_text(
                taken.queue,
                identity,
            ) ==> stands_apart(member, inprogress_text(taken.queue, identity), taken.queue, identity),
        other_identity != identity,
        !recovered[0].1.has_key(identity),
    ensures
        recovered.last().1.list(taken.queue).contains(taken.job_raw),
        recovered.last().1.list(inprogress_text(taken.queue, identity)).len() == 0,
        !recovered.last().1.set(WORKING_SET@).contains(inprogress_text(taken.queue, identity)),
{
    let list = inprogress_text(taken.queue, identity);
    law_list_of_a_claimed_job_is_listed(fetched, identity, queues, taken);
    law_split_undoes_inprogress_key(taken.queue, identity);
    law_recovery_returns_stranded_jobs(
        recovered,
        other_identity,
        WORKING_SET@,
        taken.queue,
        identity,
        list,
        taken.job_raw,
    );
}

} // verus!
