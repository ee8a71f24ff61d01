//! What two processes do to Redis that run recovery at the same time.

use vstd::prelude::*;

use crate::command::{EventView, ReplyView};
use crate::keys::{law_owner_holds_no_marker, law_split_is_at_the_last_marker, split_text, Text};
use crate::recovery::{recovery_command, recovery_next, recovery_start, recovery_turn, RecoveryPhase, RecoveryView};
use crate::recovery_laws::recovery_step;
use crate::store::{enumerates, executes, Store};

verus! {

/// Two recoveries and Redis.
pub struct TwoRecoveries<E> {
    pub one: RecoveryView<E>,
    pub other: RecoveryView<E>,
    pub store: Store,
}

/// One command of either recovery, answered by Redis.
pub open spec fn interleaved_step<E>(a: TwoRecoveries<E>, b: TwoRecoveries<E>) -> bool {
    ||| recovery_step((a.one, a.store), (b.one, b.store)) && b.other == a.other
    ||| recovery_step((a.other, a.store), (b.other, b.store)) && b.one == a.one
}

/// A course of two recoveries, in whatever order their commands reach Redis, which nobody
/// else uses meanwhile.
pub open spec fn interleaved_trace<E>(trace: Seq<TwoRecoveries<E>>) -> bool {
    forall|i: int| #![trigger trace[i]] 0 < i < trace.len() ==> interleaved_step(trace[i - 1], trace[i])
}

/// The queue of a recorded list.
pub open spec fn home(list: Text) -> Text {
    split_text(list)->Some_0.0
}

/// The owner of a recorded list.
pub open spec fn owner(list: Text) -> Text {
    split_text(list)->Some_0.1
}

/// Whether a recorded list belongs to a dead process.
pub open spec fn is_stranded(store: Store, working_set: Text, list: Text) -> bool {
    &&& store.set(working_set).contains(list)
    &&& split_text(list) is Some
    &&& !store.has_key(owner(list))
}

/// Whether `lists` are the recorded lists of dead processes, each once.
pub open spec fn are_stranded(store: Store, working_set: Text, lists: Seq<Text>) -> bool {
    &&& lists.no_duplicates()
    &&& forall|list: Text| #[trigger] lists.contains(list) <==> is_stranded(store, working_set, list)
}

/// How many jobs there are in several lists.
pub open spec fn jobs_in(store: Store, lists: Seq<Text>) -> nat
    decreases lists.len(),
{
    if lists.len() == 0 {
        0
    } else {
        jobs_in(store, lists.drop_last()) + store.list(lists.last()).len()
    }
}

/// How often a job stands in those of several lists that belong to the queue.
pub open spec fn copies_for(store: Store, lists: Seq<Text>, queue_key: Text, job: Text) -> nat
    decreases lists.len(),
{
    if lists.len() == 0 {
        0
    } else {
        copies_for(store, lists.drop_last(), queue_key, job) + if home(lists.last()) == queue_key {
            store.list(lists.last()).to_multiset().count(job)
        } else {
            0
        }
    }
}

/// Whether the queues of several lists are neither among the lists nor named like one of
/// their owners.
pub open spec fn queues_stand_apart(lists: Seq<Text>) -> bool {
    forall|a: Text, b: Text|
        #![trigger lists.contains(a), lists.contains(b)]
        lists.contains(a) && lists.contains(b) ==> home(a) != b && home(a) != owner(b)
}

/// What one store has become of another by the commands of recoveries.
spec fn partly_recovered(start: Store, working_set: Text, lists: Seq<Text>, store: Store) -> bool {
    &&& forall|m: Text|
        #[trigger] start.set(working_set).contains(m) && split_text(m) is Some ==> store.has_key(owner(m))
            == start.has_key(owner(m))
    &&& forall|m: Text| #[trigger] store.set(working_set).contains(m) ==> start.set(working_set).contains(m)
    &&& forall|m: Text|
        #[trigger] start.set(working_set).contains(m) && split_text(m) is Some && start.has_key(owner(m))
            ==> store.set(working_set).contains(m)
    &&& forall|m: Text|
        #[trigger] lists.contains(m) && !store.set(working_set).contains(m) ==> store.list(m).len() == 0
    &&& forall|q: Text, job: Text|
        !lists.contains(q) ==> #[trigger] copies_for(store, lists, q, job) + store.list(q).to_multiset().count(job)
            == copies_for(start, lists, q, job) + start.list(q).to_multiset().count(job)
}

/// A list is empty and no longer recorded.
spec fn is_done(store: Store, working_set: Text, list: Text) -> bool {
    store.list(list).len() == 0 && !store.set(working_set).contains(list)
}

/// Every stranded list is done or still ahead.
spec fn none_forgotten(store: Store, working_set: Text, lists: Seq<Text>, members: Seq<Text>) -> bool {
    forall|m: Text| #[trigger] lists.contains(m) ==> is_done(store, working_set, m) || members.contains(m)
}

/// The entries were recorded at the start.
spec fn were_recorded(start: Store, working_set: Text, members: Seq<Text>) -> bool {
    forall|i: int| 0 <= i < members.len() ==> start.set(working_set).contains(#[trigger] members[i])
}

/// The states that a recovery goes through.
spec fn in_progress<E>(start: Store, working_set: Text, lists: Seq<Text>, v: RecoveryView<E>, store: Store) -> bool {
    &&& v.working_set == working_set
    &&& start.has_key(v.my_identity)
    &&& were_recorded(start, working_set, v.members)
    &&& !(v.phase is Listing) ==> none_forgotten(store, working_set, lists, v.members)
    &&& match v.phase {
        RecoveryPhase::Listing => v.requeued == 0,
        RecoveryPhase::Checking { queue_key, owner } => {
            v.members.len() > 0 && split_text(v.members[0]) == Some((queue_key, owner))
        },
        RecoveryPhase::Draining { queue_key } => {
            v.members.len() > 0 && lists.contains(v.members[0]) && home(v.members[0]) == queue_key
        },
        RecoveryPhase::Dropping => {
            &&& v.members.len() > 0
            &&& split_text(v.members[0]) is Some ==> lists.contains(v.members[0]) && store.list(v.members[0]).len() == 0
        },
        RecoveryPhase::Finished(result) => v.members.len() == 0 && result == Ok::<nat, E>(v.requeued),
    }
}

proof fn lemma_turn<E>(
    start: Store,
    lists: Seq<Text>,
    my_identity: Text,
    working_set: Text,
    members: Seq<Text>,
    requeued: nat,
    store: Store,
)
    requires
        are_stranded(start, working_set, lists),
        start.has_key(my_identity),
        were_recorded(start, working_set, members),
        none_forgotten(store, working_set, lists, members),
    ensures
        in_progress(
            start,
            working_set,
            lists,
            recovery_turn::<E>(my_identity, working_set, members, requeued),
            store,
        ),
        recovery_turn::<E>(my_identity, working_set, members, requeued).requeued == requeued,
    decreases members.len(),
{
    if members.len() > 0 {
        if let Some(parts) = split_text(members[0]) {
            if parts.1 == my_identity {
                assert(!lists.contains(members[0]));
                lemma_passed(start, lists, working_set, members, store);
                lemma_turn::<E>(start, lists, my_identity, working_set, members.drop_first(), requeued, store);
            }
        }
    }
}

/// An entry that is done, or not stranded, can be passed.
proof fn lemma_passed(start: Store, lists: Seq<Text>, working_set: Text, members: Seq<Text>, store: Store)
    requires
        members.len() > 0,
        were_recorded(start, working_set, members),
        none_forgotten(store, working_set, lists, members),
        !lists.contains(members[0]) || is_done(store, working_set, members[0]),
    ensures
        were_recorded(start, working_set, members.drop_first()),
        none_forgotten(store, working_set, lists, members.drop_first()),
{
    let rest = members.drop_first();
    assert forall|i: int| 0 <= i < rest.len() implies start.set(working_set).contains(#[trigger] rest[i]) by {
        assert(rest[i] == members[i + 1]);
    }
    assert forall|m: Text| #[trigger] lists.contains(m) implies is_done(store, working_set, m) || rest.contains(m) by {
        if !is_done(store, working_set, m) {
            let i = choose|i: int| 0 <= i < members.len() && members[i] == m;
            assert(rest[i - 1] == m);
        }
    }
}

/// The number of jobs in several lists, where one of them has changed.
proof fn lemma_jobs_in(pre: Store, post: Store, lists: Seq<Text>, list: Text)
    requires
        lists.no_duplicates(),
        forall|m: Text| #[trigger] lists.contains(m) && m != list ==> post.list(m) == pre.list(m),
    ensures
        lists.contains(list) ==> jobs_in(post, lists) + pre.list(list).len() == jobs_in(pre, lists) + post.list(
            list,
        ).len(),
        !lists.contains(list) ==> jobs_in(post, lists) == jobs_in(pre, lists),
    decreases lists.len(),
{
    if lists.len() > 0 {
        lemma_without_last(lists, list);
        assert forall|m: Text| #[trigger] lists.drop_last().contains(m) && m != list implies post.list(m) == pre.list(
            m,
        ) by {
            lemma_without_last(lists, m);
        }
        assert(lists.contains(lists.last()));
        lemma_jobs_in(pre, post, lists.drop_last(), list);
    }
}

/// The copies of a job in the lists of a queue, where one list has changed.
proof fn lemma_copies_for(pre: Store, post: Store, lists: Seq<Text>, list: Text, queue_key: Text, job: Text)
    requires
        lists.no_duplicates(),
        forall|m: Text| #[trigger] lists.contains(m) && m != list ==> post.list(m) == pre.list(m),
    ensures
        lists.contains(list) && home(list) == queue_key ==> copies_for(post, lists, queue_key, job) + pre.list(
            list,
        ).to_multiset().count(job) == copies_for(pre, lists, queue_key, job) + post.list(list).to_multiset().count(job),
        !lists.contains(list) || home(list) != queue_key ==> copies_for(post, lists, queue_key, job) == copies_for(
            pre,
            lists,
            queue_key,
            job,
        ),
    decreases lists.len(),
{
    if lists.len() > 0 {
        lemma_without_last(lists, list);
        assert forall|m: Text| #[trigger] lists.drop_last().contains(m) && m != list implies post.list(m) == pre.list(
            m,
        ) by {
            lemma_without_last(lists, m);
        }
        assert(lists.contains(lists.last()));
        lemma_copies_for(pre, post, lists.drop_last(), list, queue_key, job);
    }
}

proof fn lemma_without_last(lists: Seq<Text>, list: Text)
    requires
        lists.no_duplicates(),
        lists.len() > 0,
    ensures
        lists.drop_last().no_duplicates(),
        lists.drop_last().contains(list) <==> lists.contains(list) && list != lists.last(),
{
    let init = lists.drop_last();
    assert forall|i: int, j: int| 0 <= i < init.len() && 0 <= j < init.len() && i != j implies init[i] != init[j] by {
        assert(lists[i] != lists[j]);
    }
    if lists.contains(list) && list != lists.last() {
        let i = choose|i: int| 0 <= i < lists.len() && lists[i] == list;
        assert(init[i] == list);
    }
    if init.contains(list) {
        let i = choose|i: int| 0 <= i < init.len() && init[i] == list;
        assert(lists[i] == list);
        assert(lists[i] != lists[lists.len() - 1]);
    }
}

/// Moving one job of a stranded list to its queue.
proof fn lemma_moved(start: Store, working_set: Text, lists: Seq<Text>, store: Store, list: Text)
    requires
        are_stranded(start, working_set, lists),
        queues_stand_apart(lists),
        partly_recovered(start, working_set, lists, store),
        lists.contains(list),
        store.list(list).len() > 0,
    ensures
        partly_recovered(start, working_set, lists, store.moved(list, home(list))),
        jobs_in(store.moved(list, home(list)), lists) + 1 == jobs_in(store, lists),
        forall|m: Text| #[trigger] lists.contains(m) && store.list(m).len() == 0 ==> store.moved(list, home(list)).list(
            m,
        ).len() == 0,
{
    broadcast use vstd::seq_lib::group_to_multiset_ensures;

    let after = store.moved(list, home(list));
    let jobs = store.list(list);
    let value = jobs.last();
    assert(lists.contains(list) && lists.contains(list));
    assert(home(list) != list);
    assert forall|m: Text| #[trigger] lists.contains(m) && m != list implies after.list(m) == store.list(m) by {
        assert(lists.contains(list) && lists.contains(m));
    }
    assert(after.list(list) == jobs.drop_last());
    lemma_jobs_in(store, after, lists, list);
    assert forall|m: Text| #[trigger] start.set(working_set).contains(m) && split_text(m) is Some implies after.has_key(
        owner(m),
    ) == start.has_key(owner(m)) by {
        law_owner_holds_no_marker(m);
        law_split_is_at_the_last_marker(list);
        assert(owner(m) != list);
        assert(after.set(owner(m)) == store.set(owner(m)));
        assert(after.hash(owner(m)) == store.hash(owner(m)));
        if owner(m) == home(list) {
            if !start.has_key(owner(m)) {
                assert(is_stranded(start, working_set, m));
                assert(lists.contains(list) && lists.contains(m));
            }
            assert(after.list(owner(m)).len() > 0);
        } else {
            assert(after.list(owner(m)) == store.list(owner(m)));
        }
    }
    assert(jobs.drop_last() =~= jobs.remove(jobs.len() - 1));
    let front = seq![value];
    vstd::seq_lib::lemma_multiset_commutative(front, store.list(home(list)));
    assert(front =~= Seq::empty().push(value));
    assert(after.list(home(list)) == front + store.list(home(list)));
    assert(after.list(home(list)).to_multiset() =~= store.list(home(list)).to_multiset().insert(value));
    assert(jobs.to_multiset().count(value) > 0);
    assert forall|q: Text, job: Text| !lists.contains(q) implies #[trigger] copies_for(after, lists, q, job)
        + after.list(q).to_multiset().count(job) == copies_for(start, lists, q, job) + start.list(
        q,
    ).to_multiset().count(job) by {
        lemma_copies_for(store, after, lists, list, q, job);
        if q != home(list) {
            assert(after.list(q) == store.list(q));
        }
    }
}

/// Dropping an entry that is no recorded list, or one that is stranded and empty.
proof fn lemma_dropped(start: Store, working_set: Text, lists: Seq<Text>, store: Store, member: Text)
    requires
        are_stranded(start, working_set, lists),
        partly_recovered(start, working_set, lists, store),
        split_text(member) is Some ==> lists.contains(member) && store.list(member).len() == 0,
    ensures
        ({
            let after = store.with_set(working_set, store.set(working_set).remove(member));
            &&& partly_recovered(start, working_set, lists, after)
            &&& jobs_in(after, lists) == jobs_in(store, lists)
        }),
{
    let after = store.with_set(working_set, store.set(working_set).remove(member));
    assert forall|name: Text| #[trigger] after.list(name) == store.list(name) by {}
    if lists.len() > 0 {
        lemma_jobs_in(store, after, lists, lists[0]);
    }
    assert forall|m: Text| #[trigger] start.set(working_set).contains(m) && split_text(m) is Some && start.has_key(
        owner(m),
    ) implies after.set(working_set).contains(m) by {
        assert(m == member ==> is_stranded(start, working_set, m));
    }
    assert forall|m: Text| #[trigger] start.set(working_set).contains(m) && split_text(m) is Some implies after.has_key(
        owner(m),
    ) == start.has_key(owner(m)) by {
        assert(after.hash(owner(m)) == store.hash(owner(m)));
        assert(after.list(owner(m)) == store.list(owner(m)));
        if owner(m) == working_set {
            assert(start.set(owner(m)).contains(m));
            assert(start.has_key(owner(m)));
            assert(after.set(owner(m)).contains(m));
        } else {
            assert(after.set(owner(m)) == store.set(owner(m)));
        }
    }
    assert forall|q: Text, job: Text| !lists.contains(q) implies #[trigger] copies_for(after, lists, q, job)
        + after.list(q).to_multiset().count(job) == copies_for(start, lists, q, job) + start.list(
        q,
    ).to_multiset().count(job) by {
        if lists.len() > 0 {
            lemma_copies_for(store, after, lists, lists[0], q, job);
        }
        assert(copies_for(after, lists, q, job) == copies_for(store, lists, q, job));
    }
}

/// One command of a recovery brings it and the store on, and takes nothing back that
/// another recovery relies on. What it requeues has left the stranded lists.
proof fn lemma_step<E>(
    start: Store,
    working_set: Text,
    lists: Seq<Text>,
    a: (RecoveryView<E>, Store),
    b: (RecoveryView<E>, Store),
)
    requires
        are_stranded(start, working_set, lists),
        queues_stand_apart(lists),
        partly_recovered(start, working_set, lists, a.1),
        in_progress(start, working_set, lists, a.0, a.1),
        recovery_step(a, b),
    ensures
        partly_recovered(start, working_set, lists, b.1),
        in_progress(start, working_set, lists, b.0, b.1),
        b.0.requeued + jobs_in(b.1, lists) == a.0.requeued + jobs_in(a.1, lists),
        forall|m: Text| #[trigger] lists.contains(m) && a.1.list(m).len() == 0 ==> b.1.list(m).len() == 0,
        forall|m: Text| #[trigger] b.1.set(working_set).contains(m) ==> a.1.set(working_set).contains(m),
{
    let (v, store) = a;
    let command = recovery_command(v)->Some_0;
    let reply = choose|reply: ReplyView|
        #[trigger] executes(a.1, command, b.1, reply) && b.0 == recovery_next(a.0, EventView::Reply(reply));
    match v.phase {
        RecoveryPhase::Listing => {
            let members = choose|members: Seq<Text>|
                #[trigger] enumerates(members, store.set(working_set)) && reply == ReplyView::Members(members);
            assert forall|i: int| 0 <= i < members.len() implies start.set(working_set).contains(
                #[trigger] members[i],
            ) by {
                assert(members.to_set().contains(members[i]));
                assert(store.set(working_set).contains(members[i]));
            }
            assert forall|m: Text| #[trigger] lists.contains(m) implies is_done(store, working_set, m)
                || members.contains(m) by {
                if store.set(working_set).contains(m) {
                    assert(members.to_set().contains(m));
                }
            }
            lemma_turn::<E>(start, lists, v.my_identity, working_set, members, 0, store);
        },
        RecoveryPhase::Checking { queue_key, owner: asked } => {
            let member = v.members[0];
            assert(start.set(working_set).contains(member));
            assert(asked == owner(member));
            if store.has_key(asked) {
                assert(!lists.contains(member));
                lemma_passed(start, lists, working_set, v.members, store);
                lemma_turn::<E>(
                    start,
                    lists,
                    v.my_identity,
                    working_set,
                    v.members.drop_first(),
                    v.requeued,
                    store,
                );
            } else {
                assert(is_stranded(start, working_set, member));
                assert(lists.contains(member));
            }
        },
        RecoveryPhase::Draining { queue_key } => {
            if store.list(v.members[0]).len() > 0 {
                lemma_moved(start, working_set, lists, store, v.members[0]);
                assert forall|m: Text| #[trigger] lists.contains(m) implies is_done(b.1, working_set, m)
                    || v.members.contains(m) by {}
            }
        },
        RecoveryPhase::Dropping => {
            let member = v.members[0];
            lemma_dropped(start, working_set, lists, store, member);
            assert forall|m: Text| #[trigger] lists.contains(m) implies is_done(b.1, working_set, m)
                || v.members.contains(m) by {}
            assert(lists.contains(member) ==> split_text(member) is Some);
            lemma_passed(start, lists, working_set, v.members, b.1);
            lemma_turn::<E>(start, lists, v.my_identity, working_set, v.members.drop_first(), v.requeued, b.1);
        },
        RecoveryPhase::Finished(_) => {},
    }
}

/// A recovery is not thrown back by a command of another one.
proof fn lemma_undisturbed<E>(
    start: Store,
    working_set: Text,
    lists: Seq<Text>,
    v: RecoveryView<E>,
    pre: Store,
    post: Store,
)
    requires
        in_progress(start, working_set, lists, v, pre),
        forall|m: Text| #[trigger] lists.contains(m) && pre.list(m).len() == 0 ==> post.list(m).len() == 0,
        forall|m: Text| #[trigger] post.set(working_set).contains(m) ==> pre.set(working_set).contains(m),
    ensures
        in_progress(start, working_set, lists, v, post),
{
    if !(v.phase is Listing) {
        assert forall|m: Text| #[trigger] lists.contains(m) implies is_done(post, working_set, m)
            || v.members.contains(m) by {
            assert(is_done(pre, working_set, m) || v.members.contains(m));
        }
    }
}

proof fn lemma_trace<E>(start: Store, working_set: Text, lists: Seq<Text>, trace: Seq<TwoRecoveries<E>>, i: int)
    requires
        interleaved_trace(trace),
        0 <= i < trace.len(),
        trace[0].store == start,
        are_stranded(start, working_set, lists),
        queues_stand_apart(lists),
        in_progress(start, working_set, lists, trace[0].one, start),
        in_progress(start, working_set, lists, trace[0].other, start),
    ensures
        partly_recovered(start, working_set, lists, trace[i].store),
        in_progress(start, working_set, lists, trace[i].one, trace[i].store),
        in_progress(start, working_set, lists, trace[i].other, trace[i].store),
        trace[i].one.requeued + trace[i].other.requeued + jobs_in(trace[i].store, lists) == trace[0].one.requeued
            + trace[0].other.requeued + jobs_in(start, lists),
    decreases i,
{
    if i > 0 {
        lemma_trace(start, working_set, lists, trace, i - 1);
        let a = trace[i - 1];
        let b = trace[i];
        assert(interleaved_step(a, b));
        if recovery_step((a.one, a.store), (b.one, b.store)) && b.other == a.other {
            lemma_step(start, working_set, lists, (a.one, a.store), (b.one, b.store));
            lemma_undisturbed(start, working_set, lists, a.other, a.store, b.store);
        } else {
            lemma_step(start, working_set, lists, (a.other, a.store), (b.other, b.store));
            lemma_undisturbed(start, working_set, lists, a.one, a.store, b.store);
        }
    } else {
        assert forall|m: Text| #[trigger] lists.contains(m) && !start.set(working_set).contains(m) implies start.list(
            m,
        ).len() == 0 by {
            assert(is_stranded(start, working_set, m));
        }
    }
}

proof fn lemma_all_empty(store: Store, lists: Seq<Text>, queue_key: Text, job: Text)
    requires
        forall|i: int| 0 <= i < lists.len() ==> store.list(#[trigger] lists[i]).len() == 0,
    ensures
        jobs_in(store, lists) == 0,
        copies_for(store, lists, queue_key, job) == 0,
    decreases lists.len(),
{
    broadcast use vstd::seq_lib::group_to_multiset_ensures;

    if lists.len() > 0 {
        let init = lists.drop_last();
        assert forall|i: int| 0 <= i < init.len() implies store.list(#[trigger] init[i]).len() == 0 by {
            assert(init[i] == lists[i]);
        }
        lemma_all_empty(store, init, queue_key, job);
        let last = store.list(lists[lists.len() - 1]);
        if last.to_multiset().count(job) > 0 {
            assert(last.contains(job));
        }
    }
}

/// Two living processes may run recovery at the same time. However their commands
/// interleave, once both have come to their end, the jobs of the dead processes are
/// counted once, by the one or the other; their lists are empty and no longer recorded;
/// and each of their jobs stands on its queue as often as it stood in the lists of that
/// queue, beside the jobs that stood there.
///
/// `lists` are the recorded lists of dead processes.
pub proof fn law_two_recoveries_share_the_work<E>(
    trace: Seq<TwoRecoveries<E>>,
    one_identity: Text,
    other_identity: Text,
    working_set: Text,
    lists: Seq<Text>,
)
    requires
        interleaved_trace(trace),
        trace.len() > 0,
        trace[0].one == recovery_start::<E>(one_identity, working_set),
        trace[0].other == recovery_start::<E>(other_identity, working_set),
        trace.last().one.phase is Finished,
        trace.last().other.phase is Finished,
        trace[0].store.has_key(one_identity),
        trace[0].store.has_key(other_identity),
        are_stranded(trace[0].store, working_set, lists),
        queues_stand_apart(lists),
    ensures
        trace.last().one.phase matches RecoveryPhase::Finished(Ok(n)) && trace.last().other.phase
            matches RecoveryPhase::Finished(Ok(m)) && n + m == jobs_in(trace[0].store, lists),
        forall|list: Text|
            #[trigger] lists.contains(list) ==> trace.last().store.list(list).len() == 0 && !trace.last().store.set(
                working_set,
            ).contains(list),
        forall|queue_key: Text, job: Text|
            !lists.contains(queue_key) ==> #[trigger] trace.last().store.list(queue_key).to_multiset().count(job)
                == trace[0].store.list(queue_key).to_multiset().count(job) + copies_for(
                trace[0].store,
                lists,
                queue_key,
                job,
            ),
{
    let start = trace[0].store;
    let last = trace.last();
    lemma_trace(start, working_set, lists, trace, trace.len() - 1);
    assert forall|list: Text| #[trigger] lists.contains(list) implies is_done(last.store, working_set, list) by {
        assert(is_done(last.store, working_set, list) || last.one.members.contains(list));
    }
    assert forall|i: int| 0 <= i < lists.len() implies last.store.list(#[trigger] lists[i]).len() == 0 by {
        assert(lists.contains(lists[i]));
        assert(is_done(last.store, working_set, lists[i]));
    }
    lemma_all_empty(last.store, lists, working_set, working_set);
    assert(last.one.phase == RecoveryPhase::<E>::Finished(Ok(last.one.requeued)));
    assert(last.other.phase == RecoveryPhase::<E>::Finished(Ok(last.other.requeued)));
    assert forall|queue_key: Text, job: Text| !lists.contains(queue_key) implies #[trigger] last.store.list(
        queue_key,
    ).to_multiset().count(job) == start.list(queue_key).to_multiset().count(job) + copies_for(
        start,
        lists,
        queue_key,
        job,
    ) by {
        lemma_all_empty(last.store, lists, queue_key, job);
    }
}

} // verus!
