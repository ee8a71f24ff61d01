//! What recovery does to Redis as a whole.

use vstd::prelude::*;

use crate::command::{EventView, ReplyView};
use crate::keys::{
    inprogress_text, law_owner_holds_no_marker, law_split_is_at_the_last_marker, split_text, Text, MARKER,
};
use crate::recovery::{
    recovery_command, recovery_next, recovery_start, recovery_turn, RecoveryPhase, RecoveryView,
};
use crate::store::{enumerates, executes, keeps_jobs, Store};

verus! {

/// The store with all jobs of `list` back on their queue, ahead of those that wait
/// there and in the order that they had.
pub open spec fn drained(store: Store, list: Text, queue_key: Text) -> Store {
    if store.list(list).len() == 0 {
        store
    } else {
        store.with_list(list, Seq::empty()).with_list(queue_key, store.list(list) + store.list(queue_key))
    }
}

/// The store without an entry of the working set.
pub open spec fn dropped(store: Store, working_set: Text, member: Text) -> Store {
    store.with_set(working_set, store.set(working_set).remove(member))
}

/// What recovery makes of one entry of the working set, and how many jobs it requeues.
pub open spec fn recover_member(store: Store, my_identity: Text, working_set: Text, member: Text) -> (Store, nat) {
    match split_text(member) {
        None => (dropped(store, working_set, member), 0),
        Some((queue_key, owner)) => if owner == my_identity || store.has_key(owner) {
            (store, 0)
        } else {
            (dropped(drained(store, member, queue_key), working_set, member), store.list(member).len())
        },
    }
}

/// What recovery makes of several entries, one after the other.
pub open spec fn recover_members(store: Store, my_identity: Text, working_set: Text, members: Seq<Text>) -> (Store, nat)
    decreases members.len(),
{
    if members.len() == 0 {
        (store, 0)
    } else {
        let first = recover_member(store, my_identity, working_set, members[0]);
        let rest = recover_members(first.0, my_identity, working_set, members.drop_first());
        (rest.0, first.1 + rest.1)
    }
}

/// One command of recovery, answered by Redis.
pub open spec fn recovery_step<E>(a: (RecoveryView<E>, Store), b: (RecoveryView<E>, Store)) -> bool {
    &&& recovery_command(a.0) is Some
    &&& exists|reply: ReplyView|
        #[trigger] executes(a.1, recovery_command(a.0)->Some_0, b.1, reply) && b.0 == recovery_next(
            a.0,
            EventView::Reply(reply),
        )
}

/// A course of recovery on a Redis that nobody else uses meanwhile.
pub open spec fn recovery_trace<E>(trace: Seq<(RecoveryView<E>, Store)>) -> bool {
    forall|i: int| #![trigger trace[i]] 0 < i < trace.len() ==> recovery_step(trace[i - 1], trace[i])
}

/// The current entry is what the phase takes it for.
spec fn on_course<E>(v: RecoveryView<E>) -> bool {
    match v.phase {
        RecoveryPhase::Listing => false,
        RecoveryPhase::Checking { queue_key, owner } => {
            &&& v.members.len() > 0
            &&& split_text(v.members[0]) == Some((queue_key, owner))
            &&& owner != v.my_identity
        },
        RecoveryPhase::Draining { queue_key } => {
            &&& v.members.len() > 0
            &&& split_text(v.members[0]) matches Some(parts)
            &&& parts.0 == queue_key
        },
        RecoveryPhase::Dropping => v.members.len() > 0,
        RecoveryPhase::Finished(result) => result is Ok,
    }
}

/// The store and the count that recovery will end with.
spec fn ending<E>(v: RecoveryView<E>, store: Store) -> (Store, nat) {
    match v.phase {
        RecoveryPhase::Draining { queue_key } => {
            let after = dropped(drained(store, v.members[0], queue_key), v.working_set, v.members[0]);
            let rest = recover_members(after, v.my_identity, v.working_set, v.members.drop_first());
            (rest.0, v.requeued + store.list(v.members[0]).len() + rest.1)
        },
        RecoveryPhase::Dropping => {
            let after = dropped(store, v.working_set, v.members[0]);
            let rest = recover_members(after, v.my_identity, v.working_set, v.members.drop_first());
            (rest.0, v.requeued + rest.1)
        },
        RecoveryPhase::Finished(Ok(n)) => (store, n),
        _ => {
            let rest = recover_members(store, v.my_identity, v.working_set, v.members);
            (rest.0, v.requeued + rest.1)
        },
    }
}

proof fn lemma_turn<E>(my_identity: Text, working_set: Text, members: Seq<Text>, requeued: nat, store: Store)
    ensures
        ({
            let v = recovery_turn::<E>(my_identity, working_set, members, requeued);
            let all = recover_members(store, my_identity, working_set, members);
            &&& on_course(v)
            &&& v.my_identity == my_identity
            &&& v.working_set == working_set
            &&& v.members.len() <= members.len()
            &&& ending(v, store) == (all.0, requeued + all.1)
        }),
    decreases members.len(),
{
    if members.len() > 0 {
        match split_text(members[0]) {
            Some((queue_key, owner)) => {
                if owner == my_identity {
                    lemma_turn::<E>(my_identity, working_set, members.drop_first(), requeued, store);
                }
            },
            None => {},
        }
    }
}

/// Moving one job of a list brings the store nearer to the one with the whole list moved.
proof fn lemma_drain_one(store: Store, list: Text, queue_key: Text)
    requires
        list != queue_key,
        store.list(list).len() > 0,
    ensures
        drained(store.moved(list, queue_key), list, queue_key) == drained(store, list, queue_key),
        store.moved(list, queue_key).list(list) == store.list(list).drop_last(),
{
    let jobs = store.list(list);
    let next = store.moved(list, queue_key);
    let front = seq![jobs.last()];
    assert(next.list(queue_key) == front + store.list(queue_key));
    assert(jobs =~= jobs.drop_last() + front);
    assert(jobs + store.list(queue_key) =~= jobs.drop_last() + (front + store.list(queue_key)));
    if jobs.len() == 1 {
        assert(jobs.drop_last() =~= Seq::empty());
        assert(jobs =~= front);
    }
    let a = drained(next, list, queue_key);
    let b = drained(store, list, queue_key);
    assert(a.lists =~= b.lists);
    assert(a =~= b);
}

proof fn lemma_list_is_not_its_queue(member: Text)
    ensures
        split_text(member) matches Some(parts) ==> parts.0 != member,
{
    law_split_is_at_the_last_marker(member);
    reveal_strlit(":inprogress:");
    match split_text(member) {
        Some(parts) => {
            assert(inprogress_text(parts.0, parts.1).len() == parts.0.len() + MARKER@.len() + parts.1.len());
        },
        None => {},
    }
}

/// What recovery will end with does not change on the way, and each command brings
/// the end nearer.
proof fn lemma_step<E>(a: (RecoveryView<E>, Store), b: (RecoveryView<E>, Store))
    requires
        on_course(a.0),
        recovery_step(a, b),
    ensures
        on_course(b.0),
        ending(b.0, b.1) == ending(a.0, a.1),
        nearer(a, b),
{
    let (v, store) = a;
    let command = recovery_command(v)->Some_0;
    let reply = choose|reply: ReplyView|
        #[trigger] executes(a.1, command, b.1, reply) && b.0 == recovery_next(a.0, EventView::Reply(reply));
    lemma_list_is_not_its_queue(v.members[0]);
    match v.phase {
        RecoveryPhase::Checking { queue_key, owner } => {
            if store.has_key(owner) {
                lemma_turn::<E>(v.my_identity, v.working_set, v.members.drop_first(), v.requeued, store);
            }
        },
        RecoveryPhase::Draining { queue_key } => {
            if store.list(v.members[0]).len() > 0 {
                lemma_drain_one(store, v.members[0], queue_key);
            }
        },
        RecoveryPhase::Dropping => {
            lemma_turn::<E>(v.my_identity, v.working_set, v.members.drop_first(), v.requeued, b.1);
        },
        _ => {},
    }
}

/// How much there is still to do for the current entry.
pub open spec fn remaining<E>(v: RecoveryView<E>, store: Store) -> nat {
    match v.phase {
        RecoveryPhase::Checking { queue_key, owner } => store.list(v.members[0]).len() + 3,
        RecoveryPhase::Draining { queue_key } => store.list(v.members[0]).len() + 2,
        RecoveryPhase::Dropping => 1,
        _ => 0,
    }
}

/// Whether less is left to do in `b` than in `a`: fewer entries, or as many with less
/// to do for the current one.
pub open spec fn nearer<E>(a: (RecoveryView<E>, Store), b: (RecoveryView<E>, Store)) -> bool {
    ||| b.0.members.len() < a.0.members.len()
    ||| b.0.members.len() == a.0.members.len() && remaining(b.0, b.1) < remaining(a.0, a.1)
}

proof fn lemma_trace<E>(trace: Seq<(RecoveryView<E>, Store)>, i: int)
    requires
        recovery_trace(trace),
        0 < i < trace.len(),
        on_course(trace[1].0),
    ensures
        on_course(trace[i].0),
        ending(trace[i].0, trace[i].1) == ending(trace[1].0, trace[1].1),
    decreases i,
{
    if i > 1 {
        lemma_trace(trace, i - 1);
        lemma_step(trace[i - 1], trace[i]);
    }
}

proof fn lemma_first_step<E>(trace: Seq<(RecoveryView<E>, Store)>, my_identity: Text, working_set: Text) -> (members: Seq<Text>)
    requires
        recovery_trace(trace),
        trace.len() > 1,
        trace[0].0 == recovery_start::<E>(my_identity, working_set),
    ensures
        enumerates(members, trace[0].1.set(working_set)),
        trace[1].1 == trace[0].1,
        trace[1].0 == recovery_turn::<E>(my_identity, working_set, members, 0),
{
    assert(recovery_step(trace[0], trace[1]));
    let command = recovery_command(trace[0].0)->Some_0;
    let reply = choose|reply: ReplyView|
        #[trigger] executes(trace[0].1, command, trace[1].1, reply) && trace[1].0 == recovery_next(
            trace[0].0,
            EventView::Reply(reply),
        );
    choose|members: Seq<Text>|
        #[trigger] enumerates(members, trace[0].1.set(working_set)) && reply == ReplyView::Members(members)
}

/// Recovery that comes to its end has dealt with every entry of the working set, in
/// the order in which Redis listed them, as `recover_member` says, and counts the jobs
/// that it has requeued.
pub proof fn law_recovery_deals_with_every_entry<E>(
    trace: Seq<(RecoveryView<E>, Store)>,
    my_identity: Text,
    working_set: Text,
) -> (members: Seq<Text>)
    requires
        recovery_trace(trace),
        trace.len() > 0,
        trace[0].0 == recovery_start::<E>(my_identity, working_set),
        trace.last().0.phase is Finished,
    ensures
        enumerates(members, trace[0].1.set(working_set)),
        ({
            let (store, n) = recover_members(trace[0].1, my_identity, working_set, members);
            trace.last().1 == store && trace.last().0.phase == RecoveryPhase::<E>::Finished(Ok(n))
        }),
{
    let members = lemma_first_step(trace, my_identity, working_set);
    lemma_turn::<E>(my_identity, working_set, members, 0, trace[0].1);
    lemma_trace(trace, trace.len() - 1);
    members
}

/// Recovery comes to an end: once the entries are known, each command leaves fewer of
/// them, or as many with less to do for the current one.
pub proof fn law_recovery_comes_to_an_end<E>(
    trace: Seq<(RecoveryView<E>, Store)>,
    my_identity: Text,
    working_set: Text,
    i: int,
)
    requires
        recovery_trace(trace),
        trace[0].0 == recovery_start::<E>(my_identity, working_set),
        1 < i < trace.len(),
    ensures
        nearer(trace[i - 1], trace[i]),
{
    let members = lemma_first_step(trace, my_identity, working_set);
    lemma_turn::<E>(my_identity, working_set, members, 0, trace[0].1);
    lemma_trace(trace, i - 1);
    lemma_step(trace[i - 1], trace[i]);
}

/// The list of a dead owner is emptied, its jobs stand on their queue, ahead of the
/// others and in their order, and the entry is gone; no other list changes. All of its
/// jobs are counted.
pub proof fn law_dead_owners_jobs_are_requeued(
    store: Store,
    my_identity: Text,
    working_set: Text,
    member: Text,
    queue_key: Text,
    owner: Text,
)
    requires
        split_text(member) == Some((queue_key, owner)),
        owner != my_identity,
        !store.has_key(owner),
    ensures
        ({
            let (after, n) = recover_member(store, my_identity, working_set, member);
            &&& n == store.list(member).len()
            &&& after.list(member) == Seq::<Text>::empty()
            &&& after.list(queue_key) == store.list(member) + store.list(queue_key)
            &&& forall|name: Text| name != member && name != queue_key ==> #[trigger] after.list(name) == store.list(name)
            &&& after.set(working_set) == store.set(working_set).remove(member)
        }),
{
    lemma_list_is_not_its_queue(member);
    if store.list(member).len() == 0 {
        assert(store.list(member) =~= Seq::<Text>::empty());
        assert(store.list(member) + store.list(queue_key) =~= store.list(queue_key));
    }
}

/// A process never reclaims its own list, and leaves those of living owners alone.
pub proof fn law_own_and_living_lists_are_left_alone(
    store: Store,
    my_identity: Text,
    working_set: Text,
    member: Text,
    queue_key: Text,
    owner: Text,
)
    requires
        split_text(member) == Some((queue_key, owner)),
        owner == my_identity || store.has_key(owner),
    ensures
        recover_member(store, my_identity, working_set, member) == (store, 0nat),
{
}

/// An entry that names no in-progress list is dropped, and nothing else changes.
pub proof fn law_unrecognized_entries_are_dropped(store: Store, my_identity: Text, working_set: Text, member: Text)
    requires
        split_text(member) is None,
    ensures
        recover_member(store, my_identity, working_set, member) == (
            store.with_set(working_set, store.set(working_set).remove(member)),
            0nat,
        ),
{
}

/// Recovery only sends commands that keep every job in Redis. Whatever else runs
/// beside it, it loses no job and doubles none.
pub proof fn law_recovery_keeps_jobs<E>(v: RecoveryView<E>)
    ensures
        recovery_command(v) matches Some(command) ==> keeps_jobs(command),
{
}

/// Whether recovery leaves an entry as it is: the list is its own, or its owner lives.
pub open spec fn left_alone(store: Store, my_identity: Text, member: Text) -> bool {
    split_text(member) matches Some(parts) && (parts.1 == my_identity || store.has_key(parts.1))
}

/// Dealing with one entry leaves those alone that were left alone before, as far as they
/// are still listed.
proof fn lemma_still_left_alone(store: Store, my_identity: Text, working_set: Text, member: Text, other: Text)
    requires
        left_alone(store, my_identity, other),
        recover_member(store, my_identity, working_set, member).0.set(working_set).contains(other),
    ensures
        left_alone(recover_member(store, my_identity, working_set, member).0, my_identity, other),
{
    let after = recover_member(store, my_identity, working_set, member).0;
    let owner = split_text(other)->Some_0.1;
    law_owner_holds_no_marker(other);
    law_split_is_at_the_last_marker(member);
    if owner != my_identity {
        assert(after.hash(owner) == store.hash(owner));
        if owner == working_set {
            assert(after.set(owner).contains(other));
        } else {
            assert(after.set(owner) == store.set(owner));
        }
        assert(store.list(owner).len() > 0 ==> after.list(owner).len() > 0);
        assert(after.has_key(owner));
    }
}

/// What is still listed once entries were dealt with, was listed before; if it was left
/// alone before, or was one of the entries, it is left alone.
proof fn lemma_left_alone(store: Store, my_identity: Text, working_set: Text, members: Seq<Text>, other: Text)
    requires
        recover_members(store, my_identity, working_set, members).0.set(working_set).contains(other),
    ensures
        store.set(working_set).contains(other),
        left_alone(store, my_identity, other) || members.contains(other) ==> left_alone(
            recover_members(store, my_identity, working_set, members).0,
            my_identity,
            other,
        ),
    decreases members.len(),
{
    if members.len() > 0 {
        let member = members[0];
        let next = recover_member(store, my_identity, working_set, member).0;
        let rest = members.drop_first();
        lemma_left_alone(next, my_identity, working_set, rest, other);
        if left_alone(store, my_identity, other) {
            lemma_still_left_alone(store, my_identity, working_set, member, other);
        }
        if members.contains(other) && other != member {
            let i = choose|i: int| 0 <= i < members.len() && members[i] == other;
            assert(rest[i - 1] == other);
        }
    }
}

/// Where all entries are left alone, recovery changes nothing.
proof fn lemma_nothing_to_recover(store: Store, my_identity: Text, working_set: Text, members: Seq<Text>)
    requires
        forall|i: int| 0 <= i < members.len() ==> left_alone(store, my_identity, #[trigger] members[i]),
    ensures
        recover_members(store, my_identity, working_set, members) == (store, 0nat),
    decreases members.len(),
{
    if members.len() > 0 {
        let rest = members.drop_first();
        assert forall|i: int| 0 <= i < rest.len() implies left_alone(store, my_identity, #[trigger] rest[i]) by {
            assert(rest[i] == members[i + 1]);
        }
        assert(left_alone(store, my_identity, members[0]));
        lemma_nothing_to_recover(store, my_identity, working_set, rest);
    }
}

/// A recovery right after another one by the same process requeues nothing and changes
/// nothing.
pub proof fn law_second_recovery_changes_nothing<E>(
    first: Seq<(RecoveryView<E>, Store)>,
    second: Seq<(RecoveryView<E>, Store)>,
    my_identity: Text,
    working_set: Text,
)
    requires
        recovery_trace(first),
        first.len() > 0,
        first[0].0 == recovery_start::<E>(my_identity, working_set),
        first.last().0.phase is Finished,
        recovery_trace(second),
        second.len() > 0,
        second[0].0 == recovery_start::<E>(my_identity, working_set),
        second[0].1 == first.last().1,
        second.last().0.phase is Finished,
    ensures
        second.last().1 == first.last().1,
        second.last().0.phase == RecoveryPhase::<E>::Finished(Ok(0)),
{
    let members = law_recovery_deals_with_every_entry(first, my_identity, working_set);
    let again = law_recovery_deals_with_every_entry(second, my_identity, working_set);
    let store = first.last().1;
    assert forall|i: int| 0 <= i < again.len() implies left_alone(store, my_identity, #[trigger] again[i]) by {
        assert(again.to_set().contains(again[i]));
        lemma_left_alone(first[0].1, my_identity, working_set, members, again[i]);
        assert(members.to_set().contains(again[i]));
    }
    lemma_nothing_to_recover(store, my_identity, working_set, again);
}

} // verus!
