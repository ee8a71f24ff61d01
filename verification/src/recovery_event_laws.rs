//! What holds of a recovery whatever others do to Redis between its commands.

use vstd::prelude::*;

use crate::command::{CommandView, EffectView, EventView, ReplyView};
use crate::command_laws::fits;
use crate::keys::{split_text, Text};
use crate::recovery::{recovery_command, recovery_next, recovery_start, recovery_turn, RecoveryPhase, RecoveryView};

verus! {

/// Whether an entry is a list of the process itself.
pub open spec fn is_own(my_identity: Text, member: Text) -> bool {
    split_text(member) matches Some(parts) && parts.1 == my_identity
}

/// Recovery turns to an entry: `v` stands at the first of `members` that is not a list of
/// its own, and only at lists of its own did it pass by. An entry that is no in-progress
/// list is to be dropped; of any other the owner is asked for. Where there is none left,
/// recovery is over with its count.
pub open spec fn turns_to<E>(v: RecoveryView<E>, my_identity: Text, members: Seq<Text>, requeued: nat, k: int) -> bool {
    &&& 0 <= k <= members.len()
    &&& forall|i: int| 0 <= i < k ==> is_own(my_identity, #[trigger] members[i])
    &&& v.my_identity == my_identity
    &&& v.members == members.skip(k)
    &&& v.requeued == requeued
    &&& k == members.len() ==> v.phase == RecoveryPhase::<E>::Finished(Ok(requeued))
    &&& k < members.len() ==> !is_own(my_identity, members[k]) && match split_text(members[k]) {
        None => v.phase is Dropping,
        Some(parts) => v.phase == (RecoveryPhase::<E>::Checking { queue_key: parts.0, owner: parts.1 }),
    }
}

/// Recovery passes by lists of its own, and by nothing else.
pub proof fn law_recovery_passes_by_its_own_lists<E>(
    my_identity: Text,
    working_set: Text,
    members: Seq<Text>,
    requeued: nat,
) -> (k: int)
    ensures
        turns_to(recovery_turn::<E>(my_identity, working_set, members, requeued), my_identity, members, requeued, k),
        recovery_turn::<E>(my_identity, working_set, members, requeued).working_set == working_set,
    decreases members.len(),
{
    if members.len() > 0 && is_own(my_identity, members[0]) {
        let rest = members.drop_first();
        let k = law_recovery_passes_by_its_own_lists::<E>(my_identity, working_set, rest, requeued);
        assert forall|i: int| 0 <= i < k + 1 implies is_own(my_identity, #[trigger] members[i]) by {
            if i > 0 {
                assert(members[i] == rest[i - 1]);
            }
        }
        assert(rest.skip(k) =~= members.skip(k + 1));
        if k < rest.len() {
            assert(rest[k] == members[k + 1]);
        }
        k + 1
    } else {
        assert(members.skip(0) =~= members);
        0
    }
}

/// Recovery begins by asking for the working set, has requeued nothing then, and turns to
/// the entries that come back.
pub proof fn law_recovery_begins_with_the_working_set<E>(
    v: RecoveryView<E>,
    my_identity: Text,
    working_set: Text,
    members: Seq<Text>,
) -> (k: int)
    requires
        v.phase is Listing,
    ensures
        recovery_start::<E>(my_identity, working_set).phase is Listing,
        recovery_start::<E>(my_identity, working_set).my_identity == my_identity,
        recovery_start::<E>(my_identity, working_set).working_set == working_set,
        recovery_start::<E>(my_identity, working_set).requeued == 0,
        recovery_command(v) == Some(CommandView::Smembers { key: v.working_set }),
        turns_to(
            recovery_next(v, EventView::Reply(ReplyView::Members(members))),
            v.my_identity,
            members,
            0,
            k,
        ),
        recovery_next(v, EventView::Reply(ReplyView::Members(members))).working_set == v.working_set,
{
    law_recovery_passes_by_its_own_lists::<E>(v.my_identity, v.working_set, members, 0)
}

/// An owner is alive if and only if its key exists. The list of a living one is left, and
/// recovery turns to the next entry; that of a dead one is emptied, whatever else happens.
pub proof fn law_recovery_asks_for_the_owner<E>(v: RecoveryView<E>, queue_key: Text, owner: Text) -> (k: int)
    requires
        v.phase == (RecoveryPhase::<E>::Checking { queue_key, owner }),
        v.members.len() > 0,
    ensures
        recovery_command(v) == Some(CommandView::Exists { key: owner }),
        turns_to(
            recovery_next(v, EventView::Reply(ReplyView::Flag(true))),
            v.my_identity,
            v.members.drop_first(),
            v.requeued,
            k,
        ),
        recovery_next(v, EventView::Reply(ReplyView::Flag(true))).working_set == v.working_set,
        recovery_next(v, EventView::Reply(ReplyView::Flag(false))) == (RecoveryView::<E> {
            phase: RecoveryPhase::Draining { queue_key },
            ..v
        }),
{
    law_recovery_passes_by_its_own_lists::<E>(v.my_identity, v.working_set, v.members.drop_first(), v.requeued)
}

/// The list of a dead owner is emptied onto its queue job by job, each of which counts,
/// until it answers that it is empty; only then is its entry dropped.
pub proof fn law_recovery_empties_a_list<E>(v: RecoveryView<E>, queue_key: Text, job: Text)
    requires
        v.phase == (RecoveryPhase::<E>::Draining { queue_key }),
        v.members.len() > 0,
    ensures
        recovery_command(v) == Some(CommandView::Rpoplpush { source: v.members[0], destination: queue_key }),
        recovery_next(v, EventView::Reply(ReplyView::Moved(Some(job)))) == (RecoveryView::<E> {
            requeued: v.requeued + 1,
            ..v
        }),
        recovery_next(v, EventView::Reply(ReplyView::Moved(None))) == (RecoveryView::<E> {
            phase: RecoveryPhase::Dropping,
            ..v
        }),
{
}

/// The entry is dropped, and whether or not that went through, recovery turns to the next.
pub proof fn law_recovery_drops_an_entry<E>(v: RecoveryView<E>, error: E) -> (k: int)
    requires
        v.phase is Dropping,
        v.members.len() > 0,
    ensures
        recovery_command(v) == Some(CommandView::Srem { key: v.working_set, member: v.members[0] }),
        turns_to(
            recovery_next(v, EventView::Reply(ReplyView::Done)),
            v.my_identity,
            v.members.drop_first(),
            v.requeued,
            k,
        ),
        recovery_next(v, EventView::Failed(error)) == recovery_next(v, EventView::Reply(ReplyView::Done)),
        recovery_next(v, EventView::Failed(error)).working_set == v.working_set,
{
    law_recovery_passes_by_its_own_lists::<E>(v.my_identity, v.working_set, v.members.drop_first(), v.requeued)
}

/// Recovery ends with the first error, but for one of dropping an entry. Events that do not
/// answer what it waits for change nothing.
pub proof fn law_recovery_heeds_answers_only<E>(v: RecoveryView<E>, event: EventView<E>, error: E)
    ensures
        recovery_command(v) is None <==> v.phase is Finished,
        recovery_command(v) is None || !fits(EffectView::Send(recovery_command(v)->Some_0), event) ==> recovery_next(
            v,
            event,
        ) == v,
        !(v.phase is Dropping || v.phase is Finished) ==> recovery_next(v, EventView::Failed(error)) == (RecoveryView::<
            E,
        > { phase: RecoveryPhase::Finished(Err(error)), ..v }),
{
}

} // verus!
