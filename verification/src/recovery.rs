//! Requeueing the jobs that dead processes have left behind.
//!
//! Reliable fetch moves each claimed job into a list of its own process,
//! `queue:<name>:inprogress:<identity>`, and records that list in the working set.
//! A process that dies mid-job leaves its claimed jobs there. Recovery walks the
//! working set and, for every list whose owner is no longer alive, moves the jobs
//! back onto their queue and drops the entry.
//!
//! An owner is alive while its heartbeat exists, a hash under its identity that
//! expires unless it is refreshed. Membership in the set of processes does not count:
//! it lingers after a process was killed.

use vstd::prelude::*;

use crate::command::{effect_view, Command, CommandView, Effect, EffectView, Event, EventView, Reply, ReplyView};
use crate::keys::{split_inprogress, split_text, texts, Text};

verus! {

/// Where recovery stands.
enum Phase<E> {
    /// The working set has been asked for.
    Listing,
    /// The owner of the current list has been asked for.
    Checking { queue_key: String, owner: String },
    /// The current list is being emptied onto its queue.
    Draining { queue_key: String },
    /// The current entry is being taken out of the working set.
    Dropping,
    /// Recovery is over.
    Finished(Result<usize, E>),
}

/// A walk over the working set.
pub struct Recovery<E> {
    my_identity: String,
    working_set: String,
    members: Vec<String>,
    position: usize,
    requeued: usize,
    phase: Phase<E>,
}

/// Where recovery stands, by its contents.
pub enum RecoveryPhase<E> {
    Listing,
    Checking { queue_key: Text, owner: Text },
    Draining { queue_key: Text },
    Dropping,
    Finished(Result<nat, E>),
}

/// A [`Recovery`] by its contents. `members` are the entries still to be dealt with,
/// the current one first.
pub struct RecoveryView<E> {
    pub my_identity: Text,
    pub working_set: Text,
    pub members: Seq<Text>,
    pub requeued: nat,
    pub phase: RecoveryPhase<E>,
}

impl<E> View for Recovery<E> {
    type V = RecoveryView<E>;

    closed spec fn view(&self) -> RecoveryView<E> {
        RecoveryView {
            my_identity: self.my_identity@,
            working_set: self.working_set@,
            members: texts(self.members@).skip(self.position as int),
            requeued: self.requeued as nat,
            phase: match self.phase {
                Phase::Listing => RecoveryPhase::Listing,
                Phase::Checking { queue_key, owner } => RecoveryPhase::Checking {
                    queue_key: queue_key@,
                    owner: owner@,
                },
                Phase::Draining { queue_key } => RecoveryPhase::Draining { queue_key: queue_key@ },
                Phase::Dropping => RecoveryPhase::Dropping,
                Phase::Finished(Ok(n)) => RecoveryPhase::Finished(Ok(n as nat)),
                Phase::Finished(Err(e)) => RecoveryPhase::Finished(Err(e)),
            },
        }
    }
}

/// A recovery that has asked for the working set.
pub open spec fn recovery_start<E>(my_identity: Text, working_set: Text) -> RecoveryView<E> {
    RecoveryView {
        my_identity,
        working_set,
        members: Seq::empty(),
        requeued: 0,
        phase: RecoveryPhase::Listing,
    }
}

/// Turns to the first of the entries that needs a command. An entry that is no name
/// of an in-progress list is dropped. A process never reclaims its own list. For any
/// other, its owner is asked for.
pub open spec fn recovery_turn<E>(my_identity: Text, working_set: Text, members: Seq<Text>, requeued: nat) -> RecoveryView<
    E,
>
    decreases members.len(),
{
    if members.len() == 0 {
        RecoveryView { my_identity, working_set, members, requeued, phase: RecoveryPhase::Finished(Ok(requeued)) }
    } else {
        match split_text(members[0]) {
            None => RecoveryView { my_identity, working_set, members, requeued, phase: RecoveryPhase::Dropping },
            Some((queue_key, owner)) => if owner == my_identity {
                recovery_turn(my_identity, working_set, members.drop_first(), requeued)
            } else {
                RecoveryView {
                    my_identity,
                    working_set,
                    members,
                    requeued,
                    phase: RecoveryPhase::Checking { queue_key, owner },
                }
            },
        }
    }
}

/// Turns to what follows the current entry.
pub open spec fn recovery_turn_on<E>(v: RecoveryView<E>) -> RecoveryView<E> {
    recovery_turn(v.my_identity, v.working_set, v.members.drop_first(), v.requeued)
}

/// What recovery waits for.
pub open spec fn recovery_command<E>(v: RecoveryView<E>) -> Option<CommandView> {
    match v.phase {
        RecoveryPhase::Listing => Some(CommandView::Smembers { key: v.working_set }),
        RecoveryPhase::Checking { queue_key, owner } => Some(CommandView::Exists { key: owner }),
        RecoveryPhase::Draining { queue_key } => Some(
            CommandView::Rpoplpush { source: v.members[0], destination: queue_key },
        ),
        RecoveryPhase::Dropping => Some(CommandView::Srem { key: v.working_set, member: v.members[0] }),
        RecoveryPhase::Finished(_) => None,
    }
}

/// How recovery goes on. Living owners are left alone. A dead owner's list is moved
/// job by job until it is empty, then its entry is dropped. Whether that last step
/// goes through does not matter; every other failure ends recovery. An event that
/// does not answer the pending command changes nothing.
pub open spec fn recovery_next<E>(v: RecoveryView<E>, event: EventView<E>) -> RecoveryView<E> {
    match (v.phase, event) {
        (RecoveryPhase::Listing, EventView::Reply(ReplyView::Members(members))) => recovery_turn(
            v.my_identity,
            v.working_set,
            members,
            0,
        ),
        (RecoveryPhase::Checking { queue_key, owner }, EventView::Reply(ReplyView::Flag(alive))) => if alive {
            recovery_turn_on(v)
        } else {
            RecoveryView { phase: RecoveryPhase::Draining { queue_key }, ..v }
        },
        (RecoveryPhase::Draining { queue_key }, EventView::Reply(ReplyView::Moved(Some(_)))) => RecoveryView {
            requeued: v.requeued + 1,
            ..v
        },
        (RecoveryPhase::Draining { queue_key }, EventView::Reply(ReplyView::Moved(None))) => RecoveryView {
            phase: RecoveryPhase::Dropping,
            ..v
        },
        (RecoveryPhase::Dropping, EventView::Reply(ReplyView::Done)) => recovery_turn_on(v),
        (RecoveryPhase::Dropping, EventView::Failed(_)) => recovery_turn_on(v),
        (RecoveryPhase::Finished(_), EventView::Failed(_)) => v,
        (_, EventView::Failed(error)) => RecoveryView { phase: RecoveryPhase::Finished(Err(error)), ..v },
        _ => v,
    }
}

/// Begins to requeue the jobs that dead processes have left in the in-progress lists
/// which `working_set` names. `my_identity` is the identity of the calling process.
pub fn recover_orphaned_work<E>(my_identity: String, working_set: String) -> (recovery: Recovery<E>)
    ensures
        recovery@ == recovery_start::<E>(my_identity@, working_set@),
{
    let recovery: Recovery<E> = Recovery {
        my_identity,
        working_set,
        members: Vec::new(),
        position: 0,
        requeued: 0,
        phase: Phase::Listing,
    };
    assert(recovery@.members =~= Seq::<Text>::empty());
    recovery
}

impl<E> Recovery<E> {
    /// There is a current entry wherever one is being dealt with.
    #[verifier::type_invariant]
    spec fn has_current(self) -> bool {
        &&& self.position <= self.members.len()
        &&& (self.phase is Checking || self.phase is Draining || self.phase is Dropping) ==> self.position
            < self.members.len()
    }

    /// What recovery waits for, `None` once it is over.
    pub fn pending(&self) -> (effect: Option<Effect>)
        ensures
            effect_view(effect) == match recovery_command(self@) {
                Some(command) => Some(EffectView::Send(command)),
                None => None,
            },
    {
        proof {
            use_type_invariant(self);
        }
        match &self.phase {
            Phase::Listing => Some(Effect::Send(Command::Smembers { key: self.working_set.clone() })),
            Phase::Checking { queue_key, owner } => Some(Effect::Send(Command::Exists { key: owner.clone() })),
            Phase::Draining { queue_key } => Some(
                Effect::Send(
                    Command::Rpoplpush {
                        source: self.members[self.position].clone(),
                        destination: queue_key.clone(),
                    },
                ),
            ),
            Phase::Dropping => Some(
                Effect::Send(
                    Command::Srem { key: self.working_set.clone(), member: self.members[self.position].clone() },
                ),
            ),
            Phase::Finished(_) => None,
        }
    }

    /// The number of jobs requeued so far.
    pub fn requeued(&self) -> (n: usize)
        ensures
            n == self@.requeued,
    {
        self.requeued
    }

    /// The number of jobs requeued, or the error that ended recovery; `None` while it goes on.
    pub fn outcome(self) -> (outcome: Option<Result<usize, E>>)
        ensures
            match self@.phase {
                RecoveryPhase::Finished(Ok(n)) => outcome matches Some(Ok(m)) && m == n,
                RecoveryPhase::Finished(Err(e)) => outcome == Some(Err::<usize, E>(e)),
                _ => outcome is None,
            },
    {
        match self.phase {
            Phase::Finished(result) => Some(result),
            _ => None,
        }
    }

    /// Turns to the first entry from `position` on that needs a command.
    fn turn(my_identity: String, working_set: String, members: Vec<String>, from: usize, requeued: usize) -> (next: Self)
        requires
            from <= members.len(),
        ensures
            next@ == recovery_turn::<E>(
                my_identity@,
                working_set@,
                texts(members@).skip(from as int),
                requeued as nat,
            ),
    {
        let ghost all = texts(members@);
        let mut position: usize = from;
        while position < members.len()
            invariant
                position <= members@.len(),
                all == texts(members@),
                recovery_turn::<E>(my_identity@, working_set@, all.skip(from as int), requeued as nat)
                    == recovery_turn::<E>(my_identity@, working_set@, all.skip(position as int), requeued as nat),
            decreases members@.len() - position,
        {
            let ghost rest = all.skip(position as int);
            assert(rest[0] == members@[position as int]@);
            assert(rest.drop_first() =~= all.skip(position + 1));
            match split_inprogress(members[position].as_str()) {
                None => {
                    return Recovery { my_identity, working_set, members, position, requeued, phase: Phase::Dropping };
                },
                Some((queue_key, owner)) => {
                    if owner != my_identity {
                        return Recovery {
                            my_identity,
                            working_set,
                            members,
                            position,
                            requeued,
                            phase: Phase::Checking { queue_key, owner },
                        };
                    }
                },
            }
            position = position + 1;
        }
        Recovery { my_identity, working_set, members, position, requeued, phase: Phase::Finished(Ok(requeued)) }
    }

    /// Goes on with what came of the pending command.
    pub fn resume(self, event: Event<E>) -> (next: Self)
        requires
            self@.phase is Draining ==> self@.requeued < usize::MAX,
        ensures
            next@ == recovery_next(self@, event@),
    {
        proof {
            use_type_invariant(&self);
            let rest = texts(self.members@).skip(self.position as int);
            if self.position < self.members@.len() {
                assert(rest.drop_first() =~= texts(self.members@).skip(self.position + 1));
            }
        }
        let Recovery { my_identity, working_set, members, position, requeued, phase } = self;
        match (phase, event) {
            (Phase::Listing, Event::Reply(Reply::Members(found))) => {
                assert(texts(found@).skip(0) =~= texts(found@));
                Self::turn(my_identity, working_set, found, 0, 0)
            },
            (Phase::Checking { queue_key, owner }, Event::Reply(Reply::Flag(alive))) => {
                if alive {
                    Self::turn(my_identity, working_set, members, position + 1, requeued)
                } else {
                    Recovery {
                        my_identity,
                        working_set,
                        members,
                        position,
                        requeued,
                        phase: Phase::Draining { queue_key },
                    }
                }
            },
            (Phase::Draining { queue_key }, Event::Reply(Reply::Moved(Some(_)))) => Recovery {
                my_identity,
                working_set,
                members,
                position,
                requeued: requeued + 1,
                phase: Phase::Draining { queue_key },
            },
            (Phase::Draining { queue_key }, Event::Reply(Reply::Moved(None))) => Recovery {
                my_identity,
                working_set,
                members,
                position,
                requeued,
                phase: Phase::Dropping,
            },
            (Phase::Dropping, Event::Reply(Reply::Done)) => Self::turn(
                my_identity,
                working_set,
                members,
                position + 1,
                requeued,
            ),
            (Phase::Dropping, Event::Failed(_)) => Self::turn(my_identity, working_set, members, position + 1, requeued),
            (Phase::Finished(result), _) => Recovery {
                my_identity,
                working_set,
                members,
                position,
                requeued,
                phase: Phase::Finished(result),
            },
            (_, Event::Failed(error)) => Recovery {
                my_identity,
                working_set,
                members,
                position,
                requeued,
                phase: Phase::Finished(Err(error)),
            },
            (phase, _) => Recovery { my_identity, working_set, members, position, requeued, phase },
        }
    }
}

} // verus!
