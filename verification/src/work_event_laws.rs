//! What holds of requeueing a job and of recording it, whatever others do to Redis between
//! the effects.

use vstd::prelude::*;

use crate::command::{CommandView, EffectView, EventView, ReplyView};
use crate::command_laws::fits;
use crate::job::{PeriodicJobView, ReliableClaimView, UnitOfWorkView};
use crate::keys::{queue_key_text, Text};
use crate::outside::{object_text, Field};
use crate::periodic::{
    registration_effect, registration_next, registration_start, RegistrationEffectView, RegistrationEvent,
    RegistrationPhase, RegistrationView,
};
use crate::work::{
    ack_command, record_fields, record_text, requeue_effect, requeue_next, requeue_start, set_work_effect, set_work_next,
    set_work_reads_clock, RequeuePhase, RequeueView, SetWorkPhase, SetWorkView,
};

verus! {

/// The record of a job at hand is the JSON text of an object with three fields and no
/// others: the queue and the payload as strings, and the time as a number.
pub proof fn law_record_has_three_fields(queue: Text, payload: Text, run_at: int, object: Map<Text, Field>)
    requires
        forall|name: Text| #[trigger]
            object.contains_key(name) <==> name == "queue"@ || name == "payload"@ || name == "run_at"@,
        object["queue"@] == Field::Text(queue),
        object["payload"@] == Field::Text(payload),
        object["run_at"@] == Field::Integer(run_at),
    ensures
        record_text(queue, payload, run_at) == object_text(object),
{
    reveal_strlit("queue");
    reveal_strlit("payload");
    reveal_strlit("run_at");
    assert("queue"@.len() == 5 && "payload"@.len() == 7 && "run_at"@.len() == 6);
    assert(object =~= record_fields(queue, payload, run_at));
}

/// An acknowledged job is taken out of its list by its text, one copy from the end.
pub proof fn law_ack_names_list_and_text(claim: ReliableClaimView)
    ensures
        ack_command(claim) matches CommandView::Lrem { key, count, value } && key == claim.inprogress_key && count == -1
            && value == claim.job_raw,
{
}

/// A requeue begins by taking a connection, for the queue that the job names.
pub proof fn law_requeue_begins_with_its_work<E>(work: UnitOfWorkView)
    ensures
        ({
            let v = requeue_start::<E>(work);
            &&& v.queue_key == queue_key_text(work.job.queue)
            &&& v.job == work.job
            &&& v.reliable == work.reliable
            &&& v.phase is Connecting
        }),
{
}

/// Once connected, a claimed job is moved from its list to its queue, by its text, in one
/// step that says whether it was still there; that is the result. Any other job is written
/// as text, and that text is put at the end of its queue; the result is that it was put
/// back.
pub proof fn law_requeue_moves_or_pushes<E>(v: RequeueView<E>, found: bool, text: Text)
    requires
        v.phase is Connecting,
    ensures
        requeue_effect(v) == Some(EffectView::Connect),
        ({
            let connected = requeue_next(v, EventView::Connected);
            &&& v.reliable matches Some(claim) ==> {
                &&& requeue_effect(connected) == Some(
                    EffectView::Send(
                        CommandView::RequeueIfInprogress {
                            source: claim.inprogress_key,
                            destination: v.queue_key,
                            value: claim.job_raw,
                        },
                    ),
                )
                &&& requeue_next(connected, EventView::Reply(ReplyView::Flag(found))).phase == RequeuePhase::<
                    E,
                >::Finished(Ok(found))
            }
            &&& v.reliable is None ==> {
                let written = requeue_next(connected, EventView::Serialized(text));
                &&& requeue_effect(connected) == Some(EffectView::Serialize(v.job))
                &&& requeue_effect(written) == Some(
                    EffectView::Send(CommandView::Rpush { key: v.queue_key, value: text }),
                )
                &&& requeue_next(written, EventView::Reply(ReplyView::Done)).phase == RequeuePhase::<E>::Finished(
                    Ok(true),
                )
            }
        }),
{
}

/// The steps of a requeue do not depend on how it came to them.
pub proof fn law_requeue_steps<E>(v: RequeueView<E>, found: bool, text: Text)
    ensures
        v.phase matches RequeuePhase::Moving { claim } ==> {
            &&& requeue_effect(v) == Some(
                EffectView::Send(
                    CommandView::RequeueIfInprogress {
                        source: claim.inprogress_key,
                        destination: v.queue_key,
                        value: claim.job_raw,
                    },
                ),
            )
            &&& requeue_next(v, EventView::Reply(ReplyView::Flag(found))).phase == RequeuePhase::<E>::Finished(
                Ok(found),
            )
        },
        v.phase is Serializing ==> {
            &&& requeue_effect(v) == Some(EffectView::Serialize(v.job))
            &&& requeue_next(v, EventView::Serialized(text)).phase == (RequeuePhase::<E>::Pushing { value: text })
        },
        v.phase matches RequeuePhase::Pushing { value } ==> {
            &&& requeue_effect(v) == Some(EffectView::Send(CommandView::Rpush { key: v.queue_key, value }))
            &&& requeue_next(v, EventView::Reply(ReplyView::Done)).phase == RequeuePhase::<E>::Finished(Ok(true))
        },
{
}

/// A requeue ends with the first error. Events that do not answer what it waits for change
/// nothing, and none changes what it is about.
pub proof fn law_requeue_heeds_answers_only<E>(v: RequeueView<E>, event: EventView<E>, error: E)
    ensures
        requeue_effect(v) is None <==> v.phase is Finished,
        requeue_effect(v) is None || !fits(requeue_effect(v)->Some_0, event) ==> requeue_next(v, event) == v,
        !(v.phase is Finished) ==> requeue_next(v, EventView::Failed(error)).phase == RequeuePhase::<E>::Finished(
            Err(error),
        ),
        requeue_next(v, event).queue_key == v.queue_key,
        requeue_next(v, event).job == v.job,
        requeue_next(v, event).reliable == v.reliable,
{
}

/// A job at hand is recorded in four steps: a connection is taken, the job is written as
/// text, the record with that text and the present time is stored under the worker's
/// process and thread, and the records of the process are let live for a minute.
pub proof fn law_recording_takes_four_steps<E>(v: SetWorkView<E>, payload: Text, now: int, later: int)
    requires
        v.phase is Connecting,
    ensures
        set_work_effect(v) == Some(EffectView::Connect),
        ({
            let connected = set_work_next(v, EventView::Connected, later);
            let written = set_work_next(connected, EventView::Serialized(payload), now);
            let stored = set_work_next(written, EventView::Reply(ReplyView::Done), later);
            let over = set_work_next(stored, EventView::Reply(ReplyView::Done), later);
            &&& set_work_effect(connected) == Some(EffectView::Serialize(v.job))
            &&& set_work_effect(written) == Some(
                EffectView::Send(
                    CommandView::Hset {
                        key: v.key,
                        field: v.tid,
                        value: record_text(v.job.queue, payload, now),
                    },
                ),
            )
            &&& set_work_effect(stored) == Some(
                EffectView::Send(CommandView::Expire { key: v.key, seconds: 60 }),
            )
            &&& over.phase == SetWorkPhase::<E>::Finished(Ok(()))
        }),
{
}

/// The steps of a recording do not depend on how it came to them.
pub proof fn law_recording_steps<E>(v: SetWorkView<E>, payload: Text, now: int)
    ensures
        v.phase is Serializing ==> {
            &&& set_work_effect(v) == Some(EffectView::Serialize(v.job))
            &&& set_work_next(v, EventView::Serialized(payload), now).phase == (SetWorkPhase::<E>::Storing {
                record: record_text(v.job.queue, payload, now),
            })
        },
        v.phase matches SetWorkPhase::Storing { record } ==> {
            &&& set_work_effect(v) == Some(
                EffectView::Send(CommandView::Hset { key: v.key, field: v.tid, value: record }),
            )
            &&& set_work_next(v, EventView::Reply(ReplyView::Done), now).phase is Expiring
        },
        v.phase is Expiring ==> {
            &&& set_work_effect(v) == Some(EffectView::Send(CommandView::Expire { key: v.key, seconds: 60 }))
            &&& set_work_next(v, EventView::Reply(ReplyView::Done), now).phase == SetWorkPhase::<E>::Finished(Ok(()))
        },
{
}

/// A recording ends with the first error. Events that do not answer what it waits for
/// change nothing, and none changes what it is about. The time matters to nothing but the
/// record, and is read for it.
pub proof fn law_recording_heeds_answers_only<E>(v: SetWorkView<E>, event: EventView<E>, error: E, now: int, later: int)
    ensures
        set_work_effect(v) is None <==> v.phase is Finished,
        set_work_effect(v) is None || !fits(set_work_effect(v)->Some_0, event) ==> set_work_next(v, event, now) == v,
        !(v.phase is Finished) ==> set_work_next(v, EventView::Failed(error), now).phase == SetWorkPhase::<
            E,
        >::Finished(Err(error)),
        set_work_next(v, event, now).key == v.key,
        set_work_next(v, event, now).tid == v.tid,
        set_work_next(v, event, now).job == v.job,
        !(set_work_next(v, event, now).phase is Storing) ==> set_work_next(v, event, now) == set_work_next(
            v,
            event,
            later,
        ),
        set_work_next(v, event, now).phase is Storing && !(v.phase is Storing) ==> set_work_reads_clock(v, event),
{
}

/// A registration takes a connection, then stores the very job that it was begun with.
/// It ends with the first error. Events that do not answer what it waits for change
/// nothing.
pub proof fn law_registration_steps<E>(
    job: PeriodicJobView,
    v: RegistrationView<E>,
    event: RegistrationEvent<E>,
    error: E,
)
    ensures
        registration_start::<E>(job).job == job && registration_start::<E>(job).phase is Connecting,
        registration_next(v, event).job == v.job,
        v.phase is Connecting ==> {
            &&& registration_effect(v) == Some(RegistrationEffectView::Connect)
            &&& registration_next(v, RegistrationEvent::Connected).phase is Storing
            &&& event is Stored ==> registration_next(v, event) == v
        },
        v.phase is Storing ==> {
            &&& registration_effect(v) == Some(RegistrationEffectView::Store(v.job))
            &&& registration_next(v, RegistrationEvent::Stored).phase == RegistrationPhase::<E>::Finished(Ok(()))
            &&& event is Connected ==> registration_next(v, event) == v
        },
        v.phase is Finished ==> registration_effect(v) is None && registration_next(v, event) == v,
        !(v.phase is Finished) ==> registration_next(v, RegistrationEvent::Failed(error)).phase == RegistrationPhase::<
            E,
        >::Finished(Err(error)),
{
}

} // verus!
