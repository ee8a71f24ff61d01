//! What is recorded in Redis about a job while it runs, and what becomes of it when it
//! finishes or is interrupted.

use vstd::prelude::*;

use crate::command::{effect_view, Command, CommandView, Effect, EffectView, Event, EventView, Reply, ReplyView};
use crate::job::{claim_view, Job, JobView, ReliableClaim, ReliableClaimView, UnitOfWork, UnitOfWorkView};
use crate::keys::{queue_key, queue_key_text, Text};
use crate::outside::{
    empty_object, insert_integer, insert_text, no_fields, object_text, render_object, unix_now, ClockReading,
    Field,
};

verus! {

/// How many seconds the record of the jobs at hand outlives its last update.
pub const WORK_TTL: usize = 60;

/// The fields of the record of a job at hand. The payload is the job's JSON as a
/// string, not as a nested object.
pub open spec fn record_fields(queue: Text, payload: Text, run_at: int) -> Map<Text, Field> {
    no_fields().insert("queue"@, Field::Text(queue)).insert("payload"@, Field::Text(payload)).insert(
        "run_at"@,
        Field::Integer(run_at),
    )
}

/// The record of a job at hand, as it is stored.
pub open spec fn record_text(queue: Text, payload: Text, run_at: int) -> Text {
    object_text(record_fields(queue, payload, run_at))
}

/// The record of a job that has been at hand since `run_at`, in seconds since the Unix
/// epoch. `payload` is the job as JSON text.
pub fn work_record_at(job: &Job, payload: &str, run_at: i64) -> (record: String)
    ensures
        record@ == record_text(job.queue@, payload@, run_at as int),
{
    let mut object: serde_json::Map<String, serde_json::Value> = empty_object();
    insert_text(&mut object, "queue", job.queue.as_str());
    insert_text(&mut object, "payload", payload);
    insert_integer(&mut object, "run_at", run_at);
    render_object(object)
}

/// The record of a job that is at hand from now on.
pub fn work_record(job: &Job, payload: &str) -> (record: String)
    ensures
        exists|run_at: ClockReading| record@ == record_text(job.queue@, payload@, #[trigger] run_at@ as int),
{
    let run_at: ClockReading = unix_now();
    work_record_at(job, payload, run_at.get())
}

/// The command that takes a finished job out of its in-progress list. The text of a job
/// holds its unique id, so that the last match is exactly this job's copy.
pub open spec fn ack_command(claim: ReliableClaimView) -> CommandView {
    CommandView::Lrem { key: claim.inprogress_key, count: -1, value: claim.job_raw }
}

/// What to send when a reliably fetched job has reached its end, be it success or
/// failure: its copy is taken out of the in-progress list. If that fails, the copy
/// lingers and may be run again by recovery.
pub fn reliable_ack(claim: &ReliableClaim) -> (command: Command)
    ensures
        command@ == ack_command(claim@),
{
    Command::Lrem { key: claim.inprogress_key.clone(), count: -1, value: claim.job_raw.clone() }
}

/// Where a requeue stands.
enum RequeueStage<E> {
    /// A connection is being taken.
    Connecting,
    /// The job is being written as JSON.
    Serializing,
    /// The job is being pushed onto its queue.
    Pushing { value: String },
    /// The job is being moved from its in-progress list to its queue.
    Moving { claim: ReliableClaim },
    /// The requeue is over.
    Finished(Result<bool, E>),
}

/// The requeue of a job that was interrupted by shutdown.
pub struct Requeue<E> {
    queue_key: String,
    job: Job,
    reliable: Option<ReliableClaim>,
    stage: RequeueStage<E>,
}

/// Where a requeue stands, by its contents.
pub enum RequeuePhase<E> {
    Connecting,
    Serializing,
    Pushing { value: Text },
    Moving { claim: ReliableClaimView },
    Finished(Result<bool, E>),
}

/// A [`Requeue`] by its contents.
pub struct RequeueView<E> {
    pub queue_key: Text,
    pub job: JobView,
    pub reliable: Option<ReliableClaimView>,
    pub phase: RequeuePhase<E>,
}

impl<E> View for Requeue<E> {
    type V = RequeueView<E>;

    closed spec fn view(&self) -> RequeueView<E> {
        RequeueView {
            queue_key: self.queue_key@,
            job: self.job@,
            reliable: claim_view(self.reliable),
            phase: match self.stage {
                RequeueStage::Connecting => RequeuePhase::Connecting,
                RequeueStage::Serializing => RequeuePhase::Serializing,
                RequeueStage::Pushing { value } => RequeuePhase::Pushing { value: value@ },
                RequeueStage::Moving { claim } => RequeuePhase::Moving { claim: claim@ },
                RequeueStage::Finished(result) => RequeuePhase::Finished(result),
            },
        }
    }
}

/// The requeue of a unit of work.
pub open spec fn requeue_start<E>(work: UnitOfWorkView) -> RequeueView<E> {
    RequeueView {
        queue_key: queue_key_text(work.job.queue),
        job: work.job,
        reliable: work.reliable,
        phase: RequeuePhase::Connecting,
    }
}

/// What a requeue waits for.
pub open spec fn requeue_effect<E>(v: RequeueView<E>) -> Option<EffectView> {
    match v.phase {
        RequeuePhase::Connecting => Some(EffectView::Connect),
        RequeuePhase::Serializing => Some(EffectView::Serialize(v.job)),
        RequeuePhase::Pushing { value } => Some(EffectView::Send(CommandView::Rpush { key: v.queue_key, value })),
        RequeuePhase::Moving { claim } => Some(
            EffectView::Send(
                CommandView::RequeueIfInprogress {
                    source: claim.inprogress_key,
                    destination: v.queue_key,
                    value: claim.job_raw,
                },
            ),
        ),
        RequeuePhase::Finished(_) => None,
    }
}

/// How a requeue goes on. A job that was claimed reliably is moved back, but only if its
/// copy is still in the in-progress list: if recovery has taken it, it is not requeued a
/// second time. A job that lives only in memory is pushed back in any case. The requeue
/// ends with whether the job was put back, or with the first failure. An event that does
/// not answer the pending effect changes nothing.
pub open spec fn requeue_next<E>(v: RequeueView<E>, event: EventView<E>) -> RequeueView<E> {
    let phase = match (v.phase, event) {
        (RequeuePhase::Connecting, EventView::Connected) => match v.reliable {
            Some(claim) => RequeuePhase::Moving { claim },
            None => RequeuePhase::Serializing,
        },
        (RequeuePhase::Serializing, EventView::Serialized(value)) => RequeuePhase::Pushing { value },
        (RequeuePhase::Pushing { value }, EventView::Reply(ReplyView::Done)) => RequeuePhase::Finished(Ok(true)),
        (RequeuePhase::Moving { claim }, EventView::Reply(ReplyView::Flag(found))) => RequeuePhase::Finished(
            Ok(found),
        ),
        (RequeuePhase::Finished(_), _) => v.phase,
        (_, EventView::Failed(error)) => RequeuePhase::Finished(Err(error)),
        _ => v.phase,
    };
    RequeueView { phase, ..v }
}

/// Begins to push a job that was interrupted by shutdown back onto its queue, so that
/// a surviving process or a replacement runs it.
pub fn requeue_interrupted<E>(work: &UnitOfWork) -> (requeue: Requeue<E>)
    ensures
        requeue@ == requeue_start::<E>(work@),
{
    let reliable: Option<ReliableClaim> = match &work.reliable {
        Some(claim) => Some(claim.clone()),
        None => None,
    };
    Requeue {
        queue_key: queue_key(work.job.queue.as_str()),
        job: work.job.clone(),
        reliable,
        stage: RequeueStage::Connecting,
    }
}

impl<E> Requeue<E> {
    /// The job that is put back.
    pub fn job(&self) -> (job: &Job)
        ensures
            job@ == self@.job,
    {
        &self.job
    }

    /// What the requeue waits for, `None` once it is over.
    pub fn pending(&self) -> (effect: Option<Effect>)
        ensures
            effect_view(effect) == requeue_effect(self@),
    {
        match &self.stage {
            RequeueStage::Connecting => Some(Effect::Connect),
            RequeueStage::Serializing => Some(Effect::Serialize(self.job.clone())),
            RequeueStage::Pushing { value } => Some(
                Effect::Send(Command::Rpush { key: self.queue_key.clone(), value: value.clone() }),
            ),
            RequeueStage::Moving { claim } => Some(
                Effect::Send(
                    Command::RequeueIfInprogress {
                        source: claim.inprogress_key.clone(),
                        destination: self.queue_key.clone(),
                        value: claim.job_raw.clone(),
                    },
                ),
            ),
            RequeueStage::Finished(_) => None,
        }
    }

    /// Goes on with what came of the pending effect.
    pub fn resume(self, event: Event<E>) -> (next: Self)
        ensures
            next@ == requeue_next(self@, event@),
    {
        let Requeue { queue_key, job, reliable, stage } = self;
        let stage: RequeueStage<E> = match (stage, event) {
            (RequeueStage::Connecting, Event::Connected) => match &reliable {
                Some(claim) => RequeueStage::Moving { claim: claim.clone() },
                None => RequeueStage::Serializing,
            },
            (RequeueStage::Serializing, Event::Serialized(value)) => RequeueStage::Pushing { value },
            (RequeueStage::Pushing { value }, Event::Reply(Reply::Done)) => RequeueStage::Finished(Ok(true)),
            (RequeueStage::Moving { claim }, Event::Reply(Reply::Flag(found))) => RequeueStage::Finished(Ok(found)),
            (RequeueStage::Finished(result), _) => RequeueStage::Finished(result),
            (_, Event::Failed(error)) => RequeueStage::Finished(Err(error)),
            (stage, _) => stage,
        };
        Requeue { queue_key, job, reliable, stage }
    }

    /// Whether the job was put back (`false`: recovery already had), or the error that
    /// ended the requeue; `None` while it goes on.
    pub fn outcome(self) -> (outcome: Option<Result<bool, E>>)
        ensures
            match self@.phase {
                RequeuePhase::Finished(result) => outcome == Some(result),
                _ => outcome is None,
            },
    {
        match self.stage {
            RequeueStage::Finished(result) => Some(result),
            _ => None,
        }
    }
}

/// Where the recording of a job at hand stands.
enum SetWorkStage<E> {
    /// A connection is being taken.
    Connecting,
    /// The job is being written as JSON.
    Serializing,
    /// The record is being stored.
    Storing { record: String },
    /// The record's time to live is being set.
    Expiring,
    /// The recording is over.
    Finished(Result<(), E>),
}

/// The recording of a job at hand under the worker's process and thread.
pub struct SetWork<E> {
    key: String,
    tid: String,
    job: Job,
    stage: SetWorkStage<E>,
}

/// Where the recording of a job at hand stands, by its contents.
pub enum SetWorkPhase<E> {
    Connecting,
    Serializing,
    Storing { record: Text },
    Expiring,
    Finished(Result<(), E>),
}

/// A [`SetWork`] by its contents.
pub struct SetWorkView<E> {
    pub key: Text,
    pub tid: Text,
    pub job: JobView,
    pub phase: SetWorkPhase<E>,
}

impl<E> View for SetWork<E> {
    type V = SetWorkView<E>;

    closed spec fn view(&self) -> SetWorkView<E> {
        SetWorkView {
            key: self.key@,
            tid: self.tid@,
            job: self.job@,
            phase: match self.stage {
                SetWorkStage::Connecting => SetWorkPhase::Connecting,
                SetWorkStage::Serializing => SetWorkPhase::Serializing,
                SetWorkStage::Storing { record } => SetWorkPhase::Storing { record: record@ },
                SetWorkStage::Expiring => SetWorkPhase::Expiring,
                SetWorkStage::Finished(result) => SetWorkPhase::Finished(result),
            },
        }
    }
}

/// What the recording waits for.
pub open spec fn set_work_effect<E>(v: SetWorkView<E>) -> Option<EffectView> {
    match v.phase {
        SetWorkPhase::Connecting => Some(EffectView::Connect),
        SetWorkPhase::Serializing => Some(EffectView::Serialize(v.job)),
        SetWorkPhase::Storing { record } => Some(
            EffectView::Send(CommandView::Hset { key: v.key, field: v.tid, value: record }),
        ),
        SetWorkPhase::Expiring => Some(EffectView::Send(CommandView::Expire { key: v.key, seconds: WORK_TTL })),
        SetWorkPhase::Finished(_) => None,
    }
}

/// How the recording goes on at the time `now`. The first failure ends it. An event
/// that does not answer the pending effect changes nothing.
pub open spec fn set_work_next<E>(v: SetWorkView<E>, event: EventView<E>, now: int) -> SetWorkView<E> {
    match (v.phase, event) {
        (SetWorkPhase::Connecting, EventView::Connected) => SetWorkView { phase: SetWorkPhase::Serializing, ..v },
        (SetWorkPhase::Serializing, EventView::Serialized(payload)) => SetWorkView {
            phase: SetWorkPhase::Storing { record: record_text(v.job.queue, payload, now) },
            ..v
        },
        (SetWorkPhase::Storing { record }, EventView::Reply(ReplyView::Done)) => SetWorkView {
            phase: SetWorkPhase::Expiring,
            ..v
        },
        (SetWorkPhase::Expiring, EventView::Reply(ReplyView::Done)) => SetWorkView {
            phase: SetWorkPhase::Finished(Ok(())),
            ..v
        },
        (SetWorkPhase::Finished(_), _) => v,
        (_, EventView::Failed(error)) => SetWorkView { phase: SetWorkPhase::Finished(Err(error)), ..v },
        _ => v,
    }
}

/// Whether the time matters to how the recording goes on: it does where the record is
/// made.
pub open spec fn set_work_reads_clock<E>(v: SetWorkView<E>, event: EventView<E>) -> bool {
    v.phase is Serializing && event is Serialized
}

impl<E> SetWork<E> {
    /// Begins to record `job` as at hand under `key` for the thread `tid`.
    pub(crate) fn start(key: String, tid: String, job: Job) -> (set_work: Self)
        ensures
            set_work@ == (SetWorkView { key: key@, tid: tid@, job: job@, phase: SetWorkPhase::<E>::Connecting }),
    {
        SetWork { key, tid, job, stage: SetWorkStage::Connecting }
    }

    /// The job that is recorded.
    pub fn job(&self) -> (job: &Job)
        ensures
            job@ == self@.job,
    {
        &self.job
    }

    /// What the recording waits for, `None` once it is over.
    pub fn pending(&self) -> (effect: Option<Effect>)
        ensures
            effect_view(effect) == set_work_effect(self@),
    {
        match &self.stage {
            SetWorkStage::Connecting => Some(Effect::Connect),
            SetWorkStage::Serializing => Some(Effect::Serialize(self.job.clone())),
            SetWorkStage::Storing { record } => Some(
                Effect::Send(
                    Command::Hset { key: self.key.clone(), field: self.tid.clone(), value: record.clone() },
                ),
            ),
            SetWorkStage::Expiring => Some(
                Effect::Send(Command::Expire { key: self.key.clone(), seconds: WORK_TTL }),
            ),
            SetWorkStage::Finished(_) => None,
        }
    }

    /// Goes on, at the time `now`, with what came of the pending effect.
    pub fn resume_at(self, event: Event<E>, now: i64) -> (next: Self)
        ensures
            next@ == set_work_next(self@, event@, now as int),
    {
        let SetWork { key, tid, job, stage } = self;
        match (stage, event) {
            (SetWorkStage::Connecting, Event::Connected) => SetWork {
                key,
                tid,
                job,
                stage: SetWorkStage::Serializing,
            },
            (SetWorkStage::Serializing, Event::Serialized(payload)) => {
                let record: String = work_record_at(&job, payload.as_str(), now);
                SetWork { key, tid, job, stage: SetWorkStage::Storing { record } }
            },
            (SetWorkStage::Storing { record }, Event::Reply(Reply::Done)) => SetWork {
                key,
                tid,
                job,
                stage: SetWorkStage::Expiring,
            },
            (SetWorkStage::Expiring, Event::Reply(Reply::Done)) => SetWork {
                key,
                tid,
                job,
                stage: SetWorkStage::Finished(Ok(())),
            },
            (SetWorkStage::Finished(result), _) => SetWork { key, tid, job, stage: SetWorkStage::Finished(result) },
            (_, Event::Failed(error)) => SetWork { key, tid, job, stage: SetWorkStage::Finished(Err(error)) },
            (stage, _) => SetWork { key, tid, job, stage },
        }
    }

    /// Whether the time matters to how the recording goes on.
    pub(crate) fn reads_clock(&self, event: &Event<E>) -> (reads: bool)
        ensures
            reads == set_work_reads_clock(self@, event@),
    {
        match (&self.stage, event) {
            (SetWorkStage::Serializing, Event::Serialized(_)) => true,
            _ => false,
        }
    }

    /// Goes on, at the present time, with what came of the pending effect. The clock is
    /// read only where the record is made.
    pub fn resume(self, event: Event<E>) -> (next: Self)
        ensures
            set_work_reads_clock(self@, event@) ==> exists|now: ClockReading|
                next@ == set_work_next(self@, event@, #[trigger] now@ as int),
            !set_work_reads_clock(self@, event@) ==> forall|now: int|
                next@ == #[trigger] set_work_next(self@, event@, now),
    {
        if self.reads_clock(&event) {
            let now: ClockReading = unix_now();
            self.resume_at(event, now.get())
        } else {
            self.resume_at(event, 0)
        }
    }

    /// Whether the recording went through; `None` while it goes on.
    pub fn outcome(self) -> (outcome: Option<Result<(), E>>)
        ensures
            match self@.phase {
                SetWorkPhase::Finished(result) => outcome == Some(result),
                _ => outcome is None,
            },
    {
        match self.stage {
            SetWorkStage::Finished(result) => Some(result),
            _ => None,
        }
    }
}

} // verus!
