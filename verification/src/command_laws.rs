//! That contracts speak of all that a value holds, and which events answer which effects.

use core::time::Duration;
use vstd::prelude::*;

use crate::command::{effect_view, Command, CommandView, Effect, EffectView, Event, EventView, Reply, ReplyView};
use crate::fetch::work_view;
use crate::job::{claim_view, text_view, Job, PeriodicJob, ReliableClaim, UnitOfWork};
use crate::keys::texts;
use crate::periodic::{registration_effect_view, RegistrationEffect, RegistrationEffectView};
use crate::process_run::{process_effect_view, ProcessEffect, ProcessEffectView, ProcessEvent, ProcessEventView};
use crate::processor::{name_view, periodic_views};
use crate::run::{Announcement, LaunchStep, LaunchStepView, Routine};
use crate::tick::{TickEvent, TickEventView};
use crate::tick_run::{tick_effect_view, TickEffect, TickEffectView, TickRunEvent, TickRunEventView};

verus! {

/// Whether an event answers an effect, be it by a failure.
pub open spec fn fits<E>(effect: EffectView, event: EventView<E>) -> bool {
    event is Failed || match effect {
        EffectView::Connect => event is Connected,
        EffectView::Parse(_) => event is Parsed,
        EffectView::Serialize(_) => event is Serialized,
        EffectView::Send(command) => event matches EventView::Reply(reply) && match command {
            CommandView::Brpop { .. } => reply is Popped,
            CommandView::Rpoplpush { .. } => reply is Moved,
            CommandView::Brpoplpush { .. } => reply is Moved,
            CommandView::RequeueIfInprogress { .. } => reply is Flag,
            CommandView::Sismember { .. } => reply is Flag,
            CommandView::Exists { .. } => reply is Flag,
            CommandView::Smembers { .. } => reply is Members,
            _ => reply is Done,
        },
    }
}

/// The contents of several strings are those of each, in their order.
pub proof fn law_texts_show_each_string(strings: Seq<String>)
    ensures
        texts(strings).len() == strings.len(),
        forall|i: int| 0 <= i < strings.len() ==> #[trigger] texts(strings)[i] == strings[i]@,
{
}

/// What is optional is there in a contract if and only if it is there.
pub proof fn law_options_show_what_is_there(
    text: String,
    claim: ReliableClaim,
    work: UnitOfWork,
    effect: Effect,
    tick_effect: TickEffect,
    process_effect: ProcessEffect,
    registration_effect: RegistrationEffect,
    name: &str,
)
    ensures
        text_view(Some(text)) == Some(text@) && text_view(None) is None,
        claim_view(Some(claim)) == Some(claim@) && claim_view(None) is None,
        work_view(Some(work)) == Some(work@) && work_view(None) is None,
        effect_view(Some(effect)) == Some(effect@) && effect_view(None) is None,
        tick_effect_view(Some(tick_effect)) == Some(tick_effect@) && tick_effect_view(None) is None,
        process_effect_view(Some(process_effect)) == Some(process_effect@) && process_effect_view(None) is None,
        registration_effect_view(Some(registration_effect)) == Some(registration_effect@) && registration_effect_view(
            None,
        ) is None,
        name_view(Some(name)) == Some(name@) && name_view(None) is None,
{
}

/// Jobs are shown with all of their fields.
pub proof fn law_jobs_are_shown_whole(
    job: Job,
    claim: ReliableClaim,
    work: UnitOfWork,
    periodic: PeriodicJob,
    several: Seq<PeriodicJob>,
)
    ensures
        job@.class == job.class@ && job@.queue == job.queue@ && job@.jid == job.jid@,
        claim@.inprogress_key == claim.inprogress_key@ && claim@.job_raw == claim.job_raw@,
        work@.queue == work.queue@ && work@.job == work.job@,
        work@.reliable is Some <==> work.reliable is Some,
        work.reliable matches Some(c) ==> work@.reliable == Some(c@),
        periodic@.name == periodic.name@ && periodic@.class == periodic.class@ && periodic@.cron == periodic.cron@,
        periodic.queue matches Some(queue) ==> periodic@.queue == Some(queue@),
        periodic@.queue is Some <==> periodic.queue is Some,
        periodic.args matches Some(args) ==> periodic@.args == Some(args@),
        periodic@.args is Some <==> periodic.args is Some,
        periodic_views(several).len() == several.len(),
        forall|i: int| 0 <= i < several.len() ==> #[trigger] periodic_views(several)[i] == several[i]@,
{
}

/// Commands are shown with all of their fields, as the commands that they are.
pub proof fn law_commands_are_shown_whole(
    a: String,
    b: String,
    c: String,
    keys: Vec<String>,
    number: usize,
    count: i64,
)
    ensures
        (Command::Brpop { keys, timeout: number })@ == (CommandView::Brpop { keys: texts(keys@), timeout: number }),
        (Command::Rpoplpush { source: a, destination: b })@ == (CommandView::Rpoplpush {
            source: a@,
            destination: b@,
        }),
        (Command::Brpoplpush { source: a, destination: b, timeout: number })@ == (CommandView::Brpoplpush {
            source: a@,
            destination: b@,
            timeout: number,
        }),
        (Command::Rpush { key: a, value: b })@ == (CommandView::Rpush { key: a@, value: b@ }),
        (Command::Lrem { key: a, count, value: b })@ == (CommandView::Lrem { key: a@, count: count as int, value: b@ }),
        (Command::RequeueIfInprogress { source: a, destination: b, value: c })@ == (
        CommandView::RequeueIfInprogress { source: a@, destination: b@, value: c@ }),
        (Command::Sadd { key: a, member: b })@ == (CommandView::Sadd { key: a@, member: b@ }),
        (Command::Srem { key: a, member: b })@ == (CommandView::Srem { key: a@, member: b@ }),
        (Command::Sismember { key: a, member: b })@ == (CommandView::Sismember { key: a@, member: b@ }),
        (Command::Smembers { key: a })@ == (CommandView::Smembers { key: a@ }),
        (Command::Exists { key: a })@ == (CommandView::Exists { key: a@ }),
        (Command::Hset { key: a, field: b, value: c })@ == (CommandView::Hset { key: a@, field: b@, value: c@ }),
        (Command::Hdel { key: a, field: b })@ == (CommandView::Hdel { key: a@, field: b@ }),
        (Command::Expire { key: a, seconds: number })@ == (CommandView::Expire { key: a@, seconds: number }),
{
}

/// Effects and what comes of them are shown with all that they hold.
pub proof fn law_events_are_shown_whole<E>(
    command: Command,
    reply: Reply,
    job: Job,
    text: String,
    other: String,
    members: Vec<String>,
    flag: bool,
    error: E,
)
    ensures
        Effect::Connect@ is Connect,
        Effect::Send(command)@ == EffectView::Send(command@),
        Effect::Parse(text)@ == EffectView::Parse(text@),
        Effect::Serialize(job)@ == EffectView::Serialize(job@),
        Event::<E>::Connected@ is Connected,
        Event::<E>::Reply(reply)@ == EventView::<E>::Reply(reply@),
        Event::<E>::Parsed(job)@ == EventView::<E>::Parsed(job@),
        Event::<E>::Serialized(text)@ == EventView::<E>::Serialized(text@),
        Event::<E>::Failed(error)@ == EventView::<E>::Failed(error),
        Reply::Popped(Some((text, other)))@ == ReplyView::Popped(Some((text@, other@))),
        Reply::Popped(None)@ == ReplyView::Popped(None),
        Reply::Moved(Some(text))@ == ReplyView::Moved(Some(text@)),
        Reply::Moved(None)@ == ReplyView::Moved(None),
        Reply::Members(members)@ == ReplyView::Members(texts(members@)),
        Reply::Flag(flag)@ == ReplyView::Flag(flag),
        Reply::Done@ is Done,
{
}

/// What comes of the effects of ticks and of the processing of a job is shown with all
/// that it holds.
pub proof fn law_tick_events_are_shown_whole<E>(
    work: UnitOfWork,
    effect: Effect,
    tick_effect: TickEffect,
    event: Event<E>,
    tick_event: TickRunEvent<E>,
    grace: Duration,
    result: Result<(), E>,
    error: E,
    flag: bool,
)
    ensures
        TickEvent::<E>::Fetched(Ok(Some(work)))@ == TickEventView::<E>::Fetched(Ok(Some(work@))),
        TickEvent::<E>::Fetched(Ok(None))@ == TickEventView::<E>::Fetched(Ok(None)),
        TickEvent::<E>::Fetched(Err(error))@ == TickEventView::<E>::Fetched(Err(error)),
        TickEvent::<E>::JobEnded(result)@ == TickEventView::<E>::JobEnded(result),
        TickEvent::<E>::ShutdownSignalled@ is ShutdownSignalled,
        TickEvent::<E>::GraceElapsed@ is GraceElapsed,
        TickEvent::<E>::Performed@ is Performed,
        TickEffect::Redis(effect)@ == TickEffectView::Redis(effect@),
        TickEffect::Yield@ is Yield,
        TickEffect::RunJob@ is RunJob,
        TickEffect::AwaitJob(grace)@ == TickEffectView::AwaitJob(grace),
        TickRunEvent::<E>::Redis(event)@ == TickRunEventView::<E>::Redis(event@),
        TickRunEvent::<E>::Yielded@ is Yielded,
        TickRunEvent::<E>::JobEnded(result)@ == TickRunEventView::<E>::JobEnded(result),
        TickRunEvent::<E>::ShutdownSignalled@ is ShutdownSignalled,
        TickRunEvent::<E>::GraceElapsed@ is GraceElapsed,
        ProcessEffect::CheckCancelled@ is CheckCancelled,
        ProcessEffect::Tick(tick_effect)@ == ProcessEffectView::Tick(tick_effect@),
        ProcessEvent::<E>::Cancelled(flag)@ == ProcessEventView::<E>::Cancelled(flag),
        ProcessEvent::<E>::Tick(tick_event)@ == ProcessEventView::<E>::Tick(tick_event@),
{
}

/// What a run starts and announces is shown with all that it holds.
pub proof fn law_steps_are_shown_whole(
    announcement: Announcement,
    num: usize,
    queue: String,
    routine: Routine,
    periodic: PeriodicJob,
)
    ensures
        announcement@.hostname == announcement.hostname@,
        announcement@.queues == texts(announcement.queues@),
        announcement@.concurrency == announcement.concurrency,
        LaunchStep::PublishHeartbeat@ is PublishHeartbeat,
        LaunchStep::RecoverOrphans@ is RecoverOrphans,
        (LaunchStep::SpawnWorker { num, dedicated: None })@ == (LaunchStepView::SpawnWorker {
            num: num as int,
            dedicated: None,
        }),
        (LaunchStep::SpawnWorker { num, dedicated: Some(queue) })@ == (LaunchStepView::SpawnWorker {
            num: num as int,
            dedicated: Some(queue@),
        }),
        LaunchStep::SpawnRoutine(routine)@ == LaunchStepView::SpawnRoutine(routine),
        LaunchStep::Join@ is Join,
        RegistrationEffect::Connect@ is Connect,
        RegistrationEffect::Store(periodic)@ == RegistrationEffectView::Store(periodic@),
{
}

} // verus!
