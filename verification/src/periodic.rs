//! Storing a job that is enqueued on a schedule.

use vstd::prelude::*;

use crate::job::{PeriodicJob, PeriodicJobView};

verus! {

/// Where a registration stands.
enum Stage<E> {
    /// A connection is being taken.
    Connecting,
    /// The job is being stored.
    Storing,
    /// The registration is over.
    Finished(Result<(), E>),
}

/// The registration of a periodic job.
pub struct Registration<E> {
    job: PeriodicJob,
    stage: Stage<E>,
}

/// Where a registration stands, by its contents.
pub enum RegistrationPhase<E> {
    Connecting,
    Storing,
    Finished(Result<(), E>),
}

/// A [`Registration`] by its contents.
pub struct RegistrationView<E> {
    pub job: PeriodicJobView,
    pub phase: RegistrationPhase<E>,
}

impl<E> View for Registration<E> {
    type V = RegistrationView<E>;

    closed spec fn view(&self) -> RegistrationView<E> {
        RegistrationView {
            job: self.job@,
            phase: match self.stage {
                Stage::Connecting => RegistrationPhase::Connecting,
                Stage::Storing => RegistrationPhase::Storing,
                Stage::Finished(result) => RegistrationPhase::Finished(result),
            },
        }
    }
}

/// What a registration waits for.
#[derive(Debug)]
pub enum RegistrationEffect {
    /// Take a connection from the pool.
    Connect,
    /// Store the job on that connection.
    Store(PeriodicJob),
}

/// A [`RegistrationEffect`] by its contents.
pub enum RegistrationEffectView {
    Connect,
    Store(PeriodicJobView),
}

impl View for RegistrationEffect {
    type V = RegistrationEffectView;

    open spec fn view(&self) -> RegistrationEffectView {
        match self {
            RegistrationEffect::Connect => RegistrationEffectView::Connect,
            RegistrationEffect::Store(job) => RegistrationEffectView::Store(job@),
        }
    }
}

/// The content of an optional effect.
pub open spec fn registration_effect_view(effect: Option<RegistrationEffect>) -> Option<RegistrationEffectView> {
    match effect {
        Some(e) => Some(e@),
        None => None,
    }
}

/// What came of it. `E` is the error of the driver.
#[derive(Debug)]
pub enum RegistrationEvent<E> {
    Connected,
    Stored,
    Failed(E),
}

/// A registration that begins.
pub open spec fn registration_start<E>(job: PeriodicJobView) -> RegistrationView<E> {
    RegistrationView { job, phase: RegistrationPhase::Connecting }
}

/// What a registration waits for.
pub open spec fn registration_effect<E>(v: RegistrationView<E>) -> Option<RegistrationEffectView> {
    match v.phase {
        RegistrationPhase::Connecting => Some(RegistrationEffectView::Connect),
        RegistrationPhase::Storing => Some(RegistrationEffectView::Store(v.job)),
        RegistrationPhase::Finished(_) => None,
    }
}

/// How a registration goes on. The first failure ends it. An event that does not answer
/// the pending effect changes nothing.
pub open spec fn registration_next<E>(v: RegistrationView<E>, event: RegistrationEvent<E>) -> RegistrationView<E> {
    let phase = match (v.phase, event) {
        (RegistrationPhase::Connecting, RegistrationEvent::Connected) => RegistrationPhase::Storing,
        (RegistrationPhase::Storing, RegistrationEvent::Stored) => RegistrationPhase::Finished(Ok(())),
        (RegistrationPhase::Finished(_), _) => v.phase,
        (_, RegistrationEvent::Failed(error)) => RegistrationPhase::Finished(Err(error)),
        _ => v.phase,
    };
    RegistrationView { phase, ..v }
}

impl<E> Registration<E> {
    /// Begins to store the job.
    pub(crate) fn start(job: PeriodicJob) -> (registration: Self)
        ensures
            registration@ == registration_start::<E>(job@),
    {
        Registration { job, stage: Stage::Connecting }
    }

    /// What the registration waits for, `None` once it is over.
    pub fn pending(&self) -> (effect: Option<RegistrationEffect>)
        ensures
            registration_effect_view(effect) == registration_effect(self@),
    {
        match &self.stage {
            Stage::Connecting => Some(RegistrationEffect::Connect),
            Stage::Storing => Some(RegistrationEffect::Store(self.job.clone())),
            Stage::Finished(_) => None,
        }
    }

    /// Goes on with what came of the pending effect.
    pub fn resume(self, event: RegistrationEvent<E>) -> (next: Self)
        ensures
            next@ == registration_next(self@, event),
    {
        let Registration { job, stage } = self;
        let stage: Stage<E> = match (stage, event) {
            (Stage::Connecting, RegistrationEvent::Connected) => Stage::Storing,
            (Stage::Storing, RegistrationEvent::Stored) => Stage::Finished(Ok(())),
            (Stage::Finished(result), _) => Stage::Finished(result),
            (_, RegistrationEvent::Failed(error)) => Stage::Finished(Err(error)),
            (stage, _) => stage,
        };
        Registration { job, stage }
    }

    /// Whether the job was stored; `None` while the registration goes on.
    pub fn outcome(self) -> (outcome: Option<Result<(), E>>)
        ensures
            match self@.phase {
                RegistrationPhase::Finished(result) => outcome == Some(result),
                _ => outcome is None,
            },
    {
        match self.stage {
            Stage::Finished(result) => Some(result),
            _ => None,
        }
    }
}

/// Whether `event` answers `effect`, be it by a failure.
pub open spec fn answers_registration<E>(effect: RegistrationEffectView, event: RegistrationEvent<E>) -> bool {
    match effect {
        RegistrationEffectView::Connect => event is Connected || event is Failed,
        RegistrationEffectView::Store(_) => event is Stored || event is Failed,
    }
}

/// A course of a registration, with the events that answered its effects.
pub open spec fn registration_course<E>(course: Seq<RegistrationView<E>>, events: Seq<RegistrationEvent<E>>) -> bool {
    &&& course.len() == events.len() + 1
    &&& forall|i: int|
        #![trigger events[i]]
        0 <= i < events.len() ==> {
            &&& registration_effect(course[i]) is Some
            &&& answers_registration(registration_effect(course[i])->Some_0, events[i])
            &&& course[i + 1] == registration_next(course[i], events[i])
        }
}

/// A registration takes one connection, then stores its job once, and ends without an
/// error if and only if both succeed.
pub proof fn law_registration_stores_its_job_once<E>(
    job: PeriodicJobView,
    course: Seq<RegistrationView<E>>,
    events: Seq<RegistrationEvent<E>>,
)
    requires
        registration_course(course, events),
        course[0] == registration_start::<E>(job),
        course.last().phase is Finished,
    ensures
        course.last().phase == RegistrationPhase::<E>::Finished(Ok(())) <==> {
            &&& events.len() == 2
            &&& events[0] is Connected
            &&& events[1] is Stored
        },
        forall|i: int|
            0 <= i < course.len() ==> (registration_effect(#[trigger] course[i]) matches Some(effect) ==> effect == (
            if i == 0 {
                RegistrationEffectView::Connect
            } else {
                RegistrationEffectView::Store(job)
            }) && i <= 1),
        events.len() <= 2,
        forall|i: int|
            0 <= i < events.len() ==> (#[trigger] events[i] matches RegistrationEvent::Failed(error)
                ==> course.last().phase == RegistrationPhase::<E>::Finished(Err(error))),
{
    if events.len() > 0 {
        assert(course[1] == registration_next(course[0], events[0]));
    }
    if events.len() > 1 {
        assert(course[2] == registration_next(course[1], events[1]));
    }
    if events.len() > 2 {
        assert(answers_registration(registration_effect(course[2])->Some_0, events[2]));
    }
}

} // verus!
