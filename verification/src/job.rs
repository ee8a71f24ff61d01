//! Jobs as the processor handles them.

use vstd::prelude::*;

use crate::keys::Text;

verus! {

/// What the processor reads of a job: the worker class it is for, the queue it
/// belongs to, and its unique id.
#[derive(Debug)]
pub struct Job {
    pub class: String,
    pub queue: String,
    pub jid: String,
}

/// A [`Job`] by its contents.
pub struct JobView {
    pub class: Text,
    pub queue: Text,
    pub jid: Text,
}

impl View for Job {
    type V = JobView;

    open spec fn view(&self) -> JobView {
        JobView { class: self.class@, queue: self.queue@, jid: self.jid@ }
    }
}

impl Clone for Job {
    fn clone(&self) -> (copy: Self)
        ensures
            copy@ == self@,
    {
        Job { class: self.class.clone(), queue: self.queue.clone(), jid: self.jid.clone() }
    }
}

/// A job claimed by reliable fetch: the in-progress list that holds its copy, and
/// the copy's exact text.
#[derive(Debug)]
pub struct ReliableClaim {
    pub inprogress_key: String,
    pub job_raw: String,
}

/// A [`ReliableClaim`] by its contents.
pub struct ReliableClaimView {
    pub inprogress_key: Text,
    pub job_raw: Text,
}

impl View for ReliableClaim {
    type V = ReliableClaimView;

    open spec fn view(&self) -> ReliableClaimView {
        ReliableClaimView { inprogress_key: self.inprogress_key@, job_raw: self.job_raw@ }
    }
}

impl Clone for ReliableClaim {
    fn clone(&self) -> (copy: Self)
        ensures
            copy@ == self@,
    {
        ReliableClaim { inprogress_key: self.inprogress_key.clone(), job_raw: self.job_raw.clone() }
    }
}

/// A job taken from a queue, with the claim on it where it was fetched reliably.
#[derive(Debug)]
pub struct UnitOfWork {
    pub queue: String,
    pub job: Job,
    pub reliable: Option<ReliableClaim>,
}

/// A [`UnitOfWork`] by its contents.
pub struct UnitOfWorkView {
    pub queue: Text,
    pub job: JobView,
    pub reliable: Option<ReliableClaimView>,
}

impl View for UnitOfWork {
    type V = UnitOfWorkView;

    open spec fn view(&self) -> UnitOfWorkView {
        UnitOfWorkView {
            queue: self.queue@,
            job: self.job@,
            reliable: claim_view(self.reliable),
        }
    }
}

/// The content of an optional claim.
pub open spec fn claim_view(claim: Option<ReliableClaim>) -> Option<ReliableClaimView> {
    match claim {
        Some(c) => Some(c@),
        None => None,
    }
}

/// A job that is enqueued on a schedule.
#[derive(Debug)]
pub struct PeriodicJob {
    pub name: String,
    pub class: String,
    pub cron: String,
    pub queue: Option<String>,
    pub args: Option<String>,
}

/// A [`PeriodicJob`] by its contents.
pub struct PeriodicJobView {
    pub name: Text,
    pub class: Text,
    pub cron: Text,
    pub queue: Option<Text>,
    pub args: Option<Text>,
}

/// The content of an optional string.
pub open spec fn text_view(text: Option<String>) -> Option<Text> {
    match text {
        Some(t) => Some(t@),
        None => None,
    }
}

/// A copy of an optional string.
pub fn copy_text(text: &Option<String>) -> (copy: Option<String>)
    ensures
        text_view(copy) == text_view(*text),
{
    match text {
        Some(t) => Some(t.clone()),
        None => None,
    }
}

impl View for PeriodicJob {
    type V = PeriodicJobView;

    open spec fn view(&self) -> PeriodicJobView {
        PeriodicJobView {
            name: self.name@,
            class: self.class@,
            cron: self.cron@,
            queue: text_view(self.queue),
            args: text_view(self.args),
        }
    }
}

impl Clone for PeriodicJob {
    fn clone(&self) -> (copy: Self)
        ensures
            copy@ == self@,
    {
        PeriodicJob {
            name: self.name.clone(),
            class: self.class.clone(),
            cron: self.cron.clone(),
            queue: copy_text(&self.queue),
            args: copy_text(&self.args),
        }
    }
}

} // verus!
