//! Taking the next job from the queues.
//!
//! A plain fetch is a single blocking pop across all queues. The job leaves Redis the
//! instant it is popped, so a crash before it finishes loses it.
//!
//! A reliable fetch claims a job by atomically moving it into a list of this process,
//! so that it survives a crash and can be requeued by recovery. It first sweeps the
//! queues in order of priority and stops at the first job. If every queue is empty, it
//! waits at the first one, so as not to spin; the others are looked at again by the
//! next sweep.

use vstd::prelude::*;

use crate::command::{effect_view, Command, CommandView, Effect, EffectView, Event, EventView, Reply, ReplyView};
use crate::job::{copy_text, text_view, JobView, ReliableClaim, ReliableClaimView, UnitOfWork, UnitOfWorkView};
use crate::keys::{copy_strings, inprogress_key, inprogress_text, texts, Text, WORKING_SET};
use crate::string_map::StringMap;

verus! {

/// How many seconds a fetch waits for a job.
pub const FETCH_TIMEOUT: usize = 2;

/// Where a fetch stands.
enum Phase<E> {
    /// A connection is being taken.
    Connecting,
    /// The blocking pop of a plain fetch is under way.
    Popping,
    /// The queue at this position is being tried.
    Sweeping(usize),
    /// All queues were empty; the first one is being waited at.
    Blocking,
    /// A job is claimed, and its in-progress list, which was recorded before, is being
    /// looked up.
    Confirming { queue: String, inprogress: String, job_raw: String },
    /// A job is claimed, and its in-progress list is being recorded.
    Registering { queue: String, inprogress: String, job_raw: String },
    /// The text of the job is being read.
    Parsing { queue: String, claim: Option<String>, job_raw: String },
    /// The fetch is over.
    Finished(Result<Option<UnitOfWork>, E>),
}

/// A fetch under way. It is reliable if it has an identity to claim jobs for.
pub struct Fetch<E> {
    identity: Option<String>,
    queues: Vec<String>,
    phase: Phase<E>,
}

/// Where a fetch stands, by its contents.
pub enum FetchPhase<E> {
    Connecting,
    Popping,
    Sweeping(int),
    Blocking,
    Confirming { queue: Text, inprogress: Text, job_raw: Text },
    Registering { queue: Text, inprogress: Text, job_raw: Text },
    Parsing { queue: Text, claim: Option<Text>, job_raw: Text },
    Finished(Result<Option<UnitOfWorkView>, E>),
}

/// A [`Fetch`] by its contents.
pub struct FetchView<E> {
    pub identity: Option<Text>,
    pub queues: Seq<Text>,
    pub phase: FetchPhase<E>,
}

impl<E> View for Fetch<E> {
    type V = FetchView<E>;

    closed spec fn view(&self) -> FetchView<E> {
        FetchView {
            identity: text_view(self.identity),
            queues: texts(self.queues@),
            phase: match self.phase {
                Phase::Connecting => FetchPhase::Connecting,
                Phase::Popping => FetchPhase::Popping,
                Phase::Sweeping(i) => FetchPhase::Sweeping(i as int),
                Phase::Blocking => FetchPhase::Blocking,
                Phase::Confirming { queue, inprogress, job_raw } => FetchPhase::Confirming {
                    queue: queue@,
                    inprogress: inprogress@,
                    job_raw: job_raw@,
                },
                Phase::Registering { queue, inprogress, job_raw } => FetchPhase::Registering {
                    queue: queue@,
                    inprogress: inprogress@,
                    job_raw: job_raw@,
                },
                Phase::Parsing { queue, claim, job_raw } => FetchPhase::Parsing {
                    queue: queue@,
                    claim: text_view(claim),
                    job_raw: job_raw@,
                },
                Phase::Finished(Ok(Some(work))) => FetchPhase::Finished(Ok(Some(work@))),
                Phase::Finished(Ok(None)) => FetchPhase::Finished(Ok(None)),
                Phase::Finished(Err(error)) => FetchPhase::Finished(Err(error)),
            },
        }
    }
}

/// A fetch from the queues, reliable if there is an identity.
pub open spec fn fetch_start<E>(identity: Option<Text>, queues: Seq<Text>) -> FetchView<E> {
    FetchView { identity, queues, phase: FetchPhase::Connecting }
}

/// The command that claims a job from a queue.
pub open spec fn claim_command(queue: Text, identity: Text) -> CommandView {
    CommandView::Rpoplpush { source: queue, destination: inprogress_text(queue, identity) }
}

/// What a fetch waits for.
pub open spec fn fetch_effect<E>(v: FetchView<E>) -> Option<EffectView> {
    match v.phase {
        FetchPhase::Connecting => Some(EffectView::Connect),
        FetchPhase::Popping => Some(
            EffectView::Send(CommandView::Brpop { keys: v.queues, timeout: FETCH_TIMEOUT }),
        ),
        FetchPhase::Sweeping(i) => Some(EffectView::Send(claim_command(v.queues[i], v.identity->Some_0))),
        FetchPhase::Blocking => Some(
            EffectView::Send(
                CommandView::Brpoplpush {
                    source: v.queues[0],
                    destination: inprogress_text(v.queues[0], v.identity->Some_0),
                    timeout: FETCH_TIMEOUT,
                },
            ),
        ),
        FetchPhase::Confirming { queue, inprogress, job_raw } => Some(
            EffectView::Send(CommandView::Sismember { key: WORKING_SET@, member: inprogress }),
        ),
        FetchPhase::Registering { queue, inprogress, job_raw } => Some(
            EffectView::Send(CommandView::Sadd { key: WORKING_SET@, member: inprogress }),
        ),
        FetchPhase::Parsing { queue, claim, job_raw } => Some(EffectView::Parse(job_raw)),
        FetchPhase::Finished(_) => None,
    }
}

/// A job from `queue` has been claimed. Its in-progress list is recorded, unless it is
/// still listed since this worker has recorded it; `registered` are the lists that this
/// worker has recorded. Another process may have dropped one of them meanwhile, if it
/// took this process for dead.
pub open spec fn fetch_claimed<E>(v: FetchView<E>, registered: Set<Text>, queue: Text, job_raw: Text) -> (
    FetchView<E>,
    Set<Text>,
) {
    let inprogress = inprogress_text(queue, v.identity->Some_0);
    if registered.contains(inprogress) {
        (
            FetchView { phase: FetchPhase::Confirming { queue, inprogress, job_raw }, ..v },
            registered,
        )
    } else {
        (
            FetchView { phase: FetchPhase::Registering { queue, inprogress, job_raw }, ..v },
            registered.insert(inprogress),
        )
    }
}

/// How a fetch goes on, and the lists that the worker has recorded then. Where the
/// list could not be looked up or recorded, the claimed job is run all the same, and a later fetch
/// tries again. Every other failure ends the fetch. An event that does not answer the
/// pending effect changes nothing.
pub open spec fn fetch_next<E>(v: FetchView<E>, registered: Set<Text>, event: EventView<E>) -> (FetchView<E>, Set<Text>) {
    match (v.phase, event) {
        (FetchPhase::Connecting, EventView::Connected) => {
            let phase = if v.identity is None {
                FetchPhase::Popping
            } else if v.queues.len() == 0 {
                FetchPhase::Finished(Ok(None))
            } else {
                FetchPhase::Sweeping(0)
            };
            (FetchView { phase, ..v }, registered)
        },
        (FetchPhase::Popping, EventView::Reply(ReplyView::Popped(Some((queue, job_raw))))) => (
            FetchView { phase: FetchPhase::Parsing { queue, claim: None, job_raw }, ..v },
            registered,
        ),
        (FetchPhase::Popping, EventView::Reply(ReplyView::Popped(None))) => (
            FetchView { phase: FetchPhase::Finished(Ok(None)), ..v },
            registered,
        ),
        (FetchPhase::Sweeping(i), EventView::Reply(ReplyView::Moved(Some(job_raw)))) => fetch_claimed(
            v,
            registered,
            v.queues[i],
            job_raw,
        ),
        (FetchPhase::Sweeping(i), EventView::Reply(ReplyView::Moved(None))) => {
            let phase = if i + 1 < v.queues.len() {
                FetchPhase::Sweeping(i + 1)
            } else {
                FetchPhase::Blocking
            };
            (FetchView { phase, ..v }, registered)
        },
        (FetchPhase::Blocking, EventView::Reply(ReplyView::Moved(Some(job_raw)))) => fetch_claimed(
            v,
            registered,
            v.queues[0],
            job_raw,
        ),
        (FetchPhase::Blocking, EventView::Reply(ReplyView::Moved(None))) => (
            FetchView { phase: FetchPhase::Finished(Ok(None)), ..v },
            registered,
        ),
        (FetchPhase::Confirming { queue, inprogress, job_raw }, EventView::Reply(ReplyView::Flag(listed))) => {
            let phase = if listed {
                FetchPhase::Parsing { queue, claim: Some(inprogress), job_raw }
            } else {
                FetchPhase::Registering { queue, inprogress, job_raw }
            };
            (FetchView { phase, ..v }, registered)
        },
        (FetchPhase::Confirming { queue, inprogress, job_raw }, EventView::Failed(_)) => (
            FetchView { phase: FetchPhase::Parsing { queue, claim: Some(inprogress), job_raw }, ..v },
            registered.remove(inprogress),
        ),
        (FetchPhase::Registering { queue, inprogress, job_raw }, EventView::Reply(ReplyView::Done)) => (
            FetchView { phase: FetchPhase::Parsing { queue, claim: Some(inprogress), job_raw }, ..v },
            registered,
        ),
        (FetchPhase::Registering { queue, inprogress, job_raw }, EventView::Failed(_)) => (
            FetchView { phase: FetchPhase::Parsing { queue, claim: Some(inprogress), job_raw }, ..v },
            registered.remove(inprogress),
        ),
        (FetchPhase::Parsing { queue, claim, job_raw }, EventView::Parsed(job)) => (
            FetchView { phase: FetchPhase::Finished(Ok(Some(fetched_work(queue, claim, job_raw, job)))), ..v },
            registered,
        ),
        (FetchPhase::Finished(_), _) => (v, registered),
        (_, EventView::Failed(error)) => (FetchView { phase: FetchPhase::Finished(Err(error)), ..v }, registered),
        _ => (v, registered),
    }
}

/// The unit of work that a fetch comes back with.
pub open spec fn fetched_work(queue: Text, claim: Option<Text>, job_raw: Text, job: JobView) -> UnitOfWorkView {
    UnitOfWorkView {
        queue,
        job,
        reliable: match claim {
            Some(inprogress_key) => Some(ReliableClaimView { inprogress_key, job_raw }),
            None => None,
        },
    }
}

/// The content of what a fetch comes back with.
pub open spec fn work_view(work: Option<UnitOfWork>) -> Option<UnitOfWorkView> {
    match work {
        Some(w) => Some(w@),
        None => None,
    }
}

impl<E> Fetch<E> {
    /// The position of a sweep is that of a queue, and claims are made for somebody.
    #[verifier::type_invariant]
    spec fn on_course(self) -> bool {
        match self.phase {
            Phase::Sweeping(i) => i < self.queues.len() && self.identity is Some,
            Phase::Blocking => 0 < self.queues.len() && self.identity is Some,
            _ => true,
        }
    }

    /// Begins a fetch from the queues, in the order given. It claims jobs for
    /// `identity` if there is one.
    pub(crate) fn start(identity: Option<String>, queues: Vec<String>) -> (fetch: Self)
        ensures
            fetch@ == fetch_start::<E>(text_view(identity), texts(queues@)),
    {
        Fetch { identity, queues, phase: Phase::Connecting }
    }

    /// What the fetch waits for, `None` once it is over.
    pub fn pending(&self) -> (effect: Option<Effect>)
        ensures
            effect_view(effect) == fetch_effect(self@),
    {
        proof {
            use_type_invariant(self);
        }
        match (&self.phase, &self.identity) {
            (Phase::Connecting, _) => Some(Effect::Connect),
            (Phase::Popping, _) => Some(
                Effect::Send(Command::Brpop { keys: copy_strings(&self.queues), timeout: FETCH_TIMEOUT }),
            ),
            (Phase::Sweeping(i), Some(identity)) => {
                let source: String = self.queues[*i].clone();
                let destination: String = inprogress_key(source.as_str(), identity.as_str());
                Some(Effect::Send(Command::Rpoplpush { source, destination }))
            },
            (Phase::Blocking, Some(identity)) => {
                let source: String = self.queues[0].clone();
                let destination: String = inprogress_key(source.as_str(), identity.as_str());
                Some(Effect::Send(Command::Brpoplpush { source, destination, timeout: FETCH_TIMEOUT }))
            },
            (Phase::Confirming { queue, inprogress, job_raw }, _) => Some(
                Effect::Send(Command::Sismember { key: WORKING_SET.to_string(), member: inprogress.clone() }),
            ),
            (Phase::Registering { queue, inprogress, job_raw }, _) => Some(
                Effect::Send(Command::Sadd { key: WORKING_SET.to_string(), member: inprogress.clone() }),
            ),
            (Phase::Parsing { queue, claim, job_raw }, _) => Some(Effect::Parse(job_raw.clone())),
            _ => None,
        }
    }

    /// What the fetch came back with: a job, no job, or the error that ended it;
    /// `None` while it goes on.
    pub fn outcome(self) -> (outcome: Option<Result<Option<UnitOfWork>, E>>)
        ensures
            match self@.phase {
                FetchPhase::Finished(Ok(found)) => outcome matches Some(Ok(work)) && work_view(work) == found,
                FetchPhase::Finished(Err(e)) => outcome == Some(Err::<Option<UnitOfWork>, E>(e)),
                _ => outcome is None,
            },
    {
        match self.phase {
            Phase::Finished(result) => Some(result),
            _ => None,
        }
    }

    /// A job from `queue` has been claimed.
    fn claimed(self, registered: &mut StringMap<()>, queue: String, identity: &str, job_raw: String) -> (next: Self)
        requires
            text_view(self.identity) == Some(identity@),
        ensures
            (next@, final(registered)@.dom()) == fetch_claimed(self@, old(registered)@.dom(), queue@, job_raw@),
    {
        let inprogress: String = inprogress_key(queue.as_str(), identity);
        let Fetch { identity, queues, phase } = self;
        if registered.contains_key(inprogress.as_str()) {
            Fetch { identity, queues, phase: Phase::Confirming { queue, inprogress, job_raw } }
        } else {
            let _ = registered.insert(inprogress.clone(), ());
            assert(registered@.dom() =~= old(registered)@.dom().insert(inprogress@));
            Fetch { identity, queues, phase: Phase::Registering { queue, inprogress, job_raw } }
        }
    }

    /// Goes on with what came of the pending effect. `registered` are the in-progress
    /// lists that the worker has recorded.
    pub(crate) fn resume(self, registered: &mut StringMap<()>, event: Event<E>) -> (next: Self)
        ensures
            (next@, final(registered)@.dom()) == fetch_next(self@, old(registered)@.dom(), event@),
    {
        proof {
            use_type_invariant(&self);
        }
        let Fetch { identity, queues, phase } = self;
        match (phase, event) {
            (Phase::Connecting, Event::Connected) => {
                if identity.is_none() {
                    Fetch { identity, queues, phase: Phase::Popping }
                } else if queues.len() == 0 {
                    Fetch { identity, queues, phase: Phase::Finished(Ok(None)) }
                } else {
                    Fetch { identity, queues, phase: Phase::Sweeping(0) }
                }
            },
            (Phase::Popping, Event::Reply(Reply::Popped(Some((queue, job_raw))))) => Fetch {
                identity,
                queues,
                phase: Phase::Parsing { queue, claim: None, job_raw },
            },
            (Phase::Popping, Event::Reply(Reply::Popped(None))) => Fetch {
                identity,
                queues,
                phase: Phase::Finished(Ok(None)),
            },
            (Phase::Sweeping(i), Event::Reply(Reply::Moved(Some(job_raw)))) => {
                let queue: String = queues[i].clone();
                let owner: Option<String> = copy_text(&identity);
                let fetch: Self = Fetch { identity, queues, phase: Phase::Sweeping(i) };
                match owner {
                    Some(owner) => fetch.claimed(registered, queue, owner.as_str(), job_raw),
                    None => fetch,
                }
            },
            (Phase::Sweeping(i), Event::Reply(Reply::Moved(None))) => {
                let total: usize = queues.len();
                if i + 1 < total {
                    Fetch { identity, queues, phase: Phase::Sweeping(i + 1) }
                } else {
                    Fetch { identity, queues, phase: Phase::Blocking }
                }
            },
            (Phase::Blocking, Event::Reply(Reply::Moved(Some(job_raw)))) => {
                let queue: String = queues[0].clone();
                let owner: Option<String> = copy_text(&identity);
                let fetch: Self = Fetch { identity, queues, phase: Phase::Blocking };
                match owner {
                    Some(owner) => fetch.claimed(registered, queue, owner.as_str(), job_raw),
                    None => fetch,
                }
            },
            (Phase::Blocking, Event::Reply(Reply::Moved(None))) => Fetch {
                identity,
                queues,
                phase: Phase::Finished(Ok(None)),
            },
            (Phase::Confirming { queue, inprogress, job_raw }, Event::Reply(Reply::Flag(listed))) => {
                let phase: Phase<E> = if listed {
                    Phase::Parsing { queue, claim: Some(inprogress), job_raw }
                } else {
                    Phase::Registering { queue, inprogress, job_raw }
                };
                Fetch { identity, queues, phase }
            },
            (Phase::Confirming { queue, inprogress, job_raw }, Event::Failed(_)) => {
                let _ = registered.remove(inprogress.as_str());
                assert(registered@.dom() =~= old(registered)@.dom().remove(inprogress@));
                Fetch { identity, queues, phase: Phase::Parsing { queue, claim: Some(inprogress), job_raw } }
            },
            (Phase::Registering { queue, inprogress, job_raw }, Event::Reply(Reply::Done)) => Fetch {
                identity,
                queues,
                phase: Phase::Parsing { queue, claim: Some(inprogress), job_raw },
            },
            (Phase::Registering { queue, inprogress, job_raw }, Event::Failed(_)) => {
                let _ = registered.remove(inprogress.as_str());
                assert(registered@.dom() =~= old(registered)@.dom().remove(inprogress@));
                Fetch { identity, queues, phase: Phase::Parsing { queue, claim: Some(inprogress), job_raw } }
            },
            (Phase::Parsing { queue, claim, job_raw }, Event::Parsed(job)) => {
                let reliable: Option<ReliableClaim> = match claim {
                    Some(inprogress_key) => Some(ReliableClaim { inprogress_key, job_raw }),
                    None => None,
                };
                Fetch { identity, queues, phase: Phase::Finished(Ok(Some(UnitOfWork { queue, job, reliable }))) }
            },
            (Phase::Finished(result), _) => Fetch { identity, queues, phase: Phase::Finished(result) },
            (_, Event::Failed(error)) => Fetch { identity, queues, phase: Phase::Finished(Err(error)) },
            (phase, _) => Fetch { identity, queues, phase },
        }
    }
}

} // verus!
