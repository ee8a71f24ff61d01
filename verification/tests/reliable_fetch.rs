//! Reliable fetch, recovery and requeueing, driven against a Redis in memory.

use std::collections::{BTreeMap, BTreeSet};
use std::sync::atomic::{AtomicUsize, Ordering};

use sidekiq::command::{Command, Effect, Event, Reply};
use sidekiq::config::ProcessorConfig;
use sidekiq::job::{Job, ReliableClaim, UnitOfWork};
use sidekiq::keys::WORKING_SET;
use sidekiq::processor::Processor;
use sidekiq::recovery::recover_orphaned_work;
use sidekiq::work::{reliable_ack, requeue_interrupted};

/// A Redis in memory.
#[derive(Default)]
struct Redis {
    lists: BTreeMap<String, Vec<String>>,
    sets: BTreeMap<String, BTreeSet<String>>,
    hashes: BTreeMap<String, BTreeMap<String, String>>,
    strings: BTreeMap<String, String>,
}

impl Redis {
    fn lpush(&mut self, key: &str, value: &str) {
        self.lists.entry(key.to_string()).or_default().insert(0, value.to_string());
    }

    fn list(&self, key: &str) -> Vec<String> {
        self.lists.get(key).cloned().unwrap_or_default()
    }

    fn llen(&self, key: &str) -> usize {
        self.list(key).len()
    }

    fn sadd(&mut self, set: &str, member: &str) {
        self.sets.entry(set.to_string()).or_default().insert(member.to_string());
    }

    fn sismember(&self, set: &str, member: &str) -> bool {
        self.sets.get(set).map_or(false, |s| s.contains(member))
    }

    fn mark_alive(&mut self, identity: &str) {
        self.strings.insert(identity.to_string(), "1".to_string());
    }

    fn move_last(&mut self, source: &str, destination: &str) -> Reply {
        match self.lists.entry(source.to_string()).or_default().pop() {
            Some(job) => {
                self.lpush(destination, &job);
                Reply::Moved(Some(job))
            }
            None => Reply::Moved(None),
        }
    }

    fn execute(&mut self, command: Command) -> Reply {
        match command {
            Command::Brpop { keys, .. } => {
                for key in keys {
                    if let Some(job) = self.lists.entry(key.clone()).or_default().pop() {
                        return Reply::Popped(Some((key, job)));
                    }
                }
                Reply::Popped(None)
            }
            Command::Rpoplpush { source, destination } => self.move_last(&source, &destination),
            Command::Brpoplpush { source, destination, .. } => self.move_last(&source, &destination),
            Command::Rpush { key, value } => {
                self.lists.entry(key).or_default().push(value);
                Reply::Done
            }
            Command::Lrem { key, count, value } => {
                assert_eq!(count, -1);
                let list = self.lists.entry(key).or_default();
                if let Some(i) = list.iter().rposition(|v| *v == value) {
                    list.remove(i);
                }
                Reply::Done
            }
            Command::RequeueIfInprogress { source, destination, value } => {
                let list = self.lists.entry(source).or_default();
                match list.iter().rposition(|v| *v == value) {
                    Some(i) => {
                        list.remove(i);
                        self.lists.entry(destination).or_default().push(value);
                        Reply::Flag(true)
                    }
                    None => Reply::Flag(false),
                }
            }
            Command::Sadd { key, member } => {
                self.sadd(&key, &member);
                Reply::Done
            }
            Command::Srem { key, member } => {
                self.sets.entry(key).or_default().remove(&member);
                Reply::Done
            }
            Command::Sismember { key, member } => Reply::Flag(self.sismember(&key, &member)),
            Command::Smembers { key } => {
                Reply::Members(self.sets.get(&key).map(|s| s.iter().cloned().collect()).unwrap_or_default())
            }
            Command::Exists { key } => Reply::Flag(
                self.llen(&key) > 0 || self.sets.get(&key).map_or(false, |set| !set.is_empty())
                    || self.hashes.get(&key).map_or(false, |hash| !hash.is_empty()) || self.strings.contains_key(&key),
            ),
            Command::Hset { key, field, value } => {
                self.hashes.entry(key).or_default().insert(field, value);
                Reply::Done
            }
            Command::Hdel { key, field } => {
                self.hashes.entry(key).or_default().remove(&field);
                Reply::Done
            }
            Command::Expire { .. } => Reply::Done,
        }
    }

    fn perform(&mut self, effect: Effect, at_hand: &str) -> Event<String> {
        match effect {
            Effect::Connect => Event::Connected,
            Effect::Send(Command::Brpop { keys, .. }) if keys.is_empty() => {
                Event::Failed("wrong number of arguments".to_string())
            }
            Effect::Send(command) => Event::Reply(self.execute(command)),
            Effect::Parse(raw) => match parse(&raw) {
                Ok(job) => Event::Parsed(job),
                Err(error) => Event::Failed(error),
            },
            Effect::Serialize(_) => Event::Serialized(at_hand.to_string()),
        }
    }
}

fn parse(raw: &str) -> Result<Job, String> {
    let value: serde_json::Value = serde_json::from_str(raw).map_err(|e| e.to_string())?;
    let text = |name: &str| value[name].as_str().map(|s| s.to_string()).ok_or(format!("no {name}"));
    Ok(Job { class: text("class")?, queue: text("queue")?, jid: text("jid")? })
}

fn fetch(processor: &mut Processor<u8>, redis: &mut Redis) -> Result<Option<UnitOfWork>, String> {
    let mut fetch = processor.fetch::<String>();
    while let Some(effect) = fetch.pending() {
        let event = redis.perform(effect, "");
        fetch = processor.resume_fetch(fetch, event);
    }
    fetch.outcome().expect("the fetch is over")
}

fn recover(redis: &mut Redis, my_identity: &str, working_set: &str) -> Result<usize, String> {
    let mut recovery = recover_orphaned_work::<String>(my_identity.to_string(), working_set.to_string());
    while let Some(effect) = recovery.pending() {
        recovery = recovery.resume(redis.perform(effect, ""));
    }
    recovery.outcome().expect("recovery is over")
}

fn requeue(redis: &mut Redis, work: &UnitOfWork, at_hand: &str) -> Result<bool, String> {
    let mut requeue = requeue_interrupted::<String>(work);
    while let Some(effect) = requeue.pending() {
        requeue = requeue.resume(redis.perform(effect, at_hand));
    }
    requeue.outcome().expect("the requeue is over")
}

/// Unique suffix, so that no two names are the same.
fn unique(prefix: &str) -> String {
    static NEXT: AtomicUsize = AtomicUsize::new(0);
    format!("{prefix}_{}", NEXT.fetch_add(1, Ordering::Relaxed))
}

fn payload(q: &str, jid: &str) -> String {
    format!(
        r#"{{"queue":"{q}","args":[],"retry":true,"class":"HardWorker","jid":"{jid}","created_at":1700000000.0}}"#
    )
}

fn reliable(queues: Vec<String>, identity: &str) -> Processor<u8> {
    Processor::new(queues)
        .with_config(ProcessorConfig::default().num_workers(1).reliable(true))
        .for_worker(identity.to_string(), "tid".to_string(), None)
}

#[test]
fn recover_requeues_dead_owners_jobs() {
    let mut redis = Redis::default();
    let queue_key = format!("queue:{}", unique("rf_dead"));
    let dead_owner = unique("deadhost:111");
    let member = format!("{queue_key}:inprogress:{dead_owner}");
    let working_set = unique("rf_working");

    // Two jobs left stranded in the dead process's in-progress list.
    redis.lpush(&member, "job-a");
    redis.lpush(&member, "job-b");
    redis.sadd(&working_set, &member);

    let n = recover(&mut redis, &unique("livehost:222"), &working_set).unwrap();

    assert_eq!(n, 2, "both stranded jobs should be requeued");
    assert_eq!(redis.llen(&member), 0, "in-progress list drained");
    assert_eq!(redis.llen(&queue_key), 2, "jobs moved back to the queue");
    assert!(
        !redis.sismember(&working_set, &member),
        "registry entry removed once the dead list is drained"
    );
}

#[test]
fn recover_skips_alive_owner() {
    let mut redis = Redis::default();
    let queue_key = format!("queue:{}", unique("rf_alive"));
    let owner = unique("alivehost:111");
    let member = format!("{queue_key}:inprogress:{owner}");
    let working_set = unique("rf_working");

    redis.lpush(&member, "job-a");
    redis.sadd(&working_set, &member);
    redis.mark_alive(&owner);

    let n = recover(&mut redis, &unique("livehost:222"), &working_set).unwrap();

    assert_eq!(n, 0, "an alive owner's in-flight job must not be touched");
    assert_eq!(redis.llen(&member), 1, "in-progress list left intact");
    assert!(redis.sismember(&working_set, &member), "registry entry kept");
}

#[test]
fn recover_skips_our_own_inprogress_list() {
    let mut redis = Redis::default();
    let queue_key = format!("queue:{}", unique("rf_self"));
    let me = unique("selfhost:111");
    let member = format!("{queue_key}:inprogress:{me}");
    let working_set = unique("rf_working");

    redis.lpush(&member, "job-a");
    redis.sadd(&working_set, &member);

    // There is no heartbeat here: the skip is by identity, not by liveness.
    let n = recover(&mut redis, &me, &working_set).unwrap();

    assert_eq!(n, 0, "our own list is never reclaimed");
    assert_eq!(redis.llen(&member), 1);
    assert!(redis.sismember(&working_set, &member));
}

#[test]
fn reliable_fetch_claims_into_inprogress_then_acks() {
    let mut redis = Redis::default();
    let q = unique("rf_claim");
    let queue_key = format!("queue:{q}");
    let identity = unique("claimhost:111");
    let inprogress = format!("{queue_key}:inprogress:{identity}");
    let jid = unique("jid");
    let payload = payload(&q, &jid);

    redis.lpush(&queue_key, &payload);

    let mut processor = reliable(vec![q.clone()], &identity);
    let uow = fetch(&mut processor, &mut redis).unwrap().expect("a job should be claimed");

    // The claim moved the job out of the queue and into our in-progress
    // list, and tagged the unit of work with the ack bookkeeping.
    assert_eq!(uow.job.jid, jid);
    let claim = uow.reliable.as_ref().expect("claim is reliable");
    assert_eq!(claim.inprogress_key, inprogress);
    assert_eq!(redis.llen(&queue_key), 0, "job removed from queue");
    assert_eq!(redis.llen(&inprogress), 1, "job parked in in-progress list");
    assert!(
        redis.sismember(WORKING_SET, &inprogress),
        "in-progress list registered for orphan recovery"
    );

    // Acking clears the copy so it can't be re-run by recovery.
    redis.execute(reliable_ack(claim));
    assert_eq!(redis.llen(&inprogress), 0, "ack removed the in-progress copy");
}

#[test]
fn reliable_fetch_then_recovery_returns_stranded_job_to_queue() {
    let mut redis = Redis::default();
    let q = unique("rf_e2e");
    let queue_key = format!("queue:{q}");
    let dead_identity = unique("e2ehost:111"); // never gets a heartbeat
    let inprogress = format!("{queue_key}:inprogress:{dead_identity}");
    let jid = unique("jid");
    let payload = payload(&q, &jid);

    redis.lpush(&queue_key, &payload);

    // The worker claims the job, then crashes: the job is never acked.
    let mut processor = reliable(vec![q.clone()], &dead_identity);
    let uow = fetch(&mut processor, &mut redis).unwrap().expect("a job should be claimed");
    assert_eq!(uow.job.jid, jid);
    assert_eq!(redis.llen(&queue_key), 0, "claimed out of the queue");
    assert_eq!(redis.llen(&inprogress), 1, "parked in the in-progress list");
    drop(uow);

    // A sibling process sweeps: the crashed worker has no heartbeat, so its
    // stranded job is requeued.
    recover(&mut redis, &unique("siblinghost:222"), WORKING_SET).unwrap();

    assert_eq!(redis.llen(&inprogress), 0, "in-progress list drained by recovery");
    assert_eq!(redis.llen(&queue_key), 1, "stranded job returned to its queue");
    assert!(
        !redis.sismember(WORKING_SET, &inprogress),
        "registry entry cleared once drained"
    );
    assert_eq!(redis.list(&queue_key), vec![payload]);
}

#[test]
fn requeue_interrupted_pushes_back_and_clears_inprogress() {
    let mut redis = Redis::default();
    let q = unique("rf_intr");
    let queue_key = format!("queue:{q}");
    let identity = unique("intrhost:1");
    let inprogress = format!("{queue_key}:inprogress:{identity}");
    let jid = unique("jid");
    let payload = payload(&q, &jid);

    // A reliably claimed job: its payload sits in the in-progress list and
    // the main queue is empty.
    redis.lpush(&inprogress, &payload);

    let work = UnitOfWork {
        queue: queue_key.clone(),
        job: parse(&payload).unwrap(),
        reliable: Some(ReliableClaim { inprogress_key: inprogress.clone(), job_raw: payload.clone() }),
    };
    assert_eq!(requeue(&mut redis, &work, &payload), Ok(true));

    assert_eq!(redis.llen(&queue_key), 1, "job pushed back onto its queue");
    assert_eq!(redis.llen(&inprogress), 0, "in-progress copy removed");
}

#[test]
fn requeue_interrupted_does_not_duplicate_already_recovered_job() {
    let mut redis = Redis::default();
    let q = unique("rf_intr_dup");
    let queue_key = format!("queue:{q}");
    let identity = unique("duphost:1");
    let inprogress = format!("{queue_key}:inprogress:{identity}");
    let jid = unique("jid");
    let payload = payload(&q, &jid);

    // The in-progress list is EMPTY: recovery already moved the job out.
    let work = UnitOfWork {
        queue: queue_key.clone(),
        job: parse(&payload).unwrap(),
        reliable: Some(ReliableClaim { inprogress_key: inprogress.clone(), job_raw: payload.clone() }),
    };
    assert_eq!(requeue(&mut redis, &work, &payload), Ok(false));

    assert_eq!(
        redis.llen(&queue_key),
        0,
        "must NOT requeue a job recovery already took (no duplicate)"
    );
}

#[test]
fn requeue_interrupted_brpop_job_is_pushed_back() {
    let mut redis = Redis::default();
    let q = unique("rf_intr_basic");
    let queue_key = format!("queue:{q}");
    let jid = unique("jid");
    let payload = payload(&q, &jid);

    let work = UnitOfWork { queue: queue_key.clone(), job: parse(&payload).unwrap(), reliable: None };
    assert_eq!(requeue(&mut redis, &work, &payload), Ok(true));

    assert_eq!(redis.llen(&queue_key), 1, "BRPOP job pushed back onto its queue");
    assert_eq!(redis.list(&queue_key), vec![payload]);
}

#[test]
fn recovery_keeps_the_order_of_jobs_and_puts_them_ahead() {
    let mut redis = Redis::default();
    let member = "queue:q:inprogress:dead:1";
    redis.lpush("queue:q", "waiting");
    redis.lpush(member, "first");
    redis.lpush(member, "second");
    redis.sadd("ws", member);
    assert_eq!(recover(&mut redis, "me", "ws"), Ok(2));
    assert_eq!(redis.list("queue:q"), vec!["second", "first", "waiting"]);
}

#[test]
fn recovery_drops_what_it_does_not_recognize() {
    let mut redis = Redis::default();
    redis.sadd("ws", "nonsense");
    redis.sadd("ws", "queue:q:inprogress:me");
    redis.sadd("ws", "queue:q:inprogress:dead");
    redis.lpush("queue:q:inprogress:dead", "job");
    assert_eq!(recover(&mut redis, "me", "ws"), Ok(1));
    assert!(!redis.sismember("ws", "nonsense"));
    assert!(redis.sismember("ws", "queue:q:inprogress:me"));
    assert!(!redis.sismember("ws", "queue:q:inprogress:dead"));
}

#[test]
fn recovery_ends_with_the_first_error_that_matters() {
    let start = || recover_orphaned_work::<String>("me".to_string(), "ws".to_string());
    let members = || Event::Reply(Reply::Members(vec!["queue:q:inprogress:dead".to_string(), "odd".to_string()]));

    let listing = start().resume(Event::Failed("down".to_string()));
    assert_eq!(listing.outcome(), Some(Err("down".to_string())));

    let checking = start().resume(members()).resume(Event::Failed("down".to_string()));
    assert_eq!(checking.outcome(), Some(Err("down".to_string())));

    let draining = start()
        .resume(members())
        .resume(Event::Reply(Reply::Flag(false)))
        .resume(Event::Reply(Reply::Moved(Some("job".to_string()))));
    assert_eq!(draining.requeued(), 1);
    assert_eq!(draining.resume(Event::Failed("down".to_string())).outcome(), Some(Err("down".to_string())));

    // Entries that cannot be dropped do not matter.
    let dropping = start()
        .resume(members())
        .resume(Event::Reply(Reply::Flag(false)))
        .resume(Event::Reply(Reply::Moved(Some("job".to_string()))))
        .resume(Event::Reply(Reply::Moved(None)))
        .resume(Event::Failed("down".to_string()))
        .resume(Event::Failed("down".to_string()));
    assert!(dropping.pending().is_none());
    assert_eq!(dropping.outcome(), Some(Ok(1)));
}

#[test]
fn recovery_at_boot_walks_the_working_set() {
    let processor: Processor<u8> = Processor::new(vec![]);
    let recovery = processor.run("me".to_string()).recovery::<String>();
    match recovery.pending() {
        Some(Effect::Send(Command::Smembers { key })) => assert_eq!(key, "reliable_fetch:working"),
        other => panic!("{other:?}"),
    }
}

#[test]
fn two_recoveries_at_once_lose_and_double_nothing() {
    let mut redis = Redis::default();
    let member = "queue:q:inprogress:dead:1";
    for i in 0..5 {
        redis.lpush(member, &format!("job-{i}"));
    }
    redis.sadd("ws", member);
    let mut a = recover_orphaned_work::<String>("a".to_string(), "ws".to_string());
    let mut b = recover_orphaned_work::<String>("b".to_string(), "ws".to_string());
    loop {
        let (pa, pb) = (a.pending(), b.pending());
        if pa.is_none() && pb.is_none() {
            break;
        }
        if let Some(effect) = pa {
            a = a.resume(redis.perform(effect, ""));
        }
        if let Some(effect) = pb {
            b = b.resume(redis.perform(effect, ""));
        }
    }
    let total = a.outcome().unwrap().unwrap() + b.outcome().unwrap().unwrap();
    assert_eq!(total, 5);
    let mut jobs = redis.list("queue:q");
    jobs.sort();
    assert_eq!(jobs, vec!["job-0", "job-1", "job-2", "job-3", "job-4"]);
    assert!(!redis.sismember("ws", member));
}

#[test]
fn recovery_and_requeue_never_both_put_a_job_back() {
    let mut redis = Redis::default();
    let raw = payload("q", "j1");
    redis.lpush("queue:q", &raw);
    let mut processor = reliable(vec!["q".to_string()], "host:1");
    let work = fetch(&mut processor, &mut redis).unwrap().unwrap();
    assert_eq!(recover(&mut redis, "other", WORKING_SET), Ok(1));
    assert_eq!(requeue(&mut redis, &work, &raw), Ok(false));
    assert_eq!(redis.list("queue:q"), vec![raw.clone()]);

    let work = fetch(&mut processor, &mut redis).unwrap().unwrap();
    assert_eq!(requeue(&mut redis, &work, &raw), Ok(true));
    assert_eq!(recover(&mut redis, "other", WORKING_SET), Ok(0));
    assert_eq!(redis.list("queue:q"), vec![raw]);
}

#[test]
fn reliable_fetch_takes_the_first_queue_that_has_a_job() {
    let mut redis = Redis::default();
    // One rotation turns a, b, c into c, a, b.
    let mut processor = reliable(vec!["a".to_string(), "b".to_string(), "c".to_string()], "host:1");
    redis.lpush("queue:b", &payload("b", "oldest-b"));
    redis.lpush("queue:b", &payload("b", "newest-b"));
    redis.lpush("queue:a", &payload("a", "only-a"));
    let work = fetch(&mut processor, &mut redis).unwrap().unwrap();
    assert_eq!((work.queue.as_str(), work.job.jid.as_str()), ("queue:a", "only-a"));
    // Now the order is b, c, a.
    let work = fetch(&mut processor, &mut redis).unwrap().unwrap();
    assert_eq!((work.queue.as_str(), work.job.jid.as_str()), ("queue:b", "oldest-b"));
    assert_eq!(redis.list("queue:b"), vec![payload("b", "newest-b")]);
    assert_eq!(redis.list("queue:b:inprogress:host:1"), vec![payload("b", "oldest-b")]);
}

#[test]
fn reliable_fetch_finds_nothing_in_empty_queues() {
    let mut redis = Redis::default();
    let mut processor = reliable(vec!["a".to_string(), "b".to_string()], "host:1");
    assert!(fetch(&mut processor, &mut redis).unwrap().is_none());
    let mut processor = reliable(vec![], "host:1");
    assert!(fetch(&mut processor, &mut redis).unwrap().is_none());
    assert!(redis.sets.is_empty());
}

#[test]
fn reliable_fetch_waits_at_the_first_queue() {
    let mut processor = reliable(vec!["a".to_string(), "b".to_string()], "host:1");
    let mut fetch = processor.fetch::<String>();
    fetch = processor.resume_fetch(fetch, Event::Connected);
    fetch = processor.resume_fetch(fetch, Event::Reply(Reply::Moved(None)));
    fetch = processor.resume_fetch(fetch, Event::Reply(Reply::Moved(None)));
    match fetch.pending() {
        Some(Effect::Send(Command::Brpoplpush { source, destination, timeout })) => {
            assert_eq!(source, "queue:b");
            assert_eq!(destination, "queue:b:inprogress:host:1");
            assert_eq!(timeout, 2);
        }
        other => panic!("{other:?}"),
    }
    fetch = processor.resume_fetch(fetch, Event::Reply(Reply::Moved(Some("late".to_string()))));
    match fetch.pending() {
        Some(Effect::Send(Command::Sadd { key, member })) => {
            assert_eq!(key, WORKING_SET);
            assert_eq!(member, "queue:b:inprogress:host:1");
        }
        other => panic!("{other:?}"),
    }
}

#[test]
fn a_list_is_recorded_once_and_again_after_a_failure() {
    let mut processor = reliable(vec!["q".to_string()], "host:1");
    let raw = payload("q", "j1");
    let claim = |processor: &mut Processor<u8>| {
        let fetch = processor.fetch::<String>();
        let fetch = processor.resume_fetch(fetch, Event::Connected);
        processor.resume_fetch(fetch, Event::Reply(Reply::Moved(Some(raw.clone()))))
    };
    let first = claim(&mut processor);
    assert!(matches!(first.pending(), Some(Effect::Send(Command::Sadd { .. }))));
    // The job is run although its list could not be recorded.
    let first = processor.resume_fetch(first, Event::Failed("down".to_string()));
    assert!(matches!(first.pending(), Some(Effect::Parse(_))));
    let second = claim(&mut processor);
    assert!(matches!(second.pending(), Some(Effect::Send(Command::Sadd { .. }))));
    let second = processor.resume_fetch(second, Event::Reply(Reply::Done));
    assert!(matches!(second.pending(), Some(Effect::Parse(_))));
    // From now on the list is looked up, and recorded only if it is no longer listed.
    let third = claim(&mut processor);
    match third.pending() {
        Some(Effect::Send(Command::Sismember { key, member })) => {
            assert_eq!(key, WORKING_SET);
            assert_eq!(member, "queue:q:inprogress:host:1");
        }
        other => panic!("{other:?}"),
    }
    let third = processor.resume_fetch(third, Event::Reply(Reply::Flag(true)));
    assert!(matches!(third.pending(), Some(Effect::Parse(_))));
    let fourth = claim(&mut processor);
    let fourth = processor.resume_fetch(fourth, Event::Reply(Reply::Flag(false)));
    assert!(matches!(fourth.pending(), Some(Effect::Send(Command::Sadd { .. }))));
    let fourth = processor.resume_fetch(fourth, Event::Reply(Reply::Done));
    assert!(matches!(fourth.pending(), Some(Effect::Parse(_))));
    // A list that cannot be looked up is recorded by the next claim.
    let fifth = claim(&mut processor);
    let fifth = processor.resume_fetch(fifth, Event::Failed("down".to_string()));
    assert!(matches!(fifth.pending(), Some(Effect::Parse(_))));
    let sixth = claim(&mut processor);
    assert!(matches!(sixth.pending(), Some(Effect::Send(Command::Sadd { .. }))));
}

#[test]
fn a_revived_owner_lists_its_claims_again() {
    let mut redis = Redis::default();
    let member = "queue:q:inprogress:h:1";
    let mut processor = reliable(vec!["q".to_string()], "h:1");
    redis.lpush("queue:q", &payload("q", "j1"));
    assert!(fetch(&mut processor, &mut redis).unwrap().is_some());
    assert!(redis.sismember(WORKING_SET, member));

    // The heartbeat has lapsed: another process takes the worker for dead.
    assert_eq!(recover(&mut redis, "s:2", WORKING_SET), Ok(1));
    assert!(!redis.sismember(WORKING_SET, member));

    // The worker goes on, and its next claim can be recovered too.
    assert!(fetch(&mut processor, &mut redis).unwrap().is_some());
    assert!(redis.sismember(WORKING_SET, member));
    assert_eq!(recover(&mut redis, "s:2", WORKING_SET), Ok(1));
    assert_eq!(redis.list("queue:q"), vec![payload("q", "j1")]);
}

#[test]
fn a_second_recovery_finds_nothing() {
    let mut redis = Redis::default();
    for owner in ["dead:1", "dead:2", "alive:3", "me"] {
        let member = format!("queue:q:inprogress:{owner}");
        redis.lpush(&member, &format!("job of {owner}"));
        redis.sadd("ws", &member);
    }
    redis.sadd("ws", "nonsense");
    redis.mark_alive("alive:3");
    assert_eq!(recover(&mut redis, "me", "ws"), Ok(2));
    let (lists, sets) = (redis.lists.clone(), redis.sets.clone());
    assert_eq!(recover(&mut redis, "me", "ws"), Ok(0));
    assert_eq!(redis.lists, lists);
    assert_eq!(redis.sets, sets);
}

#[test]
fn a_plain_fetch_without_queues_is_refused() {
    let mut redis = Redis::default();
    let mut processor: Processor<u8> = Processor::new(vec![]);
    assert!(fetch(&mut processor, &mut redis).is_err());
}

#[test]
fn a_job_that_cannot_be_read_stays_claimed() {
    let mut redis = Redis::default();
    redis.lpush("queue:q", "no json");
    let mut processor = reliable(vec!["q".to_string()], "host:1");
    assert!(fetch(&mut processor, &mut redis).is_err());
    assert_eq!(redis.list("queue:q:inprogress:host:1"), vec!["no json"]);
}

#[test]
fn a_fetch_ends_with_the_error_of_a_connection_or_command() {
    let mut processor = reliable(vec!["q".to_string()], "host:1");
    let fetch = processor.fetch::<String>();
    let fetch = processor.resume_fetch(fetch, Event::Failed("no connection".to_string()));
    assert_eq!(fetch.outcome().unwrap().err(), Some("no connection".to_string()));
    let fetch = processor.fetch::<String>();
    let fetch = processor.resume_fetch(fetch, Event::Connected);
    let fetch = processor.resume_fetch(fetch, Event::Failed("down".to_string()));
    assert_eq!(fetch.outcome().unwrap().err(), Some("down".to_string()));
}

#[test]
fn a_plain_fetch_takes_the_job_out_of_redis() {
    let mut redis = Redis::default();
    let mut processor: Processor<u8> = Processor::new(vec!["a".to_string(), "b".to_string()]);
    redis.lpush("queue:a", &payload("a", "j1"));
    let work = fetch(&mut processor, &mut redis).unwrap().unwrap();
    assert_eq!(work.queue, "queue:a");
    assert_eq!(work.job.jid, "j1");
    assert!(work.reliable.is_none());
    assert_eq!(redis.llen("queue:a"), 0);
    assert!(redis.sets.is_empty());
    assert!(fetch(&mut processor, &mut redis).unwrap().is_none());
}

#[test]
fn without_an_identity_the_fetch_is_plain() {
    let mut processor: Processor<u8> =
        Processor::new(vec!["a".to_string(), "b".to_string()]).with_config(ProcessorConfig::default().reliable(true));
    let fetch = processor.fetch::<String>();
    let fetch = processor.resume_fetch(fetch, Event::Connected);
    match fetch.pending() {
        Some(Effect::Send(Command::Brpop { keys, timeout })) => {
            assert_eq!(keys, vec!["queue:b", "queue:a"]);
            assert_eq!(timeout, 2);
        }
        other => panic!("{other:?}"),
    }
}

#[test]
fn a_requeue_ends_with_the_first_error() {
    let work = UnitOfWork {
        queue: "queue:q".to_string(),
        job: Job { class: "C".to_string(), queue: "q".to_string(), jid: "j".to_string() },
        reliable: None,
    };
    let failed = || Event::Failed("down".to_string());
    let start = || requeue_interrupted::<String>(&work);
    assert_eq!(start().resume(failed()).outcome(), Some(Err("down".to_string())));
    assert_eq!(start().resume(Event::Connected).resume(failed()).outcome(), Some(Err("down".to_string())));
    assert_eq!(start().job().jid, "j");
    match start().resume(Event::Connected).pending() {
        Some(Effect::Serialize(job)) => assert_eq!(job.jid, "j"),
        other => panic!("{other:?}"),
    }
    let pushing = start().resume(Event::Connected).resume(Event::Serialized("text".to_string()));
    match pushing.pending() {
        Some(Effect::Send(Command::Rpush { key, value })) => {
            assert_eq!((key.as_str(), value.as_str()), ("queue:q", "text"));
        }
        other => panic!("{other:?}"),
    }
    assert_eq!(pushing.resume(failed()).outcome(), Some(Err("down".to_string())));
}

#[test]
fn a_finished_job_is_acked_once() {
    let mut redis = Redis::default();
    for job in ["x", "y", "x"] {
        redis.lpush("list", job);
    }
    let claim = ReliableClaim { inprogress_key: "list".to_string(), job_raw: "x".to_string() };
    redis.execute(reliable_ack(&claim));
    assert_eq!(redis.list("list"), vec!["x", "y"]);
}
