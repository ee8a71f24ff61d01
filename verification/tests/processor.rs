//! Setting a processor up, recording its work, running ticks and starting everything.

use std::time::Duration;

use sidekiq::command::{Command, Effect, Event, Reply};
use sidekiq::config::{BalanceStrategy, ProcessorConfig, QueueConfig};
use sidekiq::job::{Job, PeriodicJob, UnitOfWork};
use sidekiq::periodic::{RegistrationEffect, RegistrationEvent};
use sidekiq::process_run::{ProcessEffect, ProcessEvent};
use sidekiq::processor::Processor;
use sidekiq::run::{
    sorted_sets, LaunchStep, Routine, RoutineAction, RoutineEvent, RoutineState, WorkerEvent, WorkerLoop,
};
use sidekiq::string_map::StringMap;
use sidekiq::tick::WorkFetcher;
use sidekiq::tick_run::{TickEffect, TickRun, TickRunEvent};
use sidekiq::work::{work_record, work_record_at, SetWork};

fn names(names: &[&str]) -> Vec<String> {
    names.iter().map(|s| s.to_string()).collect()
}

fn unit() -> UnitOfWork {
    UnitOfWork {
        queue: "queue:q".to_string(),
        job: Job { class: "HardWorker".to_string(), queue: "q".to_string(), jid: "j1".to_string() },
        reliable: None,
    }
}

#[test]
fn work_record_matches_sidekiq_shape() {
    let raw = r#"{"queue":"default","args":[1,"x"],"retry":true,"class":"HardWorker","jid":"abc123","created_at":1700000000.0}"#;
    let parsed: serde_json::Value = serde_json::from_str(raw).expect("parse job");
    let job = Job {
        class: parsed["class"].as_str().expect("parse job").to_string(),
        queue: parsed["queue"].as_str().expect("parse job").to_string(),
        jid: parsed["jid"].as_str().expect("parse job").to_string(),
    };
    let payload = serde_json::to_string(&parsed).expect("build record");

    let record: serde_json::Value =
        serde_json::from_str(&work_record(&job, &payload)).expect("parse record");

    assert_eq!(record["queue"], "default");
    assert!(record["run_at"].is_number());

    // `payload` must be a JSON *string* (the job JSON), not a nested object.
    let payload = record["payload"].as_str().expect("payload is a string");
    let payload: serde_json::Value = serde_json::from_str(payload).expect("parse payload");
    assert_eq!(payload["class"], "HardWorker");
    assert_eq!(payload["jid"], "abc123");
    assert_eq!(payload["args"][1], "x");
    assert!(payload["args"][0].is_number());
}

#[test]
fn work_record_is_compact_json() {
    let record = work_record_at(&unit().job, "{\"a\":\"b\\n\"}", -7);
    assert_eq!(record, r#"{"payload":"{\"a\":\"b\\n\"}","queue":"q","run_at":-7}"#);
}

#[test]
fn work_record_bears_the_present_time() {
    let before = chrono::Utc::now().timestamp();
    let record: serde_json::Value = serde_json::from_str(&work_record(&unit().job, "p")).unwrap();
    let after = chrono::Utc::now().timestamp();
    let run_at = record["run_at"].as_i64().unwrap();
    assert!(before <= run_at && run_at <= after);
}

#[test]
fn the_default_configuration() {
    let config = ProcessorConfig::default();
    assert_eq!(config.num_workers, num_cpus::get());
    assert_eq!(config.balance_strategy, BalanceStrategy::RoundRobin);
    assert_eq!(config.queue_configs.len(), 0);
    assert!(!config.reliable);
    assert_eq!(config.shutdown_grace, Duration::from_secs(25));
    assert_eq!(ProcessorConfig::for_cpus(7).num_workers, 7);
    assert_eq!(QueueConfig::default().num_workers, 0);
    assert_eq!(BalanceStrategy::default(), BalanceStrategy::RoundRobin);
}

#[test]
fn each_builder_sets_its_field() {
    let config = ProcessorConfig::default()
        .num_workers(3)
        .balance_strategy(BalanceStrategy::Fixed)
        .queue_config("slow".to_string(), QueueConfig::default().num_workers(1))
        .queue_config("slow".to_string(), QueueConfig::default().num_workers(2))
        .reliable(true)
        .shutdown_grace(Duration::from_millis(1500));
    let copy = config.clone();
    for config in [config, copy] {
        assert_eq!(config.num_workers, 3);
        assert_eq!(config.balance_strategy, BalanceStrategy::Fixed);
        assert_eq!(config.queue_configs.len(), 1);
        assert_eq!(config.queue_configs.get("slow").map(|c| c.num_workers), Some(2));
        assert!(config.reliable);
        assert_eq!(config.shutdown_grace, Duration::from_millis(1500));
    }
}

#[test]
fn a_string_map_keeps_its_keys_in_order() {
    let mut map: StringMap<u32> = StringMap::new();
    assert_eq!(map.insert("b".to_string(), 1), None);
    assert_eq!(map.insert("a".to_string(), 2), None);
    assert_eq!(map.insert("ab".to_string(), 3), None);
    assert_eq!(map.insert("b".to_string(), 4), Some(1));
    let entries: Vec<(String, u32)> = map.iter().into_iter().map(|(k, v)| (k.clone(), *v)).collect();
    assert_eq!(entries, vec![("a".to_string(), 2), ("ab".to_string(), 3), ("b".to_string(), 4)]);
    assert_eq!(map.remove("ab"), Some(3));
    assert_eq!(map.remove("ab"), None);
    assert!(!map.contains_key("ab"));
    assert_eq!(map.clone().len(), 2);
}

#[test]
fn round_robin_puts_each_queue_first_once() {
    let mut processor: Processor<u8> = Processor::new(names(&["a", "b", "c"]));
    assert_eq!(processor.queues(), names(&["queue:a", "queue:b", "queue:c"]));
    assert_eq!(processor.human_readable_queues(), names(&["a", "b", "c"]));
    let _ = processor.fetch::<String>();
    assert_eq!(processor.queues(), names(&["queue:c", "queue:a", "queue:b"]));
    let _ = processor.fetch::<String>();
    assert_eq!(processor.queues(), names(&["queue:b", "queue:c", "queue:a"]));
    let _ = processor.fetch::<String>();
    assert_eq!(processor.queues(), names(&["queue:a", "queue:b", "queue:c"]));
}

#[test]
fn reordering_comes_round() {
    let mut processor: Processor<u8> = Processor::new(names(&["a", "b", "c"]));
    let mut first = vec![];
    for _ in 0..3 {
        processor.run_balance_strategy();
        first.push(processor.queues()[0].clone());
    }
    assert_eq!(first, names(&["queue:c", "queue:b", "queue:a"]));
    assert_eq!(processor.queues(), names(&["queue:a", "queue:b", "queue:c"]));
}

#[test]
fn the_fixed_strategy_keeps_the_order() {
    let mut processor: Processor<u8> = Processor::new(names(&["a", "b"]))
        .with_config(ProcessorConfig::default().balance_strategy(BalanceStrategy::Fixed));
    let _ = processor.fetch::<String>();
    assert_eq!(processor.queues(), names(&["queue:a", "queue:b"]));
    let mut idle: Processor<u8> = Processor::new(vec![]);
    let _ = idle.fetch::<String>();
    assert!(idle.queues().is_empty());
}

#[test]
fn the_last_worker_registered_for_a_class_runs_its_jobs() {
    let mut processor: Processor<u8> = Processor::new(vec![]);
    processor.register("HardWorker".to_string(), 1);
    processor.register("EasyWorker".to_string(), 2);
    processor.register("HardWorker".to_string(), 3);
    assert_eq!(processor.worker("HardWorker"), Some(&3));
    assert_eq!(processor.worker("EasyWorker"), Some(&2));
    assert_eq!(processor.worker("NoWorker"), None);
}

fn periodic(name: &str) -> PeriodicJob {
    PeriodicJob {
        name: name.to_string(),
        class: "C".to_string(),
        cron: "0 * * * * *".to_string(),
        queue: Some("q".to_string()),
        args: None,
    }
}

#[test]
fn a_periodic_job_is_stored_once() {
    let mut processor: Processor<u8> = Processor::new(vec![]);
    let registration = processor.register_periodic::<String>(periodic("one"));
    assert!(matches!(registration.pending(), Some(RegistrationEffect::Connect)));
    // An event that answers nothing changes nothing.
    let registration = registration.resume(RegistrationEvent::Stored);
    let registration = registration.resume(RegistrationEvent::Connected);
    match registration.pending() {
        Some(RegistrationEffect::Store(job)) => assert_eq!(job.name, "one"),
        other => panic!("{other:?}"),
    }
    let registration = registration.resume(RegistrationEvent::Stored);
    assert!(registration.pending().is_none());
    assert_eq!(registration.outcome(), Some(Ok(())));
}

#[test]
fn a_periodic_job_that_cannot_be_stored_is_remembered() {
    let mut processor: Processor<u8> = Processor::new(vec![]);
    let failed = || RegistrationEvent::Failed("down".to_string());
    let unconnected = processor.register_periodic::<String>(periodic("one")).resume(failed());
    assert_eq!(unconnected.outcome(), Some(Err("down".to_string())));
    let unstored = processor.register_periodic(periodic("two")).resume(RegistrationEvent::Connected).resume(failed());
    assert_eq!(unstored.outcome(), Some(Err("down".to_string())));
    assert_eq!(processor.periodic_jobs().len(), 2);
}

#[test]
fn the_worker_of_its_class_runs_a_job() {
    let (mut processor, run) = tick(false, false);
    assert!(processor.worker_at_hand(&run).is_none());
    let run = run_to_job(&mut processor, run);
    assert_eq!(processor.worker_at_hand(&run), Some(Err("HardWorker".to_string())));
    processor.register("HardWorker".to_string(), 5);
    processor.register("EasyWorker".to_string(), 6);
    assert_eq!(processor.worker_at_hand(&run), Some(Ok(&5)));
}

#[test]
fn all_that_a_run_starts_bears_one_identity() {
    let processor: Processor<u8> =
        Processor::new(names(&["a"])).with_config(ProcessorConfig::default().reliable(true));
    let run = processor.run("host:1".to_string());
    assert_eq!(run.identity(), "host:1");
    for (tid, dedicated, key) in [("t1", None, "queue:a"), ("t2", Some("b"), "queue:b")] {
        let mut worker = run.worker(tid.to_string(), dedicated);
        match worker.clear_work() {
            Some(Command::Hdel { key, field }) => assert_eq!((key.as_str(), field.as_str()), ("host:1:work", tid)),
            other => panic!("{other:?}"),
        }
        let fetch = worker.fetch::<String>();
        match worker.resume_fetch(fetch, Event::Connected).pending() {
            Some(Effect::Send(Command::Rpoplpush { source, destination })) => {
                assert_eq!(source, key);
                assert_eq!(destination, format!("{key}:inprogress:host:1"));
            }
            other => panic!("{other:?}"),
        }
    }
    // Its recovery leaves the lists of its own workers alone.
    let own = Reply::Members(names(&["queue:a:inprogress:host:1", "queue:b:inprogress:host:1"]));
    let recovery = run.recovery::<String>().resume(Event::Reply(own));
    assert_eq!(recovery.outcome(), Some(Ok(0)));
}

#[test]
fn periodic_jobs_are_remembered_in_order() {
    let mut processor: Processor<u8> = Processor::new(vec![]);
    for name in ["one", "two"] {
        let _ = processor.register_periodic::<String>(periodic(name));
    }
    let kept: Vec<&str> = processor.periodic_jobs().iter().map(|job| job.name.as_str()).collect();
    assert_eq!(kept, vec!["one", "two"]);
    assert_eq!(processor.clone().periodic_jobs().len(), 2);
}

#[test]
fn a_dedicated_worker_serves_its_queue_only() {
    let mut processor: Processor<u8> = Processor::new(names(&["a", "b"]));
    processor.register("C".to_string(), 9);
    let shared = processor.for_worker("id".to_string(), "t1".to_string(), None);
    assert_eq!(shared.queues(), names(&["queue:a", "queue:b"]));
    let dedicated = processor.for_worker("id".to_string(), "t2".to_string(), Some("slow"));
    assert_eq!(dedicated.queues(), names(&["queue:slow"]));
    assert_eq!(dedicated.human_readable_queues(), names(&["a", "b"]));
    assert_eq!(dedicated.worker("C"), Some(&9));
    match dedicated.clear_work() {
        Some(Command::Hdel { key, field }) => assert_eq!((key.as_str(), field.as_str()), ("id:work", "t2")),
        other => panic!("{other:?}"),
    }
}

#[test]
fn work_is_recorded_only_under_an_identity_and_a_thread() {
    let processor: Processor<u8> = Processor::new(vec![]);
    assert!(processor.set_work::<String>(&unit()).is_none());
    assert!(processor.clear_work().is_none());
}

fn recording() -> SetWork<String> {
    let processor: Processor<u8> = Processor::new(vec![]);
    let worker = processor.for_worker("id".to_string(), "t1".to_string(), None);
    worker.set_work::<String>(&unit()).expect("there is an identity")
}

#[test]
fn work_is_recorded_with_a_time_to_live() {
    let set_work = recording();
    assert!(matches!(set_work.pending(), Some(Effect::Connect)));
    let set_work = set_work.resume(Event::Connected);
    assert_eq!(set_work.job().jid, "j1");
    match set_work.pending() {
        Some(Effect::Serialize(job)) => assert_eq!(job.jid, "j1"),
        other => panic!("{other:?}"),
    }
    let set_work = set_work.resume_at(Event::Serialized("job".to_string()), 1700000000);
    match set_work.pending() {
        Some(Effect::Send(Command::Hset { key, field, value })) => {
            assert_eq!((key.as_str(), field.as_str()), ("id:work", "t1"));
            assert_eq!(value, r#"{"payload":"job","queue":"q","run_at":1700000000}"#);
        }
        other => panic!("{other:?}"),
    }
    let set_work = set_work.resume(Event::Reply(Reply::Done));
    match set_work.pending() {
        Some(Effect::Send(Command::Expire { key, seconds })) => assert_eq!((key.as_str(), seconds), ("id:work", 60)),
        other => panic!("{other:?}"),
    }
    let set_work = set_work.resume(Event::Reply(Reply::Done));
    assert!(set_work.pending().is_none());
    assert_eq!(set_work.outcome(), Some(Ok(())));
}

#[test]
fn the_recording_ends_with_the_first_error() {
    let failed = || Event::Failed("down".to_string());
    assert_eq!(recording().resume(failed()).outcome(), Some(Err("down".to_string())));
    let storing = recording().resume(Event::Connected).resume(Event::Serialized("job".to_string()));
    assert_eq!(storing.resume(failed()).outcome(), Some(Err("down".to_string())));
}

/// A processor whose tick fetches from one queue, and that tick.
fn tick(reliable: bool, recorded: bool) -> (Processor<u8>, TickRun<String>) {
    let config = ProcessorConfig::default().reliable(reliable).shutdown_grace(Duration::from_secs(3));
    let mut processor: Processor<u8> = Processor::new(names(&["q"])).with_config(config);
    if recorded {
        processor = processor.for_worker("id".to_string(), "t1".to_string(), None);
    }
    let run = processor.process_one_tick_once();
    (processor, run)
}

fn redis(event: Event<String>) -> TickRunEvent<String> {
    TickRunEvent::Redis(event)
}

/// Brings a tick to the point where it runs the job `j1` of the queue `q`.
fn run_to_job(processor: &mut Processor<u8>, mut run: TickRun<String>) -> TickRun<String> {
    loop {
        let event = match run.pending() {
            Some(TickEffect::Redis(Effect::Connect)) => Event::Connected,
            Some(TickEffect::Redis(Effect::Parse(_))) => Event::Parsed(unit().job),
            Some(TickEffect::Redis(Effect::Serialize(_))) => Event::Serialized("job".to_string()),
            Some(TickEffect::Redis(Effect::Send(Command::Brpop { .. }))) => {
                Event::Reply(Reply::Popped(Some(("queue:q".to_string(), "raw".to_string()))))
            }
            Some(TickEffect::Redis(Effect::Send(Command::Rpoplpush { .. }))) => {
                Event::Reply(Reply::Moved(Some("raw".to_string())))
            }
            Some(TickEffect::Redis(Effect::Send(_))) => Event::Reply(Reply::Done),
            Some(TickEffect::RunJob) => return run,
            other => panic!("{other:?}"),
        };
        run = processor.resume_tick(run, redis(event));
    }
}

/// The command that a tick waits for.
fn command(run: &TickRun<String>) -> String {
    match run.pending() {
        Some(TickEffect::Redis(Effect::Send(command))) => format!("{command:?}"),
        other => panic!("{other:?}"),
    }
}

const CLEAR: &str = r#"Hdel { key: "id:work", field: "t1" }"#;

const ACK: &str = r#"Lrem { key: "queue:q:inprogress:id", count: -1, value: "raw" }"#;

const MOVE_BACK: &str =
    r#"RequeueIfInprogress { source: "queue:q:inprogress:id", destination: "queue:q", value: "raw" }"#;

#[test]
fn a_tick_without_work_yields() {
    let (mut processor, run) = tick(false, false);
    assert!(matches!(run.pending(), Some(TickEffect::Redis(Effect::Connect))));
    let run = processor.resume_tick(run, redis(Event::Connected));
    assert_eq!(command(&run), r#"Brpop { keys: ["queue:q"], timeout: 2 }"#);
    let run = processor.resume_tick(run, redis(Event::Reply(Reply::Popped(None))));
    assert!(matches!(run.pending(), Some(TickEffect::Yield)));
    assert!(run.work().is_none());
    let run = processor.resume_tick(run, TickRunEvent::Yielded);
    assert!(run.pending().is_none());
    assert_eq!(run.outcome(), Some(Ok(WorkFetcher::NoWorkFound)));
}

#[test]
fn a_tick_ends_with_the_error_of_its_fetch() {
    let (mut processor, run) = tick(true, true);
    let run = processor.resume_tick(run, redis(Event::Failed("down".to_string())));
    assert_eq!(run.outcome(), Some(Err("down".to_string())));
}

#[test]
fn a_claimed_job_that_failed_is_acked_all_the_same() {
    let (mut processor, run) = tick(true, true);
    let run = run_to_job(&mut processor, run);
    assert_eq!(run.work().map(|work| work.job.jid.as_str()), Some("j1"));
    let run = processor.resume_tick(run, TickRunEvent::JobEnded(Err("broken".to_string())));
    assert_eq!(command(&run), CLEAR);
    // Whether the record could be cleared does not matter.
    let run = processor.resume_tick(run, redis(Event::Failed("down".to_string())));
    assert_eq!(command(&run), ACK);
    let run = processor.resume_tick(run, redis(Event::Reply(Reply::Done)));
    assert_eq!(run.outcome(), Some(Err("broken".to_string())));
}

#[test]
fn a_job_is_recorded_while_it_runs() {
    let (mut processor, run) = tick(true, true);
    let mut run = run;
    let mut commands = vec![];
    while !matches!(run.pending(), Some(TickEffect::RunJob)) {
        let event = match run.pending() {
            Some(TickEffect::Redis(Effect::Connect)) => Event::Connected,
            Some(TickEffect::Redis(Effect::Parse(_))) => Event::Parsed(unit().job),
            Some(TickEffect::Redis(Effect::Serialize(_))) => Event::Serialized("job".to_string()),
            Some(TickEffect::Redis(Effect::Send(sent))) => {
                let claims = matches!(sent, Command::Rpoplpush { .. });
                commands.push(format!("{sent:?}"));
                Event::Reply(if claims { Reply::Moved(Some("raw".to_string())) } else { Reply::Done })
            }
            other => panic!("{other:?}"),
        };
        run = processor.resume_tick_at(run, redis(event), 1700000000);
    }
    assert_eq!(
        commands,
        vec![
            r#"Rpoplpush { source: "queue:q", destination: "queue:q:inprogress:id" }"#,
            r#"Sadd { key: "reliable_fetch:working", member: "queue:q:inprogress:id" }"#,
            r#"Hset { key: "id:work", field: "t1", value: "{\"payload\":\"job\",\"queue\":\"q\",\"run_at\":1700000000}" }"#,
            r#"Expire { key: "id:work", seconds: 60 }"#,
        ]
    );
}

#[test]
fn a_job_is_run_although_it_could_not_be_recorded() {
    let (mut processor, run) = tick(false, true);
    let run = processor.resume_tick(run, redis(Event::Connected));
    let popped = Reply::Popped(Some(("queue:q".to_string(), "raw".to_string())));
    let run = processor.resume_tick(run, redis(Event::Reply(popped)));
    let run = processor.resume_tick(run, redis(Event::Parsed(unit().job)));
    assert!(matches!(run.pending(), Some(TickEffect::Redis(Effect::Connect))));
    let run = processor.resume_tick(run, redis(Event::Failed("down".to_string())));
    assert!(matches!(run.pending(), Some(TickEffect::RunJob)));
}

#[test]
fn a_plain_job_that_ended_is_neither_cleared_nor_acked() {
    let (mut processor, run) = tick(false, false);
    let run = run_to_job(&mut processor, run);
    let run = processor.resume_tick(run, TickRunEvent::JobEnded(Ok(())));
    assert_eq!(run.outcome(), Some(Ok(WorkFetcher::Done)));
}

#[test]
fn a_job_that_ends_within_its_grace_is_acked() {
    let (mut processor, run) = tick(true, true);
    let run = run_to_job(&mut processor, run);
    let run = processor.resume_tick(run, TickRunEvent::ShutdownSignalled);
    match run.pending() {
        Some(TickEffect::AwaitJob(grace)) => assert_eq!(grace, Duration::from_secs(3)),
        other => panic!("{other:?}"),
    }
    let run = processor.resume_tick(run, TickRunEvent::JobEnded(Ok(())));
    assert_eq!(command(&run), CLEAR);
    let run = processor.resume_tick(run, redis(Event::Reply(Reply::Done)));
    assert_eq!(command(&run), ACK);
    let run = processor.resume_tick(run, redis(Event::Failed("down".to_string())));
    assert_eq!(run.outcome(), Some(Ok(WorkFetcher::Done)));
}

#[test]
fn a_claimed_job_that_outlasts_its_grace_is_moved_back() {
    let (mut processor, run) = tick(true, true);
    let run = run_to_job(&mut processor, run);
    let run = processor.resume_tick(run, TickRunEvent::ShutdownSignalled);
    let run = processor.resume_tick(run, TickRunEvent::GraceElapsed);
    assert_eq!(command(&run), CLEAR);
    let run = processor.resume_tick(run, redis(Event::Reply(Reply::Done)));
    assert!(matches!(run.pending(), Some(TickEffect::Redis(Effect::Connect))));
    // An event that answers nothing changes nothing.
    let run = processor.resume_tick(run, TickRunEvent::GraceElapsed);
    let run = processor.resume_tick(run, redis(Event::Connected));
    assert_eq!(command(&run), MOVE_BACK);
    let run = processor.resume_tick(run, redis(Event::Reply(Reply::Flag(true))));
    assert_eq!(run.outcome(), Some(Ok(WorkFetcher::Done)));
}

#[test]
fn a_plain_job_that_outlasts_its_grace_is_pushed_back() {
    let (mut processor, run) = tick(false, false);
    let run = run_to_job(&mut processor, run);
    let run = processor.resume_tick(run, TickRunEvent::ShutdownSignalled);
    let run = processor.resume_tick(run, TickRunEvent::GraceElapsed);
    let run = processor.resume_tick(run, redis(Event::Connected));
    assert!(matches!(run.pending(), Some(TickEffect::Redis(Effect::Serialize(_)))));
    let run = processor.resume_tick(run, redis(Event::Serialized("again".to_string())));
    assert_eq!(command(&run), r#"Rpush { key: "queue:q", value: "again" }"#);
    // A requeue that fails is not reported.
    let run = processor.resume_tick(run, redis(Event::Failed("down".to_string())));
    assert_eq!(run.outcome(), Some(Ok(WorkFetcher::Done)));
}

#[test]
fn ticks_go_on_until_one_finds_work() {
    let tick = |event: TickRunEvent<String>| ProcessEvent::Tick(event);
    let popped = |found: Option<(String, String)>| redis(Event::Reply(Reply::Popped(found)));
    let mut processor: Processor<u8> = Processor::new(names(&["a", "b"]));

    let run = processor.process_one::<String>(false);
    assert!(matches!(run.pending(), Some(ProcessEffect::Tick(TickEffect::Redis(Effect::Connect)))));
    assert_eq!(processor.queues(), names(&["queue:b", "queue:a"]));
    let run = processor.resume_process_one(run, tick(redis(Event::Connected)));
    let run = processor.resume_process_one(run, tick(popped(None)));
    assert!(matches!(run.pending(), Some(ProcessEffect::Tick(TickEffect::Yield))));
    let run = processor.resume_process_one(run, tick(TickRunEvent::Yielded));

    // There was no work: another look for shutdown, then another tick.
    assert!(matches!(run.pending(), Some(ProcessEffect::CheckCancelled)));
    assert!(run.work().is_none());
    let run = processor.resume_process_one(run, ProcessEvent::Cancelled(false));
    assert_eq!(processor.queues(), names(&["queue:a", "queue:b"]));
    let run = processor.resume_process_one(run, tick(redis(Event::Connected)));
    let run = processor.resume_process_one(run, tick(popped(Some(("queue:a".to_string(), "raw".to_string())))));
    let run = processor.resume_process_one_at(run, tick(redis(Event::Parsed(unit().job))), 7);
    assert!(matches!(run.pending(), Some(ProcessEffect::Tick(TickEffect::RunJob))));
    assert_eq!(run.work().map(|work| work.job.jid.as_str()), Some("j1"));
    // An event that answers nothing changes nothing.
    let run = processor.resume_process_one(run, ProcessEvent::Cancelled(true));
    let run = processor.resume_process_one(run, tick(TickRunEvent::JobEnded(Ok(()))));
    assert!(run.pending().is_none());
    assert_eq!(run.outcome(), Some(Ok(())));
}

#[test]
fn no_tick_begins_after_shutdown() {
    let mut processor: Processor<u8> = Processor::new(names(&["a", "b"]));
    let run = processor.process_one::<String>(true);
    assert!(run.pending().is_none());
    assert_eq!(run.outcome(), Some(Ok(())));
    assert_eq!(processor.queues(), names(&["queue:a", "queue:b"]));
}

#[test]
fn the_processing_ends_with_the_error_of_its_tick() {
    let mut processor: Processor<u8> = Processor::new(names(&["a"]));
    let run = processor.process_one::<String>(false);
    let failed = ProcessEvent::Tick(redis(Event::Failed("down".to_string())));
    let run = processor.resume_process_one(run, failed);
    assert_eq!(run.outcome(), Some(Err("down".to_string())));
}

/// The steps of a run, each as text.
fn steps(config: ProcessorConfig) -> Vec<String> {
    let processor: Processor<u8> = Processor::new(names(&["a"])).with_config(config);
    let mut launch = processor.run("id".to_string()).launch();
    let mut steps = vec![];
    while let Some(step) = launch.next() {
        steps.push(match step {
            LaunchStep::PublishHeartbeat => "heartbeat".to_string(),
            LaunchStep::RecoverOrphans => "recover".to_string(),
            LaunchStep::SpawnWorker { num, dedicated: None } => format!("shared {num}"),
            LaunchStep::SpawnWorker { num, dedicated: Some(queue) } => format!("{queue} {num}"),
            LaunchStep::SpawnRoutine(routine) => format!("{routine:?}"),
            LaunchStep::Join => "join".to_string(),
        });
    }
    assert!(launch.next().is_none());
    steps
}

#[test]
fn a_reliable_run_recovers_before_its_workers_start() {
    let config = ProcessorConfig::default()
        .num_workers(2)
        .reliable(true)
        .queue_config("z".to_string(), QueueConfig::default().num_workers(1))
        .queue_config("idle".to_string(), QueueConfig::default())
        .queue_config("b".to_string(), QueueConfig::default().num_workers(2));
    assert_eq!(
        steps(config),
        vec![
            "heartbeat", "recover", "shared 0", "shared 1", "b 0", "b 1", "z 0", "Stats", "Scheduled", "Periodic",
            "Recovery", "join"
        ]
    );
}

#[test]
fn a_plain_run_never_recovers() {
    assert_eq!(
        steps(ProcessorConfig::default().num_workers(0)),
        vec!["heartbeat", "Stats", "Scheduled", "Periodic", "join"]
    );
}

#[test]
fn a_process_announces_itself() {
    let processor: Processor<u8> =
        Processor::new(names(&["a", "b"])).with_config(ProcessorConfig::default().num_workers(4));
    let known = processor.announcement_on(Some("host".to_string()));
    assert_eq!(known.hostname, "host");
    assert_eq!(known.queues, names(&["a", "b"]));
    assert_eq!(known.concurrency, 4);
    assert_eq!(processor.announcement_on(None).hostname, "UNKNOWN_HOSTNAME");
    let here = gethostname::gethostname().into_string().unwrap_or("UNKNOWN_HOSTNAME".to_string());
    assert_eq!(processor.announcement().hostname, here);
}

#[test]
fn routines_wait_work_and_stop() {
    for (routine, seconds) in
        [(Routine::Stats, 5), (Routine::Scheduled, 5), (Routine::Periodic, 30), (Routine::Recovery, 30)]
    {
        let state = RoutineState::start();
        match routine.action(state) {
            Some(RoutineAction::Wait(time)) => assert_eq!(time, Duration::from_secs(seconds)),
            other => panic!("{other:?}"),
        }
        let state = routine.resume(state, RoutineEvent::Elapsed);
        assert!(matches!(routine.action(state), Some(RoutineAction::Work)));
        let state = routine.resume(state, RoutineEvent::Performed);
        let state = routine.resume(state, RoutineEvent::Cancelled);
        if routine == Routine::Stats {
            assert!(matches!(routine.action(state), Some(RoutineAction::Deregister)));
            assert!(routine.action(routine.resume(state, RoutineEvent::Performed)).is_none());
        } else {
            assert!(routine.action(state).is_none());
        }
    }
    assert_eq!(sorted_sets(), names(&["retry", "schedule"]));
}

#[test]
fn a_worker_goes_on_until_shutdown() {
    let state = WorkerLoop::start().resume(WorkerEvent::Processed);
    assert_eq!(state, WorkerLoop::CheckCancelled);
    assert_eq!(state.resume(WorkerEvent::Cancelled(false)), WorkerLoop::ProcessOne);
    assert_eq!(state.resume(WorkerEvent::Cancelled(true)), WorkerLoop::Stop);
}
