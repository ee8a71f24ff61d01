//! What the run of a processor starts, and in which order.

use core::time::Duration;
use vstd::prelude::*;

use crate::command::{CommandView, EffectView};
use crate::config::{ProcessorConfigView, QueueConfig};
use crate::fetch::{fetch_effect, FetchPhase, FetchView};
use crate::job::UnitOfWorkView;
use crate::keys::{has_marker, inprogress_text, law_split_undoes_inprogress_key, work_key_text, Text, WORKING_SET};
use crate::outside::whole_seconds;
use crate::processor::{claiming_identity, worker_of, ProcessorView};
use crate::recovery::recovery_start;
use crate::recovery_laws::recover_member;
use crate::run::{
    announcement, dedicated_workers, in_order, launch_plan, preparations, recovery_of, routines, worker_next,
    workers_from, LaunchStepView, Routine, RoutineAction, RoutineEvent, RoutineState, RunView, WorkerEvent, WorkerLoop,
};
use crate::store::Store;
use crate::string_map::{ascending, precedes};
use crate::tick::{TickPhase, TickView};
use crate::tick_run::{part_of, recorded_under, PartView};
use crate::work::{SetWorkPhase, SetWorkView};

verus! {

/// A heartbeat is published, and with reliable fetch the jobs of dead processes are
/// requeued, before any worker is started.
pub proof fn law_heartbeat_and_recovery_come_first(config: ProcessorConfigView, i: int)
    requires
        0 <= i < launch_plan(config).len(),
        launch_plan(config)[i] is SpawnWorker,
    ensures
        launch_plan(config)[0] == LaunchStepView::PublishHeartbeat,
        config.reliable ==> 1 < i && launch_plan(config)[1] == LaunchStepView::RecoverOrphans,
{
    let plan = launch_plan(config);
    let first = preparations(config.reliable);
    assert(plan[0] == first[0]);
    if config.reliable {
        assert(first.len() == 2);
        assert(plan[1] == first[1]);
    }
}

/// The last step, and no other, is to wait for all that was started.
pub proof fn law_run_ends_with_the_wait(config: ProcessorConfigView, i: int)
    requires
        0 <= i < launch_plan(config).len(),
    ensures
        launch_plan(config)[i] is Join <==> i == launch_plan(config).len() - 1,
{
    let names = in_order(config.queue_configs.dom());
    let dedicated = dedicated_workers(names, config.queue_configs);
    let before = preparations(config.reliable) + workers_from(0, config.num_workers as int, None);
    if before.len() <= i < before.len() + dedicated.len() {
        lemma_dedicated_step(names, config.queue_configs, i - before.len());
    }
}

/// Recovery runs, before the workers and at intervals, exactly with reliable fetch.
pub proof fn law_recovery_runs_with_reliable_fetch(config: ProcessorConfigView)
    ensures
        launch_plan(config).contains(LaunchStepView::RecoverOrphans) <==> config.reliable,
        launch_plan(config).contains(LaunchStepView::SpawnRoutine(Routine::Recovery)) <==> config.reliable,
{
    let plan = launch_plan(config);
    let names = in_order(config.queue_configs.dom());
    let dedicated = dedicated_workers(names, config.queue_configs);
    let before = preparations(config.reliable) + workers_from(0, config.num_workers as int, None);
    assert forall|i: int| 0 <= i < plan.len() && (plan[i] is RecoverOrphans || plan[i] == LaunchStepView::SpawnRoutine(
        Routine::Recovery,
    )) implies config.reliable by {
        if before.len() <= i < before.len() + dedicated.len() {
            lemma_dedicated_step(names, config.queue_configs, i - before.len());
        }
    }
    if config.reliable {
        assert(plan[1] == LaunchStepView::RecoverOrphans);
        assert(plan[plan.len() - 2] == LaunchStepView::SpawnRoutine(Routine::Recovery));
    }
}

/// A step among those of the dedicated workers starts a worker of a queue that is
/// configured, with a number below that of its workers.
proof fn lemma_dedicated_step(names: Seq<Text>, configs: Map<Text, QueueConfig>, i: int)
    requires
        0 <= i < dedicated_workers(names, configs).len(),
    ensures
        dedicated_workers(names, configs)[i] matches LaunchStepView::SpawnWorker { num, dedicated: Some(queue) }
            && names.contains(queue) && 0 <= num < configs[queue].num_workers,
    decreases names.len(),
{
    let first = workers_from(0, configs[names[0]].num_workers as int, Some(names[0]));
    let rest = names.drop_first();
    if i < first.len() {
        assert(names.contains(names[0]));
    } else {
        lemma_dedicated_step(rest, configs, i - first.len());
        let queue = dedicated_workers(rest, configs)[i - first.len()]->dedicated->Some_0;
        let k = choose|k: int| 0 <= k < rest.len() && rest[k] == queue;
        assert(names[k + 1] == queue);
    }
}

/// Every worker that a queue is to have is among the steps.
proof fn lemma_dedicated_worker(names: Seq<Text>, configs: Map<Text, QueueConfig>, queue: Text, num: int) -> (i: int)
    requires
        names.contains(queue),
        0 <= num < configs[queue].num_workers,
    ensures
        0 <= i < dedicated_workers(names, configs).len(),
        dedicated_workers(names, configs)[i] == (LaunchStepView::SpawnWorker { num, dedicated: Some(queue) }),
    decreases names.len(),
{
    let first = workers_from(0, configs[names[0]].num_workers as int, Some(names[0]));
    if names[0] == queue {
        assert(first[num] == (LaunchStepView::SpawnWorker { num, dedicated: Some(queue) }));
        num
    } else {
        let rest = names.drop_first();
        let k = choose|k: int| 0 <= k < names.len() && names[k] == queue;
        assert(rest[k - 1] == queue);
        let i = lemma_dedicated_worker(rest, configs, queue, num);
        first.len() + i
    }
}

/// No worker is started twice.
proof fn lemma_dedicated_once(names: Seq<Text>, configs: Map<Text, QueueConfig>, i: int, j: int)
    requires
        names.no_duplicates(),
        0 <= i < j < dedicated_workers(names, configs).len(),
    ensures
        dedicated_workers(names, configs)[i] != dedicated_workers(names, configs)[j],
    decreases names.len(),
{
    let first = workers_from(0, configs[names[0]].num_workers as int, Some(names[0]));
    let rest = names.drop_first();
    if j < first.len() {
    } else if i < first.len() {
        lemma_dedicated_step(rest, configs, j - first.len());
        let queue = dedicated_workers(rest, configs)[j - first.len()]->dedicated->Some_0;
        let k = choose|k: int| 0 <= k < rest.len() && rest[k] == queue;
        assert(names[k + 1] != names[0]);
    } else {
        assert forall|p: int, q: int| 0 <= p < rest.len() && 0 <= q < rest.len() && p != q implies rest[p] != rest[q] by {
            assert(names[p + 1] != names[q + 1]);
        }
        lemma_dedicated_once(rest, configs, i - first.len(), j - first.len());
    }
}

/// A finite set of texts has an ascending enumeration.
proof fn lemma_in_order(names: Seq<Text>, set: Set<Text>)
    requires
        ascending(names),
        names.to_set() == set,
    ensures
        ascending(in_order(set)),
        in_order(set).to_set() == set,
{
}

/// The workers that are started are the shared ones, as many as configured, and for each
/// configured queue its dedicated ones, as many as configured; each is started once.
///
/// `names` are the configured queues in ascending order.
pub proof fn law_each_configured_worker_is_started_once(config: ProcessorConfigView, names: Seq<Text>)
    requires
        ascending(names),
        names.to_set() == config.queue_configs.dom(),
    ensures
        launch_plan(config).no_duplicates(),
        forall|num: int|
            #![trigger launch_plan(config).contains(LaunchStepView::SpawnWorker { num, dedicated: None })]
            launch_plan(config).contains(LaunchStepView::SpawnWorker { num, dedicated: None }) <==> 0 <= num
                < config.num_workers,
        forall|queue: Text, num: int|
            #![trigger launch_plan(config).contains(LaunchStepView::SpawnWorker { num, dedicated: Some(queue) })]
            launch_plan(config).contains(LaunchStepView::SpawnWorker { num, dedicated: Some(queue) }) <==> {
                &&& config.queue_configs.contains_key(queue)
                &&& 0 <= num < config.queue_configs[queue].num_workers
            },
{
    let plan = launch_plan(config);
    let configs = config.queue_configs;
    let keys = in_order(configs.dom());
    lemma_in_order(names, configs.dom());
    assert(keys.no_duplicates()) by {
        assert forall|i: int, j: int| 0 <= i < keys.len() && 0 <= j < keys.len() && i != j implies keys[i] != keys[j] by {
            crate::string_map::law_precedes_irreflexive(keys[i]);
            if i < j {
                assert(crate::string_map::precedes(keys[i], keys[j]));
            } else {
                assert(crate::string_map::precedes(keys[j], keys[i]));
            }
        }
    }
    let first = preparations(config.reliable);
    let shared = workers_from(0, config.num_workers as int, None);
    let dedicated = dedicated_workers(keys, configs);
    let last = routines(config.reliable);
    let a = first.len() as int;
    let b = a + shared.len();
    let c = b + dedicated.len();
    assert forall|i: int| b <= i < c implies (#[trigger] plan[i]) == dedicated[i - b] && dedicated[i - b] is SpawnWorker
        && dedicated[i - b]->dedicated is Some by {
        lemma_dedicated_step(keys, configs, i - b);
    }
    assert(plan.no_duplicates()) by {
        assert forall|i: int, j: int| 0 <= i < j < plan.len() implies plan[i] != plan[j] by {
            if b <= i && j < c {
                lemma_dedicated_once(keys, configs, i - b, j - b);
            }
        }
    }
    assert forall|num: int|
        #![trigger launch_plan(config).contains(LaunchStepView::SpawnWorker { num, dedicated: None })]
        launch_plan(config).contains(LaunchStepView::SpawnWorker { num, dedicated: None }) <==> 0 <= num
            < config.num_workers by {
        let step = LaunchStepView::SpawnWorker { num, dedicated: None };
        if plan.contains(step) {
            let i = choose|i: int| 0 <= i < plan.len() && plan[i] == step;
            assert(a <= i < b);
            assert(plan[i] == shared[i - a]);
        }
        if 0 <= num < config.num_workers {
            assert(plan[a + num] == shared[num]);
        }
    }
    assert forall|queue: Text, num: int|
        #![trigger launch_plan(config).contains(LaunchStepView::SpawnWorker { num, dedicated: Some(queue) })]
        launch_plan(config).contains(LaunchStepView::SpawnWorker { num, dedicated: Some(queue) }) <==> {
            &&& configs.contains_key(queue)
            &&& 0 <= num < configs[queue].num_workers
        } by {
        let step = LaunchStepView::SpawnWorker { num, dedicated: Some(queue) };
        if plan.contains(step) {
            let i = choose|i: int| 0 <= i < plan.len() && plan[i] == step;
            assert(b <= i < c);
            lemma_dedicated_step(keys, configs, i - b);
            assert(keys.to_set().contains(queue));
        }
        if configs.contains_key(queue) && 0 <= num < configs[queue].num_workers {
            assert(keys.to_set().contains(queue));
            let i = lemma_dedicated_worker(keys, configs, queue, num);
            assert(plan[b + i] == dedicated[i]);
        }
    }
}

/// A routine that is told of shutdown does no more work. The one that publishes the
/// heartbeat, and no other, first takes the process off the list of processes.
pub proof fn law_routines_end_on_shutdown(routine: Routine, event: RoutineEvent)
    ensures
        ({
            let told = routine.state_after(RoutineState::Waiting, RoutineEvent::Cancelled);
            &&& told is Deregistering <==> routine is Stats
            &&& told is Deregistering || told is Stopped
            &&& routine.state_after(told, RoutineEvent::Performed) is Stopped
            &&& !(routine.state_after(told, event) is Working)
        }),
{
}

/// Every worker of a run, shared or dedicated, bears the identity of the heartbeat: it
/// records its job under `<identity>:work` with its own thread id, and claims jobs, if it
/// does so reliably, into `<queue key>:inprogress:<identity>`. The recovery of the run,
/// before its workers and at intervals, bears it too, and walks the working set.
pub proof fn law_a_run_has_one_identity<W, E>(
    v: RunView<W>,
    tid: Text,
    dedicated: Option<Text>,
    workers: Map<Text, W>,
    work: UnitOfWorkView,
    grace: Duration,
    position: int,
)
    ensures
        ({
            let worker = worker_of(v.processor, v.identity, tid, dedicated, workers);
            let identity = claiming_identity(worker);
            let publishing = TickView::<E> { grace, phase: TickPhase::Publishing(work) };
            let sweeping = FetchView::<E> { identity, queues: worker.queues, phase: FetchPhase::Sweeping(position) };
            &&& part_of(recorded_under(worker), publishing) == PartView::SetWork(
                SetWorkView::<E> {
                    key: work_key_text(v.identity),
                    tid,
                    job: work.job,
                    phase: SetWorkPhase::Connecting,
                },
            )
            &&& v.processor.config.reliable ==> fetch_effect(sweeping) == Some(
                EffectView::Send(
                    CommandView::Rpoplpush {
                        source: worker.queues[position],
                        destination: inprogress_text(worker.queues[position], v.identity),
                    },
                ),
            )
            &&& identity is Some <==> v.processor.config.reliable
            &&& recovery_of::<W, E>(v) == recovery_start::<E>(v.identity, WORKING_SET@)
        }),
{
}

/// The recovery of a run leaves the lists of the run's own workers alone, whether or not
/// its heartbeat is there, as long as the identity does not spell the marker.
pub proof fn law_a_run_leaves_its_own_claims_alone<W>(
    v: RunView<W>,
    tid: Text,
    dedicated: Option<Text>,
    workers: Map<Text, W>,
    queue_key: Text,
    store: Store,
)
    requires
        v.processor.config.reliable,
        !has_marker(seq![':'] + v.identity),
    ensures
        ({
            let worker = worker_of(v.processor, v.identity, tid, dedicated, workers);
            let list = inprogress_text(queue_key, claiming_identity(worker)->Some_0);
            recover_member(store, recovery_of::<W, ()>(v).my_identity, WORKING_SET@, list) == (store, 0nat)
        }),
{
    law_split_undoes_inprogress_key(queue_key, v.identity);
}

/// Whatever the configuration, the heartbeat routine, the one for retries and scheduled
/// jobs and the one for periodic jobs are started, each exactly once, and the recovery
/// routine exactly with reliable fetch, once. All of them come after every worker and before
/// the wait.
pub proof fn law_routines_are_started_once(config: ProcessorConfigView, routine: Routine, i: int, j: int)
    requires
        0 <= i < launch_plan(config).len(),
        0 <= j < launch_plan(config).len(),
    ensures
        launch_plan(config).contains(LaunchStepView::SpawnRoutine(routine)) <==> !(routine is Recovery)
            || config.reliable,
        launch_plan(config)[i] == LaunchStepView::SpawnRoutine(routine) && launch_plan(config)[j]
            == LaunchStepView::SpawnRoutine(routine) ==> i == j,
        launch_plan(config)[i] is SpawnWorker && launch_plan(config)[j] is SpawnRoutine ==> i < j,
        launch_plan(config)[i] is SpawnRoutine && launch_plan(config)[j] is Join ==> i < j,
{
    let plan = launch_plan(config);
    let names = in_order(config.queue_configs.dom());
    let dedicated = dedicated_workers(names, config.queue_configs);
    let before = preparations(config.reliable) + workers_from(0, config.num_workers as int, None);
    let last = routines(config.reliable);
    let b = before.len() as int;
    let c = b + dedicated.len();
    assert forall|k: int| b <= k < c implies (#[trigger] plan[k]) is SpawnWorker by {
        lemma_dedicated_step(names, config.queue_configs, k - b);
        assert(plan[k] == dedicated[k - b]);
    }
    assert(plan[c] == last[0] && plan[c + 1] == last[1] && plan[c + 2] == last[2]);
    if config.reliable {
        assert(plan[c + 3] == last[3]);
    }
    match routine {
        Routine::Stats => {
            assert(plan[c] == LaunchStepView::SpawnRoutine(routine));
        },
        Routine::Scheduled => {
            assert(plan[c + 1] == LaunchStepView::SpawnRoutine(routine));
        },
        Routine::Periodic => {
            assert(plan[c + 2] == LaunchStepView::SpawnRoutine(routine));
        },
        Routine::Recovery => {},
    }
}

/// A run begins with one heartbeat, then, exactly with reliable fetch, one recovery, and
/// then the shared workers in the order of their numbers, as many as configured. The
/// dedicated workers, of each queue in the order of their numbers, come after all of them.
pub proof fn law_run_begins_in_order(config: ProcessorConfigView, i: int, j: int)
    requires
        0 <= i < launch_plan(config).len(),
        0 <= j < launch_plan(config).len(),
    ensures
        ({
            let plan = launch_plan(config);
            let first: int = if config.reliable {
                2
            } else {
                1
            };
            &&& plan[i] is PublishHeartbeat <==> i == 0
            &&& plan[i] is RecoverOrphans <==> config.reliable && i == 1
            &&& plan[i] matches LaunchStepView::SpawnWorker { num, dedicated: None } ==> i == first + num
            &&& first <= i < first + config.num_workers ==> plan[i] == (LaunchStepView::SpawnWorker {
                num: i - first,
                dedicated: None,
            })
            &&& plan[i] is SpawnWorker && plan[i]->dedicated is None && plan[j] is SpawnWorker && plan[j]->dedicated is Some
                ==> i < j
        }),
{
    let plan = launch_plan(config);
    let names = in_order(config.queue_configs.dom());
    let dedicated = dedicated_workers(names, config.queue_configs);
    let before = preparations(config.reliable) + workers_from(0, config.num_workers as int, None);
    let b = before.len() as int;
    let c = b + dedicated.len();
    assert forall|k: int| b <= k < c implies (#[trigger] plan[k]) is SpawnWorker && plan[k]->dedicated is Some by {
        lemma_dedicated_step(names, config.queue_configs, k - b);
        assert(plan[k] == dedicated[k - b]);
    }
    assert(preparations(config.reliable).len() == if config.reliable {
        2int
    } else {
        1int
    });
}

/// The steps of the dedicated workers stand in the order of their queues, and those of one
/// queue in the order of their numbers.
proof fn lemma_dedicated_in_order(names: Seq<Text>, configs: Map<Text, QueueConfig>, i: int, j: int)
    requires
        ascending(names),
        0 <= i < j < dedicated_workers(names, configs).len(),
    ensures
        ({
            let a = dedicated_workers(names, configs)[i];
            let b = dedicated_workers(names, configs)[j];
            a->dedicated == b->dedicated && a->num < b->num || precedes(a->dedicated->Some_0, b->dedicated->Some_0)
        }),
    decreases names.len(),
{
    let first = workers_from(0, configs[names[0]].num_workers as int, Some(names[0]));
    let rest = names.drop_first();
    assert(ascending(rest)) by {
        assert forall|p: int, q: int| #![trigger rest[p], rest[q]] 0 <= p < q < rest.len() implies precedes(
            rest[p],
            rest[q],
        ) by {
            assert(precedes(names[p + 1], names[q + 1]));
        }
    }
    if j < first.len() {
    } else if i < first.len() {
        lemma_dedicated_step(rest, configs, j - first.len());
        let queue = dedicated_workers(rest, configs)[j - first.len()]->dedicated->Some_0;
        let k = choose|k: int| 0 <= k < rest.len() && rest[k] == queue;
        assert(precedes(names[0], names[k + 1]));
    } else {
        lemma_dedicated_in_order(rest, configs, i - first.len(), j - first.len());
    }
}

/// The dedicated workers are started in the order of the names of their queues, and those
/// of one queue in the order of their numbers.
///
/// `names` are the configured queues in ascending order.
pub proof fn law_dedicated_workers_start_in_order(config: ProcessorConfigView, names: Seq<Text>, i: int, j: int)
    requires
        ascending(names),
        names.to_set() == config.queue_configs.dom(),
        0 <= i < j < launch_plan(config).len(),
        launch_plan(config)[i] is SpawnWorker,
        launch_plan(config)[j] is SpawnWorker,
        launch_plan(config)[i]->dedicated is Some,
        launch_plan(config)[j]->dedicated is Some,
    ensures
        ({
            let a = launch_plan(config)[i];
            let b = launch_plan(config)[j];
            a->dedicated == b->dedicated && a->num < b->num || precedes(a->dedicated->Some_0, b->dedicated->Some_0)
        }),
{
    let plan = launch_plan(config);
    let keys = in_order(config.queue_configs.dom());
    lemma_in_order(names, config.queue_configs.dom());
    let dedicated = dedicated_workers(keys, config.queue_configs);
    let before = preparations(config.reliable) + workers_from(0, config.num_workers as int, None);
    let b = before.len() as int;
    assert(b <= i && j < b + dedicated.len());
    assert(plan[i] == dedicated[i - b] && plan[j] == dedicated[j - b]);
    lemma_dedicated_in_order(keys, config.queue_configs, i - b, j - b);
}

/// A process announces its queues under the names that were given, as many workers as are
/// shared, and the name of its host, or one that stands for it where it has none.
pub proof fn law_announcement_tells_what_was_given<W>(v: ProcessorView<W>, name: Text)
    ensures
        announcement(v, Some(name)).hostname == name,
        announcement(v, None).hostname == "UNKNOWN_HOSTNAME"@,
        announcement(v, Some(name)).queues == v.human_readable_queues,
        announcement(v, None).queues == v.human_readable_queues,
        announcement(v, Some(name)).concurrency == v.config.num_workers,
        announcement(v, None).concurrency == v.config.num_workers,
{
}

/// The heartbeat and what is scheduled are seen to every five seconds, periodic jobs and
/// dead processes every thirty. A routine works after each wait, and waits after each work.
pub proof fn law_routines_wait_and_work_in_turn(routine: Routine, state: RoutineState, event: RoutineEvent)
    ensures
        (routine is Stats || routine is Scheduled) ==> routine.action_in(RoutineState::Waiting) == Some(
            RoutineAction::Wait(whole_seconds(5)),
        ),
        (routine is Periodic || routine is Recovery) ==> routine.action_in(RoutineState::Waiting) == Some(
            RoutineAction::Wait(whole_seconds(30)),
        ),
        routine.action_in(RoutineState::Working) == Some(RoutineAction::Work),
        routine.action_in(RoutineState::Deregistering) == Some(RoutineAction::Deregister),
        routine.action_in(RoutineState::Stopped) is None,
        routine.state_after(RoutineState::Waiting, RoutineEvent::Elapsed) is Working,
        routine.state_after(RoutineState::Working, RoutineEvent::Performed) is Waiting,
        routine.state_after(RoutineState::Deregistering, RoutineEvent::Performed) is Stopped,
        state is Waiting && event is Performed ==> routine.state_after(state, event) == state,
        (state is Working || state is Deregistering) && !(event is Performed) ==> routine.state_after(state, event)
            == state,
        state is Stopped ==> routine.state_after(state, event) == state,
{
}

/// A worker looks for shutdown after each job, be it one that failed, and goes on unless it
/// was signalled. Events that do not answer what it asks for change nothing.
pub proof fn law_worker_looks_for_shutdown_after_each_job(event: WorkerEvent)
    ensures
        worker_next(WorkerLoop::ProcessOne, WorkerEvent::Processed) is CheckCancelled,
        worker_next(WorkerLoop::CheckCancelled, WorkerEvent::Cancelled(true)) is Stop,
        worker_next(WorkerLoop::CheckCancelled, WorkerEvent::Cancelled(false)) is ProcessOne,
        event is Cancelled ==> worker_next(WorkerLoop::ProcessOne, event) is ProcessOne,
        event is Processed ==> worker_next(WorkerLoop::CheckCancelled, event) is CheckCancelled,
        worker_next(WorkerLoop::Stop, event) is Stop,
{
}

} // verus!
