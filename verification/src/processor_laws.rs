//! What a processor is made of, and which queues its workers serve.

use vstd::prelude::*;

use crate::config::{default_config, BalanceStrategy, ProcessorConfigView};
use crate::fetch::FetchView;
use crate::fetch_event_laws::{law_fetch_has_no_other_source, sources, within_bounds};
use crate::keys::{queue_key_text, Text};
use crate::outside::whole_seconds;
use crate::processor::{
    balanced, claiming_identity, copies_of, new_processor, queue_keys, rebalanced, worker_of, ProcessorView,
};

verus! {

/// Without being told otherwise, a processor has one worker for each CPU, takes its queues
/// in turn, dedicates no workers, does not fetch reliably, and gives its jobs 25 seconds on
/// shutdown.
pub proof fn law_default_configuration(cpus: usize, queue: Text)
    ensures
        default_config(cpus).num_workers == cpus,
        default_config(cpus).balance_strategy == BalanceStrategy::RoundRobin,
        !default_config(cpus).queue_configs.contains_key(queue),
        !default_config(cpus).reliable,
        default_config(cpus).shutdown_grace == whole_seconds(25),
{
}

/// A new processor looks at the queues that it was given, in that order, under their keys.
/// It has the configuration that it was given, and nothing else.
pub proof fn law_new_processor_has_its_queues<W>(names: Seq<Text>, config: ProcessorConfigView, text: Text)
    ensures
        ({
            let v = new_processor::<W>(names, config);
            &&& v.queues.len() == names.len()
            &&& forall|i: int| 0 <= i < names.len() ==> #[trigger] v.queues[i] == queue_key_text(names[i])
            &&& v.human_readable_queues == names
            &&& v.config == config
            &&& v.periodic_jobs.len() == 0
            &&& !v.workers.contains_key(text)
            &&& v.identity is None
            &&& v.tid is None
            &&& !v.registered_inprogress.contains(text)
        }),
        queue_keys(names).len() == names.len(),
        forall|i: int| 0 <= i < names.len() ==> #[trigger] queue_keys(names)[i] == queue_key_text(names[i]),
{
}

/// Whether a list is another one turned by one place: the last element stands first, and
/// each other one place further on.
pub open spec fn turned_by_one(before: Seq<Text>, after: Seq<Text>) -> bool {
    &&& after.len() == before.len()
    &&& before.len() > 0 ==> after[0] == before[before.len() - 1]
    &&& forall|i: int| 0 < i < before.len() ==> #[trigger] after[i] == before[i - 1]
}

/// Whether the queues are in the order that follows another one under the strategy.
pub open spec fn follows(strategy: BalanceStrategy, before: Seq<Text>, after: Seq<Text>) -> bool {
    match strategy {
        BalanceStrategy::RoundRobin => turned_by_one(before, after),
        BalanceStrategy::Fixed => after == before,
    }
}

/// Reordering turns the queues by exactly one place under the round-robin strategy, and
/// leaves them under the other. It changes nothing else of the processor.
pub proof fn law_reordering_turns_by_one_place<W>(v: ProcessorView<W>)
    ensures
        follows(v.config.balance_strategy, v.queues, rebalanced(v).queues),
        follows(v.config.balance_strategy, v.queues, balanced(v.config.balance_strategy, v.queues)),
        rebalanced(v) == (ProcessorView { queues: rebalanced(v).queues, ..v }),
{
}

/// Jobs are claimed if and only if the configuration says so and there is an identity, and
/// then for that identity.
pub proof fn law_claims_are_made_for_the_identity<W>(v: ProcessorView<W>)
    ensures
        claiming_identity(v) is Some <==> v.config.reliable && v.identity is Some,
        claiming_identity(v) is Some ==> claiming_identity(v) == v.identity,
{
}

/// A worker that is dedicated to a queue serves exactly that one, whether or not it is
/// among those of the processor. Any other worker serves those of the processor, in their
/// order. Each bears the identity and the thread id that it was given, and is the processor
/// in all else.
pub proof fn law_worker_serves_its_queues<W>(
    v: ProcessorView<W>,
    identity: Text,
    tid: Text,
    name: Text,
    workers: Map<Text, W>,
)
    ensures
        ({
            let dedicated = worker_of(v, identity, tid, Some(name), workers);
            let shared = worker_of(v, identity, tid, None, workers);
            &&& dedicated.queues.len() == 1
            &&& dedicated.queues[0] == queue_key_text(name)
            &&& shared.queues == v.queues
            &&& dedicated == (ProcessorView { queues: dedicated.queues, ..shared })
            &&& shared.identity == Some(identity)
            &&& shared.tid == Some(tid)
            &&& shared.workers == workers
            &&& shared.human_readable_queues == v.human_readable_queues
            &&& shared.periodic_jobs == v.periodic_jobs
            &&& shared.config == v.config
            &&& shared.registered_inprogress == v.registered_inprogress
        }),
{
}

/// Each command by which a dedicated worker fetches, however often it has reordered its
/// queues, has the one queue as its source and no other.
pub proof fn law_dedicated_worker_fetches_from_its_queue_only<W, E>(
    v: ProcessorView<W>,
    identity: Text,
    tid: Text,
    name: Text,
    workers: Map<Text, W>,
    fetch: FetchView<E>,
    source: Text,
)
    requires
        within_bounds(fetch),
        ({
            let worker = worker_of(v, identity, tid, Some(name), workers);
            fetch.queues == worker.queues || fetch.queues == rebalanced(worker).queues
        }),
        sources(fetch).contains(source),
    ensures
        source == queue_key_text(name),
        ({
            let worker = worker_of(v, identity, tid, Some(name), workers);
            rebalanced(worker).queues == worker.queues
        }),
{
    let worker = worker_of(v, identity, tid, Some(name), workers);
    assert(rebalanced(worker).queues =~= worker.queues);
    law_fetch_has_no_other_source(fetch, source);
}

/// Copies of workers are there for the same classes, each a clone of the original.
pub proof fn law_copies_are_clones<W: Clone>(copies: Map<Text, W>, workers: Map<Text, W>, class: Text)
    requires
        copies_of(copies, workers),
    ensures
        copies.contains_key(class) <==> workers.contains_key(class),
        workers.contains_key(class) ==> cloned::<W>(workers[class], copies[class]),
{
    assert(copies.dom().contains(class) == workers.dom().contains(class));
}

} // verus!
