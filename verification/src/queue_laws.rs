//! How the queues share a worker's attention.

use vstd::prelude::*;

use crate::config::BalanceStrategy;
use crate::keys::{queue_key_text, Text};
use crate::processor::{balanced, queue_keys, rebalanced, rotated, ProcessorView};

verus! {

/// The order of the queues after a number of fetches.
pub open spec fn after_fetches(strategy: BalanceStrategy, queues: Seq<Text>, n: nat) -> Seq<Text>
    decreases n,
{
    if n == 0 {
        queues
    } else {
        balanced(strategy, after_fetches(strategy, queues, (n - 1) as nat))
    }
}

/// Under the round-robin strategy the queue that was last is first after one fetch, the
/// one before it after two, and so on: `n` fetches put the last `n` queues first.
pub proof fn law_round_robin_turns_the_queues(queues: Seq<Text>, n: nat)
    requires
        n <= queues.len(),
    ensures
        after_fetches(BalanceStrategy::RoundRobin, queues, n) == queues.skip(queues.len() - n) + queues.take(
            queues.len() - n,
        ),
    decreases n,
{
    let len = queues.len() as int;
    if n == 0 {
        assert(queues.skip(len) + queues.take(len) =~= queues);
    } else {
        law_round_robin_turns_the_queues(queues, (n - 1) as nat);
        let before = queues.skip(len - (n - 1)) + queues.take(len - (n - 1));
        assert(before.last() == queues[len - n]);
        assert(rotated(before) =~= queues.skip(len - n) + queues.take(len - n));
    }
}

/// Under the round-robin strategy the queues are the first to be looked at in turn, from
/// the last to the first: in as many fetches as there are queues, each position has its
/// one fetch, and the order is then what it was.
pub proof fn law_round_robin_favours_each_queue_once(queues: Seq<Text>)
    ensures
        forall|n: nat|
            1 <= n <= queues.len() ==> (#[trigger] after_fetches(BalanceStrategy::RoundRobin, queues, n))[0]
                == queues[queues.len() - n],
        after_fetches(BalanceStrategy::RoundRobin, queues, queues.len()) == queues,
{
    assert forall|n: nat| 1 <= n <= queues.len() implies (#[trigger] after_fetches(
        BalanceStrategy::RoundRobin,
        queues,
        n,
    ))[0] == queues[queues.len() - n] by {
        law_round_robin_turns_the_queues(queues, n);
    }
    law_round_robin_turns_the_queues(queues, queues.len());
    assert(queues.skip(0) + queues.take(0) =~= queues);
}

/// Under the other strategy the order of the queues never changes.
pub proof fn law_fixed_order_stays(queues: Seq<Text>, n: nat)
    ensures
        after_fetches(BalanceStrategy::Fixed, queues, n) == queues,
    decreases n,
{
    if n > 0 {
        law_fixed_order_stays(queues, (n - 1) as nat);
    }
}

/// No strategy loses, adds or doubles a queue.
pub proof fn law_balancing_keeps_the_queues(strategy: BalanceStrategy, queues: Seq<Text>)
    ensures
        balanced(strategy, queues).to_multiset() == queues.to_multiset(),
{
    if queues.len() > 0 {
        let last = seq![queues.last()];
        vstd::seq_lib::lemma_multiset_commutative(queues.drop_last(), last);
        vstd::seq_lib::lemma_multiset_commutative(last, queues.drop_last());
        assert(queues =~= queues.drop_last() + last);
    }
}

/// Every key that a processor looks at is that of one of the queues it was given, however
/// often it has fetched.
pub proof fn law_keys_are_those_of_the_queues(strategy: BalanceStrategy, names: Seq<Text>, n: nat, key: Text)
    ensures
        after_fetches(strategy, queue_keys(names), n).contains(key) <==> exists|name: Text| #[trigger]
            names.contains(name) && key == queue_key_text(name),
    decreases n,
{
    broadcast use vstd::seq_lib::group_to_multiset_ensures;

    let keys = queue_keys(names);
    if n == 0 {
        if keys.contains(key) {
            let i = choose|i: int| 0 <= i < keys.len() && keys[i] == key;
            assert(names.contains(names[i]));
        }
        if exists|name: Text| #[trigger] names.contains(name) && key == queue_key_text(name) {
            let name = choose|name: Text| #[trigger] names.contains(name) && key == queue_key_text(name);
            let i = choose|i: int| 0 <= i < names.len() && names[i] == name;
            assert(keys[i] == key);
        }
    } else {
        let before = after_fetches(strategy, keys, (n - 1) as nat);
        law_keys_are_those_of_the_queues(strategy, names, (n - 1) as nat, key);
        law_balancing_keeps_the_queues(strategy, before);
        assert(before.contains(key) <==> before.to_multiset().count(key) > 0);
        let after = balanced(strategy, before);
        assert(after.contains(key) <==> after.to_multiset().count(key) > 0);
    }
}

/// A processor whose queues were put in their next order a number of times.
pub open spec fn rebalanced_times<W>(v: ProcessorView<W>, n: nat) -> ProcessorView<W>
    decreases n,
{
    if n == 0 {
        v
    } else {
        rebalanced(rebalanced_times(v, (n - 1) as nat))
    }
}

/// Each time that a processor reorders its queues, they stay the same queues, and nothing
/// else of it changes.
pub proof fn law_reordering_changes_the_order_alone<W>(v: ProcessorView<W>, n: nat)
    ensures
        rebalanced_times(v, n) == (ProcessorView {
            queues: after_fetches(v.config.balance_strategy, v.queues, n),
            ..v
        }),
        rebalanced_times(v, n).queues.to_multiset() == v.queues.to_multiset(),
    decreases n,
{
    if n > 0 {
        let before = rebalanced_times(v, (n - 1) as nat);
        law_reordering_changes_the_order_alone(v, (n - 1) as nat);
        law_balancing_keeps_the_queues(v.config.balance_strategy, before.queues);
    }
}

/// A processor under the round-robin strategy that has reordered its queues as often as it
/// has queues is what it was, and each position of the list was the first exactly once.
pub proof fn law_round_robin_starves_no_queue<W>(v: ProcessorView<W>)
    requires
        v.config.balance_strategy == BalanceStrategy::RoundRobin,
    ensures
        rebalanced_times(v, v.queues.len()) == v,
        forall|n: nat|
            1 <= n <= v.queues.len() ==> (#[trigger] rebalanced_times(v, n)).queues[0] == v.queues[v.queues.len() - n],
{
    law_round_robin_favours_each_queue_once(v.queues);
    law_reordering_changes_the_order_alone(v, v.queues.len());
    assert forall|n: nat| 1 <= n <= v.queues.len() implies (#[trigger] rebalanced_times(v, n)).queues[0]
        == v.queues[v.queues.len() - n] by {
        law_reordering_changes_the_order_alone(v, n);
    }
}

} // verus!
