//! What holds of the processing of jobs, whatever happens between its effects.

use vstd::arithmetic::div_mod::{lemma_mod_add_multiples_vanish, lemma_small_mod};
use vstd::prelude::*;

use crate::config::BalanceStrategy;
use crate::process_run::{
    process_checked, process_effect, process_next, process_reads_clock, ProcessEffectView, ProcessEventView,
    ProcessRunView,
};
use crate::processor::{claiming_identity, ProcessorView};
use crate::processor_laws::follows;
use crate::tick::{ProcessOne, TickPhase, WorkFetcher};
use crate::tick_run::{
    recorded_under, tick_run_effect, tick_run_next, tick_run_reads_clock, PartView, TickRunEventView, TickRunView,
};

verus! {

/// Once shutdown was signalled, no tick begins: the processing is over without an error,
/// and the processor stays as it is.
pub proof fn law_no_tick_begins_after_shutdown<W, E>(v: ProcessorView<W>)
    ensures
        process_checked::<W, E>(v, true).0 == v,
        process_checked::<W, E>(v, true).1.state == ProcessOne::<E>::Return(Ok(())),
        process_checked::<W, E>(v, true).1.tick is None,
        process_effect(process_checked::<W, E>(v, true).1) is None,
{
}

/// Each tick that the processing begins fetches from the queues of the processor turned by
/// exactly one place under the round-robin strategy, and as they were under the other. It
/// claims for the identity of the processor, if it claims at all, and gives its job the
/// grace that is configured. Nothing else of the processor changes.
pub proof fn law_each_tick_turns_the_queues_once<W, E>(v: ProcessorView<W>)
    ensures
        ({
            let (after, run) = process_checked::<W, E>(v, false);
            &&& follows(v.config.balance_strategy, v.queues, after.queues)
            &&& after == (ProcessorView { queues: after.queues, ..v })
            &&& run.state is Tick
            &&& run.tick matches Some(tick)
            &&& tick.tick.phase is Fetching
            &&& tick.tick.grace == v.config.shutdown_grace
            &&& tick.part matches PartView::Fetch(fetch)
            &&& fetch.queues == after.queues
            &&& fetch.identity == claiming_identity(v)
            &&& fetch.phase is Connecting
        }),
{
}

/// The processing goes from one tick to the next as they come out. While a tick is under
/// way, it waits for what the tick waits for, and hands on what comes of it, at the time
/// that it is.
pub proof fn law_processing_follows_the_tick_under_way<W, E>(
    v: ProcessorView<W>,
    run: ProcessRunView<E>,
    tick: TickRunView<E>,
    event: TickRunEventView<E>,
    now: int,
)
    requires
        run.state is Tick,
        run.tick == Some(tick),
    ensures
        tick_run_effect(tick) matches Some(effect) ==> process_effect(run) == Some(ProcessEffectView::Tick(effect)),
        ({
            let (after, next) = process_next(v, run, ProcessEventView::Tick(event), now);
            let (on, registered) = tick_run_next(tick, recorded_under(v), v.registered_inprogress, event, now);
            &&& after == (ProcessorView { registered_inprogress: registered, ..v })
            &&& match on.tick.phase {
                TickPhase::Finished(Ok(WorkFetcher::NoWorkFound)) => {
                    &&& next.state is CheckCancelled
                    &&& next.tick is None
                    &&& process_effect(next) == Some(ProcessEffectView::CheckCancelled)
                },
                TickPhase::Finished(Ok(WorkFetcher::Done)) => {
                    next.state == ProcessOne::<E>::Return(Ok(())) && next.tick is None
                },
                TickPhase::Finished(Err(error)) => {
                    next.state == ProcessOne::<E>::Return(Err(error)) && next.tick is None
                },
                _ => next.state is Tick && next.tick == Some(on),
            }
            &&& process_reads_clock(run, ProcessEventView::Tick(event)) <==> tick_run_reads_clock(tick, event)
        }),
{
}

/// Between two ticks the processing looks for shutdown, and goes on as it does at its
/// start. Once it is over it waits for nothing. Events that do not answer what it waits for
/// change nothing.
pub proof fn law_processing_heeds_answers_only<W, E>(
    v: ProcessorView<W>,
    run: ProcessRunView<E>,
    event: ProcessEventView<E>,
    cancelled: bool,
    now: int,
)
    ensures
        run.state is CheckCancelled ==> {
            &&& process_effect(run) == Some(ProcessEffectView::CheckCancelled)
            &&& process_next(v, run, ProcessEventView::Cancelled(cancelled), now) == process_checked::<W, E>(
                v,
                cancelled,
            )
            &&& event is Tick ==> process_next(v, run, event, now) == (v, run)
        },
        run.state is Tick && event is Cancelled ==> process_next(v, run, event, now) == (v, run),
        run.state is Return ==> process_effect(run) is None && process_next(v, run, event, now) == (v, run),
{
}

/// One event of the processing, or, where it is over, the beginning of the next one.
pub open spec fn processing_step<W, E>(
    a: (ProcessorView<W>, ProcessRunView<E>),
    b: (ProcessorView<W>, ProcessRunView<E>),
) -> bool {
    ||| exists|event: ProcessEventView<E>, now: int| b == #[trigger] process_next(a.0, a.1, event, now)
    ||| a.1.state is Return && exists|cancelled: bool| b == #[trigger] process_checked::<W, E>(a.0, cancelled)
}

/// A course of a worker that processes one job after the other, whatever comes of its
/// effects.
pub open spec fn processing_trace<W, E>(trace: Seq<(ProcessorView<W>, ProcessRunView<E>)>) -> bool {
    forall|i: int| #![trigger trace[i]] 0 < i < trace.len() ==> processing_step(trace[i - 1], trace[i])
}

/// Whether a tick begins.
pub open spec fn tick_begins<W, E>(
    a: (ProcessorView<W>, ProcessRunView<E>),
    b: (ProcessorView<W>, ProcessRunView<E>),
) -> bool {
    !(a.1.state is Tick) && b.1.state is Tick
}

/// How many ticks have begun up to a position.
pub open spec fn ticks_begun<W, E>(trace: Seq<(ProcessorView<W>, ProcessRunView<E>)>, i: int) -> nat
    decreases i,
{
    if i <= 0 {
        0
    } else {
        ticks_begun(trace, i - 1) + if tick_begins(trace[i - 1], trace[i]) {
            1nat
        } else {
            0
        }
    }
}

/// The queues are reordered when a tick begins, and at no other time; the configuration
/// never changes.
proof fn lemma_step<W, E>(a: (ProcessorView<W>, ProcessRunView<E>), b: (ProcessorView<W>, ProcessRunView<E>))
    requires
        processing_step(a, b),
    ensures
        b.0.config == a.0.config,
        tick_begins(a, b) ==> follows(a.0.config.balance_strategy, a.0.queues, b.0.queues),
        tick_begins(a, b) ==> (b.1.tick matches Some(tick) && tick.part matches PartView::Fetch(fetch) && fetch.queues
            == b.0.queues),
        !tick_begins(a, b) ==> b.0.queues == a.0.queues,
{
    law_each_tick_turns_the_queues_once::<W, E>(a.0);
    law_no_tick_begins_after_shutdown::<W, E>(a.0);
}

/// However a worker's effects come out: after a number of ticks under the round-robin
/// strategy, its queues are those that it had, turned by as many places.
pub proof fn law_ticks_turn_the_queues<W, E>(
    trace: Seq<(ProcessorView<W>, ProcessRunView<E>)>,
    i: int,
    j: int,
)
    requires
        processing_trace(trace),
        0 <= i < trace.len(),
        trace[0].0.config.balance_strategy == BalanceStrategy::RoundRobin,
        0 <= j < trace[0].0.queues.len(),
    ensures
        trace[i].0.config == trace[0].0.config,
        trace[i].0.queues.len() == trace[0].0.queues.len(),
        trace[i].0.queues[j] == trace[0].0.queues[(j - ticks_begun(trace, i)) % (trace[0].0.queues.len() as int)],
    decreases i,
{
    let n = trace[0].0.queues.len() as int;
    if i == 0 {
        lemma_small_mod(j as nat, n as nat);
    } else {
        let before = trace[i - 1].0.queues;
        let c = ticks_begun(trace, i - 1) as int;
        lemma_step(trace[i - 1], trace[i]);
        law_ticks_turn_the_queues(trace, i - 1, j);
        if tick_begins(trace[i - 1], trace[i]) {
            if j > 0 {
                law_ticks_turn_the_queues(trace, i - 1, j - 1);
            } else {
                law_ticks_turn_the_queues(trace, i - 1, n - 1);
                lemma_mod_add_multiples_vanish(-1 - c, n);
                assert(n - 1 - c == n + (-1 - c));
            }
        }
    }
}

/// Under the round-robin strategy, in as many ticks as there are queues, each position of
/// the list is the first that a fetch looks at exactly once: the first tick begins with the
/// last queue, the next one with the one before, and so on. No queue is starved.
pub proof fn law_ticks_favour_each_queue_once<W, E>(trace: Seq<(ProcessorView<W>, ProcessRunView<E>)>, i: int)
    requires
        processing_trace(trace),
        0 < i < trace.len(),
        trace[0].0.config.balance_strategy == BalanceStrategy::RoundRobin,
        tick_begins(trace[i - 1], trace[i]),
        ticks_begun(trace, i) <= trace[0].0.queues.len(),
    ensures
        1 <= ticks_begun(trace, i),
        trace[i].1.tick matches Some(tick) && tick.part matches PartView::Fetch(fetch) && fetch.queues.len()
            == trace[0].0.queues.len() && fetch.queues[0] == trace[0].0.queues[trace[0].0.queues.len() - ticks_begun(
            trace,
            i,
        )],
{
    let n = trace[0].0.queues.len() as int;
    let c = ticks_begun(trace, i) as int;
    lemma_step(trace[i - 1], trace[i]);
    law_ticks_turn_the_queues(trace, i, 0);
    lemma_mod_add_multiples_vanish(-c, n);
    assert(n + (-c) == n - c);
    lemma_small_mod((n - c) as nat, n as nat);
}

/// Under the other strategy every fetch looks at the queues in the order that was given.
pub proof fn law_ticks_keep_a_fixed_order<W, E>(trace: Seq<(ProcessorView<W>, ProcessRunView<E>)>, i: int)
    requires
        processing_trace(trace),
        0 <= i < trace.len(),
        trace[0].0.config.balance_strategy == BalanceStrategy::Fixed,
    ensures
        trace[i].0.config == trace[0].0.config,
        trace[i].0.queues == trace[0].0.queues,
    decreases i,
{
    if i > 0 {
        law_ticks_keep_a_fixed_order(trace, i - 1);
        lemma_step(trace[i - 1], trace[i]);
    }
}

} // verus!
