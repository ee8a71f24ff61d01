//! How a processor is set up.

use core::time::Duration;
use vstd::prelude::*;

use crate::keys::Text;
use crate::outside::{logical_cpus, whole_seconds, CpuCount};
use crate::string_map::StringMap;

verus! {

/// The strategy for balancing the priority of the queues.
#[derive(Clone, Copy, Debug, PartialEq, Eq, Structural)]
#[non_exhaustive]
pub enum BalanceStrategy {
    /// Rotate the list of queues by one every time jobs are fetched from Redis. This
    /// gives each queue in the list an equal opportunity to have its jobs run.
    RoundRobin,
    /// Do not change the list of queues. This can starve queues: if the first one
    /// always has a job to run, then the jobs in the others never run.
    Fixed,
}

impl Default for BalanceStrategy {
    fn default() -> (strategy: Self)
        ensures
            strategy == BalanceStrategy::RoundRobin,
    {
        BalanceStrategy::RoundRobin
    }
}

/// How one queue is set up.
#[derive(Clone, Copy, Debug, PartialEq, Eq, Structural)]
#[non_exhaustive]
pub struct QueueConfig {
    /// The number of additional workers to dedicate to the queue.
    pub num_workers: usize,
}

impl Default for QueueConfig {
    fn default() -> (config: Self)
        ensures
            config.num_workers == 0,
    {
        QueueConfig { num_workers: 0 }
    }
}

impl QueueConfig {
    /// Sets the number of workers to dedicate to the queue.
    #[must_use]
    pub fn num_workers(self, num_workers: usize) -> (config: Self)
        ensures
            config == (QueueConfig { num_workers, ..self }),
    {
        QueueConfig { num_workers, ..self }
    }
}

/// How a processor is set up.
#[non_exhaustive]
pub struct ProcessorConfig {
    /// The number of workers that can run at the same time. They are shared across all
    /// the queues of the processor.
    ///
    /// If the workload is largely CPU-bound, this should probably match the CPU count,
    /// which is the default. If it is largely IO-bound, this can probably be quite a
    /// bit higher.
    pub num_workers: usize,
    /// The strategy for balancing the priority of fetching the queues' jobs. Defaults
    /// to [`BalanceStrategy::RoundRobin`].
    ///
    /// Redis checks queues for jobs in the order in which they are given. If the first
    /// one always has an item, the other queues will never have their jobs run, unless
    /// the strategy changes the order.
    pub balance_strategy: BalanceStrategy,
    /// Queue-specific configurations, by the name of the queue. The queues need not be
    /// among those of the processor.
    pub queue_configs: StringMap<QueueConfig>,
    /// When `true`, each job is claimed by moving it into a list of this process
    /// instead of taking it out of Redis, and the lists of processes that have died are
    /// requeued. A job that is in flight when the process is killed is then run again
    /// instead of being lost. Delivery becomes at-least-once, so workers should be
    /// idempotent. Defaults to `false`.
    ///
    /// A process counts as dead when its heartbeat is absent. A living process whose
    /// heartbeat is starved past its time to live is judged dead, and its jobs run a
    /// second time. Since each worker holds a connection while it waits for a job, the
    /// pool should hold at least `num_workers` connections and some to spare.
    pub reliable: bool,
    /// How long a job in flight is given to finish on shutdown before it is interrupted
    /// and pushed back onto its queue. Set it comfortably below the time after which
    /// the process is killed. Defaults to 25 seconds.
    pub shutdown_grace: Duration,
}

/// A [`ProcessorConfig`] by its contents.
pub struct ProcessorConfigView {
    pub num_workers: usize,
    pub balance_strategy: BalanceStrategy,
    pub queue_configs: Map<Text, QueueConfig>,
    pub reliable: bool,
    pub shutdown_grace: Duration,
}

impl View for ProcessorConfig {
    type V = ProcessorConfigView;

    open spec fn view(&self) -> ProcessorConfigView {
        ProcessorConfigView {
            num_workers: self.num_workers,
            balance_strategy: self.balance_strategy,
            queue_configs: self.queue_configs@,
            reliable: self.reliable,
            shutdown_grace: self.shutdown_grace,
        }
    }
}

/// The configuration that a processor starts from on a machine with `cpus` CPUs.
pub open spec fn default_config(cpus: usize) -> ProcessorConfigView {
    ProcessorConfigView {
        num_workers: cpus,
        balance_strategy: BalanceStrategy::RoundRobin,
        queue_configs: Map::empty(),
        reliable: false,
        shutdown_grace: whole_seconds(25),
    }
}

impl Default for ProcessorConfig {
    fn default() -> (config: Self)
        ensures
            config.num_workers >= 1,
            config@ == default_config(config.num_workers),
            exists|cpus: CpuCount| config@ == default_config(#[trigger] cpus@),
    {
        let cpus: CpuCount = logical_cpus();
        ProcessorConfig::for_cpus(cpus.get())
    }
}

impl Clone for ProcessorConfig {
    fn clone(&self) -> (copy: Self)
        ensures
            copy@ == self@,
    {
        let queue_configs: StringMap<QueueConfig> = self.queue_configs.clone();
        assert(queue_configs@ =~= self.queue_configs@);
        ProcessorConfig {
            num_workers: self.num_workers,
            balance_strategy: self.balance_strategy,
            queue_configs,
            reliable: self.reliable,
            shutdown_grace: self.shutdown_grace,
        }
    }
}

impl ProcessorConfig {
    /// The defaults for a machine with `cpus` CPUs.
    #[must_use]
    pub fn for_cpus(cpus: usize) -> (config: Self)
        ensures
            config@ == default_config(cpus),
    {
        ProcessorConfig {
            num_workers: cpus,
            balance_strategy: BalanceStrategy::default(),
            queue_configs: StringMap::new(),
            reliable: false,
            shutdown_grace: Duration::from_secs(25),
        }
    }

    /// Sets the number of shared workers.
    #[must_use]
    pub fn num_workers(self, num_workers: usize) -> (config: Self)
        ensures
            config@ == (ProcessorConfigView { num_workers, ..self@ }),
    {
        ProcessorConfig { num_workers, ..self }
    }

    /// Sets the strategy for balancing the priority of the queues.
    #[must_use]
    pub fn balance_strategy(self, balance_strategy: BalanceStrategy) -> (config: Self)
        ensures
            config@ == (ProcessorConfigView { balance_strategy, ..self@ }),
    {
        ProcessorConfig { balance_strategy, ..self }
    }

    /// Sets how the queue named `queue` is set up, in place of what was set before.
    #[must_use]
    pub fn queue_config(self, queue: String, config: QueueConfig) -> (configured: Self)
        ensures
            configured@ == (ProcessorConfigView {
                queue_configs: self@.queue_configs.insert(queue@, config),
                ..self@
            }),
    {
        let mut queue_configs: StringMap<QueueConfig> = self.queue_configs;
        let _ = queue_configs.insert(queue, config);
        ProcessorConfig {
            num_workers: self.num_workers,
            balance_strategy: self.balance_strategy,
            queue_configs,
            reliable: self.reliable,
            shutdown_grace: self.shutdown_grace,
        }
    }

    /// Switches reliable fetch on or off (see [`ProcessorConfig::reliable`]).
    #[must_use]
    pub fn reliable(self, reliable: bool) -> (config: Self)
        ensures
            config@ == (ProcessorConfigView { reliable, ..self@ }),
    {
        ProcessorConfig { reliable, ..self }
    }

    /// Sets the shutdown grace (see [`ProcessorConfig::shutdown_grace`]).
    #[must_use]
    pub fn shutdown_grace(self, grace: Duration) -> (config: Self)
        ensures
            config@ == (ProcessorConfigView { shutdown_grace: grace, ..self@ }),
    {
        ProcessorConfig { shutdown_grace: grace, ..self }
    }
}

} // verus!
