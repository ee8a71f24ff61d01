# sidekiq

The core of a Sidekiq-compatible job processor, verified with Verus.

Every operation that talks to Redis is a machine: it names the one effect that it waits
for, its driver performs the effect, and the machine is resumed with what came of it. The
machines are pure, and their contracts say exactly how each event takes them on.

- `src/keys.rs`, `src/string_map.rs`, `src/job.rs`, `src/command.rs`, `src/config.rs`: names
  of keys, an ordered map, the plain data, and how a processor is set up.
- `src/processor.rs`, `src/fetch.rs`, `src/work.rs`, `src/tick.rs`, `src/tick_run.rs`,
  `src/process_run.rs`, `src/periodic.rs`, `src/recovery.rs`, `src/run.rs`: the processor and its machines.
- `src/store.rs`: what the commands do to Redis, as far as the laws need it.
- `src/*_laws.rs`: what the machines do to Redis as a whole, such as that a reliably
  claimed job outlives its process, and that no interleaving of reliable fetches,
  recoveries and shutdown requeues of claimed jobs loses or doubles a job. A plain fetch
  takes its job out of Redis, and a crash loses it.
- `src/outside.rs`: what is taken from other crates and believed.
- `app/`: an asynchronous driver on tokio.
