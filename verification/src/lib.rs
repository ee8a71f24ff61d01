//! Verified core of a Sidekiq-compatible job processor.

pub mod command;
pub mod command_laws;
pub mod concurrent_recovery_laws;
pub mod config;
pub mod fetch;
pub mod fetch_event_laws;
pub mod fetch_laws;
pub mod job;
pub mod keys;
pub mod outside;
pub mod periodic;
pub mod process_laws;
pub mod process_run;
pub mod processor;
pub mod processor_laws;
pub mod queue_laws;
pub mod recovery;
pub mod recovery_event_laws;
pub mod recovery_laws;
pub mod reliability_laws;
pub mod run;
pub mod run_laws;
pub mod store;
pub mod string_map;
pub mod tick;
pub mod tick_laws;
pub mod tick_run;
pub mod tick_run_event_laws;
pub mod tick_run_laws;
pub mod work;
pub mod work_event_laws;
pub mod work_laws;
