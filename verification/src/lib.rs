//! A library for building and supervising process-orchestration runtimes.
//!
//! A runtime is an ordered list of jobs; a job is an ordered list of tasks;
//! a task is a set of processes that run concurrently. Each process may name
//! follow-up actions to run when it exits (`onsucceed`, `onfail`) and log
//! monitors that watch a rolling window of its output and fire a trigger
//! action when a test command succeeds on that window.
//!
//! This crate holds the verified core: the data model, the rolling buffer,
//! the line splitter for multiplexed child output, the action resolution
//! rules, the log-monitor state machine, and the builder that validates a
//! raw profile into a runnable runtime. Spawning children, threads, and
//! channel plumbing live outside the library, driven by the decision
//! functions defined here.

pub mod action;
pub mod ctx;
pub mod defaults;
pub mod error;
pub mod job;
pub mod limits;
pub mod local_bin;
pub mod log_monitor;
pub mod log_util;
pub mod message;
pub mod process;
pub mod profile;
pub mod rolling_buffer;
pub mod runtime;
pub mod runtime_builder;
pub mod stream;
pub mod task;
pub mod text;
pub mod triggers;
pub mod uplink;
pub mod util;

pub use ctx::Ctx;
pub use job::Job;
pub use local_bin::BinCommand;
pub use log_monitor::LogMonitor;
pub use message::LogMonitorCmd;
pub use message::LogMonitorMessage;
pub use process::Process;
pub use rolling_buffer::RollingBuffer;
pub use runtime::Runtime;
pub use task::Task;
pub use uplink::UplinkMessage;
