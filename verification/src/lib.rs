//! Orchestration engine for mirroring a local project tree onto a remote
//! machine, running a command there, and mirroring the results back.
//!
//! The library owns the decision logic: configuration validation, the exact
//! delegate command lines for pushes, pulls and remote execution, the mapping
//! from delegate exit statuses to results, the one-shot completion fan-out,
//! and the pull-coordinator and run-orchestrator state machines. Process
//! spawning, threads and channels live outside the library and drive these
//! state machines with the events they observe.

pub mod args;
pub mod completion;
pub mod config;
pub mod coordinator;
pub mod duration;
pub mod ignore;
pub mod orchestrator;
pub mod remote_command;
pub mod sync;
pub mod text;
