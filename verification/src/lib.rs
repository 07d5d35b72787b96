//! Core of a local build/deploy orchestrator.
//!
//! A user composes described actions (shell commands, output checks, build,
//! pack and deploy steps) into pipelines; the engine here turns a pipeline
//! into an ordered run of subprocess invocations and filesystem placements,
//! with build-directory reuse, per-command placeholder substitution,
//! conditional success semantics and first-failure abort.
//!
//! The engine itself performs no I/O: every subprocess spawn, file copy,
//! removal and user acknowledgment is surfaced as an [`executor::StepResult`]
//! that a thin driver performs, feeding the observed outcome back in. All
//! decisions — what to run, in which order, what counts as success, which
//! output lines to keep — are made and verified here.

pub mod actions;
pub mod builds;
pub mod check;
pub mod command;
pub mod enplace;
pub mod environment;
pub mod executor;
pub mod flags;
pub mod info;
pub mod langs;
pub mod pipelines;
pub mod project;
pub mod runner;
pub mod strutil;
pub mod targets;
pub mod variables;
