//! A recurring-task runner: jobs bound to crontab or fixed-interval triggers,
//! each running its `before`, `exec` and `after` command groups in order.
//!
//! The crate holds the scheduling and execution logic: command-group
//! validation, trigger construction and trigger-time decisions, the per-cycle
//! execution pipeline, and the formatting of captured command output. The
//! surrounding program supplies the clock, spawns processes and performs the
//! actual waiting and writing.

pub mod command;
pub mod config;
pub mod errors;
pub mod process;
pub mod trigger;

