//! Error kinds of the runner.
//!
//! Startup errors ([`ProcessError`]) are fatal: the affected job never runs.
//! Command errors ([`CommandError`]) are local to one cycle: the failed
//! group's remaining commands and the cycle's remaining groups are skipped,
//! and the job waits for its next trigger.

use vstd::prelude::*;

verus! {

/// A startup failure: the job's commands or its trigger could not be
/// turned into a runnable form.
#[derive(Debug)]
pub enum ProcessError {
    /// The crontab expression does not parse; carries the parser's message.
    CrontabParse(String),
    /// A command group holds an empty command line: the group's name
    /// (`before`, `exec` or `after`) and the zero-based position.
    EmptyCommand(String, usize),
    /// The interval duration does not parse; carries the parser's message.
    DurationParse(String),
    /// The interval duration parsed but is negative.
    NegativeDuration,
}

/// A failure while running one command of a group.
#[derive(Debug)]
pub enum CommandError {
    /// Captured output could not be written to the log sink; names the
    /// section (`stdout` or `stderr`) and carries the writer's message.
    LogsBufferWrite { out_buf: String, error: String },
    /// The program could not be spawned; carries the truncated command text
    /// and the spawner's message.
    CmdError { cmd: String, error: String },
    /// The program ran but exited with a non-success status; carries the
    /// truncated command text.
    CmdFailed(String),
}

} // verus!
