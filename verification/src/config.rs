//! The configured shape of the runner's work: a set of jobs, each with a
//! trigger specification and up to three command groups.
//!
//! These records arrive already decoded from the configuration text; turning
//! them into a runnable form (validation, trigger parsing) happens in
//! [`crate::process`].

use vstd::prelude::*;

verus! {

/// A job's raw command specification: either one command line or a list.
#[derive(Clone, Debug)]
pub enum Command {
    Single(String),
    Multiple(Vec<String>),
}

impl Command {
    /// The command lines this specification stands for, in order.
    pub open spec fn lines(self) -> Seq<Seq<char>> {
        match self {
            Command::Single(s) => seq![s@],
            Command::Multiple(v) => v.deep_view(),
        }
    }

    /// Normalizes the specification to an ordered list of command lines.
    pub fn into_vec(self) -> (r: Vec<String>)
        ensures
            r.deep_view() == self.lines(),
    {
        match self {
            Command::Single(s) => {
                let mut v: Vec<String> = Vec::new();
                v.push(s);
                proof {
                    assert(v.deep_view() =~= Command::Single(s).lines());
                }
                v
            },
            Command::Multiple(v) => v,
        }
    }
}

/// How a job's trigger is specified: a parseable duration or a crontab
/// expression, both still in textual form.
#[derive(Clone, Debug)]
pub enum ProcessType {
    /// A fixed-interval trigger, as a human-readable duration.
    Basic(String),
    /// A calendar trigger, as a crontab expression.
    Crontab(String),
}

/// One job record, as decoded from configuration.
#[derive(Clone, Debug)]
pub struct Job {
    /// Name used in diagnostics; not required to be unique.
    pub name: String,
    /// A disabled job is skipped at startup and never runs.
    pub enable: bool,
    /// The trigger specification.
    pub duration: ProcessType,
    /// The mandatory main command group (the configuration's `exec` key;
    /// `exec` itself is a reserved word here).
    pub exec_cmds: Command,
    /// Commands run before the main group, if any.
    pub before: Option<Command>,
    /// Commands run after the main group, if any.
    pub after: Option<Command>,
    /// Log file path; absent means captured output goes to standard output.
    pub logs: Option<String>,
}

/// The whole decoded configuration: an optional timezone name and the jobs.
#[derive(Clone, Debug)]
pub struct Configuration {
    /// Timezone for calendar triggers; absent means UTC.
    pub tz: Option<String>,
    /// The jobs to run.
    pub jobs: Vec<Job>,
}

/// The default for an absent boolean field.
pub fn default_bool<const V: bool>() -> (r: bool)
    ensures
        r == V,
{
    V
}

/// Whether a job takes part in scheduling at all: a disabled job never
/// enters a scheduling loop, so it never logs a cycle and never executes
/// a command.
pub fn should_spawn(job: &Job) -> (r: bool)
    ensures
        r == job.enable,
{
    job.enable
}

} // verus!
