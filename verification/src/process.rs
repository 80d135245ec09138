//! Turning a job record into a runnable plan, and running one cycle of it.
//!
//! [`get_commands`] is the command-group validator: it normalizes the three
//! groups and rejects the first blank command line, naming the group and the
//! position. [`JobPlan::new`] is the whole startup step for one job; a
//! failure here is fatal and the job never runs. [`Cycle`] is the execution
//! pipeline's state: it walks the `before`, `exec` and `after` groups in
//! strict order and skips everything after the first failed command.
//!
//! The surrounding program drives the cycle: it asks for the current
//! command, spawns it, and records whether it succeeded.

use vstd::prelude::*;

use crate::command::{blank, is_space, is_space_char};
use crate::config::{Command, Job, ProcessType};
use crate::errors::ProcessError;
use crate::trigger::{trigger_error_matches, trigger_matches, trigger_spec_ok, Trigger};

verus! {

/// The command lines of an optional group; an absent group has none.
pub open spec fn opt_lines(c: Option<Command>) -> Seq<Seq<char>> {
    match c {
        Option::None => Seq::empty(),
        Option::Some(cmd) => cmd.lines(),
    }
}

/// Whether no command line of a group is blank: a blank line (empty or
/// whitespace only) would split to no tokens at all, so validation treats
/// it like an empty command.
pub open spec fn all_nonblank(g: Seq<Seq<char>>) -> bool {
    forall|i: int| 0 <= i < g.len() ==> !blank(g[i])
}

/// The position of the first blank command line of a group; meaningful only
/// when one exists.
pub open spec fn first_blank(g: Seq<Seq<char>>) -> int
    decreases g.len(),
{
    if g.len() == 0 {
        0
    } else if blank(g[0]) {
        0
    } else {
        1 + first_blank(g.drop_first())
    }
}

proof fn lemma_first_blank_at(g: Seq<Seq<char>>, k: int)
    requires
        0 <= k < g.len(),
        blank(g[k]),
        forall|j: int| 0 <= j < k ==> !blank(g[j]),
    ensures
        first_blank(g) == k,
    decreases k,
{
    if k > 0 {
        lemma_first_blank_at(g.drop_first(), k - 1);
    }
}

/// Whether the three groups are valid: no blank command line anywhere, and
/// the mandatory `exec` group holds at least one command.
pub open spec fn groups_ok(b: Seq<Seq<char>>, x: Seq<Seq<char>>, a: Seq<Seq<char>>) -> bool {
    &&& all_nonblank(b)
    &&& all_nonblank(x)
    &&& all_nonblank(a)
    &&& x.len() > 0
}

/// The validation error for three invalid groups: it names the first
/// offending group in `before`, `exec`, `after` order and the zero-based
/// position of that group's first blank line; an `exec` group with no
/// command at all is reported at position zero.
pub open spec fn empty_command_error(
    e: ProcessError,
    b: Seq<Seq<char>>,
    x: Seq<Seq<char>>,
    a: Seq<Seq<char>>,
) -> bool {
    &&& e matches ProcessError::EmptyCommand(g, i)
    &&& if !all_nonblank(b) {
        g@ == "before"@ && i as int == first_blank(b)
    } else if x.len() == 0 {
        g@ == "exec"@ && i == 0
    } else if !all_nonblank(x) {
        g@ == "exec"@ && i as int == first_blank(x)
    } else {
        g@ == "after"@ && i as int == first_blank(a)
    }
}

/// Whether a string is blank: empty or whitespace only.
fn is_blank_line(s: &str) -> (r: bool)
    ensures
        r == blank(s@),
{
    let n = s.unicode_len();
    let mut i: usize = 0;
    while i < n
        invariant
            n == s@.len(),
            i <= n,
            forall|j: int| 0 <= j < i ==> is_space(s@[j]),
        decreases n - i,
    {
        let c = s.get_char(i);
        if !is_space_char(c) {
            proof {
                assert(!blank(s@));
            }
            return false;
        }
        i += 1;
    }
    true
}

/// The position of the first blank string of `v`, if any.
fn find_blank(v: &Vec<String>) -> (r: Option<usize>)
    ensures
        match r {
            Option::Some(i) => i < v@.len() && i as int == first_blank(v.deep_view())
                && !all_nonblank(v.deep_view()),
            Option::None => all_nonblank(v.deep_view()),
        },
{
    let mut i: usize = 0;
    while i < v.len()
        invariant
            i <= v@.len(),
            forall|j: int| 0 <= j < i ==> !blank(v.deep_view()[j]),
        decreases v@.len() - i,
    {
        if is_blank_line(v[i].as_str()) {
            proof {
                assert(blank(v.deep_view()[i as int]));
                lemma_first_blank_at(v.deep_view(), i as int);
            }
            return Some(i);
        }
        i += 1;
    }
    None
}

/// The command-group validator: normalizes the optional `before` group, the
/// mandatory `exec` group and the optional `after` group into three ordered
/// lists of command lines, absent optional groups becoming empty lists. It
/// accepts valid groups unchanged, order preserved. A blank command line
/// (empty or whitespace only, which would split to no tokens) fails
/// validation, naming its group and zero-based position, without scanning
/// past it; an `exec` specification with no command at all fails the same
/// way at position zero.
pub fn get_commands(before: Option<Command>, exec_cmds: Command, after: Option<Command>) -> (r:
    Result<(Vec<String>, Vec<String>, Vec<String>), ProcessError>)
    ensures
        match r {
            Ok(t) => {
                &&& groups_ok(opt_lines(before), exec_cmds.lines(), opt_lines(after))
                &&& t.0.deep_view() == opt_lines(before)
                &&& t.1.deep_view() == exec_cmds.lines()
                &&& t.2.deep_view() == opt_lines(after)
            },
            Err(e) => {
                &&& !groups_ok(opt_lines(before), exec_cmds.lines(), opt_lines(after))
                &&& empty_command_error(
                    e,
                    opt_lines(before),
                    exec_cmds.lines(),
                    opt_lines(after),
                )
            },
        },
{
    let b = match before {
        Some(c) => c.into_vec(),
        None => {
            let v: Vec<String> = Vec::new();
            proof {
                assert(v.deep_view() =~= Seq::<Seq<char>>::empty());
            }
            v
        },
    };
    if let Some(i) = find_blank(&b) {
        return Err(ProcessError::EmptyCommand(String::from_str("before"), i));
    }
    let x = exec_cmds.into_vec();
    if x.len() == 0 {
        return Err(ProcessError::EmptyCommand(String::from_str("exec"), 0));
    }
    if let Some(i) = find_blank(&x) {
        return Err(ProcessError::EmptyCommand(String::from_str("exec"), i));
    }
    let a = match after {
        Some(c) => c.into_vec(),
        None => {
            let v: Vec<String> = Vec::new();
            proof {
                assert(v.deep_view() =~= Seq::<Seq<char>>::empty());
            }
            v
        },
    };
    if let Some(i) = find_blank(&a) {
        return Err(ProcessError::EmptyCommand(String::from_str("after"), i));
    }
    Ok((b, x, a))
}

/// One job, ready to run: validated command groups, the log destination, and
/// a constructed trigger source. Built once at startup; its scheduling loop
/// owns it from then on.
pub struct JobPlan {
    /// Name used in diagnostics.
    pub name: String,
    /// Commands run before the main group.
    pub before: Vec<String>,
    /// The main command group.
    pub exec_cmds: Vec<String>,
    /// Commands run after the main group.
    pub after: Vec<String>,
    /// Log file path; absent means standard output.
    pub logs: Option<String>,
    /// The job's trigger source.
    pub trigger: Trigger,
}

impl JobPlan {
    /// A plan's trigger source is well-formed.
    pub open spec fn wf(&self) -> bool {
        self.trigger.wf()
    }

    /// The whole startup step for one job: validate the command groups, then
    /// build the trigger source, reading calendar rules in the named
    /// timezone. Any failure is fatal for the job: an invalid group is
    /// reported first, as in [`get_commands`]; otherwise a bad trigger
    /// specification is reported as in [`Trigger::build`]. On success the
    /// plan carries the job's name, groups, and log destination unchanged.
    pub fn new(job: Job, tz_name: &str) -> (r: Result<JobPlan, ProcessError>)
        ensures
            match r {
                Ok(p) => {
                    &&& p.wf()
                    &&& groups_ok(opt_lines(job.before), job.exec_cmds.lines(), opt_lines(job.after))
                    &&& trigger_spec_ok(job.duration)
                    &&& p.name@ == job.name@
                    &&& p.before.deep_view() == opt_lines(job.before)
                    &&& p.exec_cmds.deep_view() == job.exec_cmds.lines()
                    &&& p.after.deep_view() == opt_lines(job.after)
                    &&& p.logs.deep_view() == job.logs.deep_view()
                    &&& trigger_matches(p.trigger, job.duration, tz_name@)
                },
                Err(e) => {
                    if !groups_ok(
                        opt_lines(job.before),
                        job.exec_cmds.lines(),
                        opt_lines(job.after),
                    ) {
                        empty_command_error(
                            e,
                            opt_lines(job.before),
                            job.exec_cmds.lines(),
                            opt_lines(job.after),
                        )
                    } else {
                        !trigger_spec_ok(job.duration) && trigger_error_matches(e, job.duration)
                    }
                },
            },
    {
        let Job { name, enable: _, duration, exec_cmds, before, after, logs } = job;
        let groups = match get_commands(before, exec_cmds, after) {
            Ok(t) => t,
            Err(e) => {
                return Err(e);
            },
        };
        let (b, x, a) = groups;
        let trigger = match Trigger::build(&duration, tz_name) {
            Ok(t) => t,
            Err(e) => {
                return Err(e);
            },
        };
        Ok(JobPlan { name, before: b, exec_cmds: x, after: a, logs, trigger })
    }
}

/// The group a cycle position points into: `before`, `exec`, `after` in
/// order; positions at group 3 are past the cycle's end.
pub open spec fn group_at(p: JobPlan, g: int) -> Seq<Seq<char>> {
    if g == 0 {
        p.before.deep_view()
    } else if g == 1 {
        p.exec_cmds.deep_view()
    } else {
        p.after.deep_view()
    }
}

/// All commands of one cycle, flattened in execution order: the `before`
/// group, then `exec`, then `after`.
pub open spec fn all_cmds(p: JobPlan) -> Seq<Seq<char>> {
    p.before.deep_view() + p.exec_cmds.deep_view() + p.after.deep_view()
}

/// The rank of a cycle position in [`all_cmds`]: how many commands of the
/// cycle come before it. Positions at group 3 rank past every command.
pub open spec fn flat_of(p: JobPlan, g: int, i: int) -> int {
    if g == 0 {
        i
    } else if g == 1 {
        p.before.deep_view().len() + i
    } else if g == 2 {
        p.before.deep_view().len() + p.exec_cmds.deep_view().len() + i
    } else {
        all_cmds(p).len() as int
    }
}

/// Stepping over empty or exhausted groups does not change a position's
/// rank: normalization never skips a command.
proof fn lemma_norm_pos_flat(p: JobPlan, g: int, i: int)
    requires
        0 <= g <= 3,
        g < 3 ==> 0 <= i <= group_at(p, g).len(),
        g == 3 ==> i == 0,
    ensures
        flat_of(p, norm_pos(p, g, i).0, norm_pos(p, g, i).1) == flat_of(p, g, i),
    decreases 3 - g,
{
    if g < 3 && !(i < group_at(p, g).len()) {
        lemma_norm_pos_flat(p, g + 1, 0);
    }
}

/// A position inside a group names the same command in the flattened list.
proof fn lemma_group_at_flat(p: JobPlan, g: int, i: int)
    requires
        0 <= g < 3,
        0 <= i < group_at(p, g).len(),
    ensures
        0 <= flat_of(p, g, i) < all_cmds(p).len(),
        all_cmds(p)[flat_of(p, g, i)] == group_at(p, g)[i],
{
}

/// The first real position at or after `(g, i)`: empty or exhausted groups
/// are stepped over, and `(3, 0)` is the end of the cycle.
pub open spec fn norm_pos(p: JobPlan, g: int, i: int) -> (int, int)
    decreases 3 - g,
    when g <= 3
{
    if g >= 3 {
        (3, 0)
    } else if i < group_at(p, g).len() {
        (g, i)
    } else {
        norm_pos(p, g + 1, 0)
    }
}

/// Normalization never moves back to an earlier group: within one cycle,
/// execution order is strictly `before`, then `exec`, then `after`.
pub proof fn lemma_norm_pos_monotonic(p: JobPlan, g: int, i: int)
    requires
        0 <= g <= 3,
    ensures
        norm_pos(p, g, i).0 >= g,
    decreases 3 - g,
{
    if g < 3 && !(i < group_at(p, g).len()) {
        lemma_norm_pos_monotonic(p, g + 1, 0);
    }
}

/// The length of group `g` of a plan.
fn group_len(p: &JobPlan, g: usize) -> (n: usize)
    requires
        g < 3,
    ensures
        n == group_at(*p, g as int).len(),
{
    if g == 0 {
        p.before.len()
    } else if g == 1 {
        p.exec_cmds.len()
    } else {
        p.after.len()
    }
}

/// Steps over empty or exhausted groups from `(g0, i0)`.
fn normalize(p: &JobPlan, g0: usize, i0: usize) -> (r: (usize, usize))
    requires
        g0 <= 3,
        g0 == 3 ==> i0 == 0,
    ensures
        r.0 <= 3,
        (r.0 as int, r.1 as int) == norm_pos(*p, g0 as int, i0 as int),
        r.0 < 3 ==> r.1 < group_at(*p, r.0 as int).len(),
{
    let mut g = g0;
    let mut i = i0;
    while g < 3 && i >= group_len(p, g)
        invariant
            g <= 3,
            g == 3 ==> i == 0,
            norm_pos(*p, g as int, i as int) == norm_pos(*p, g0 as int, i0 as int),
        decreases 3 - g,
    {
        g = g + 1;
        i = 0;
    }
    (g, i)
}

/// One cycle of a job: the walk through its three command groups, triggered
/// by a single trigger instant. Commands run in strict `before`, `exec`,
/// `after` order; the first failed command fails the cycle, and no further
/// command of it runs.
pub struct Cycle {
    group: usize,
    idx: usize,
    failed: bool,
}

impl Cycle {
    /// The current position: group number (3 meaning done) and index in it.
    pub closed spec fn pos(&self) -> (int, int) {
        (self.group as int, self.idx as int)
    }

    /// Whether a command of this cycle has failed.
    pub closed spec fn failed_spec(&self) -> bool {
        self.failed
    }

    /// How many commands of the cycle come before the current position:
    /// the rank of the next command to run in [`all_cmds`].
    pub open spec fn flat_spec(&self, p: &JobPlan) -> int {
        flat_of(*p, self.pos().0, self.pos().1)
    }

    /// The position points at a real command or past the end, and a failed
    /// cycle is over.
    pub closed spec fn wf(&self, p: &JobPlan) -> bool {
        &&& self.group <= 3
        &&& self.group < 3 ==> self.idx < group_at(*p, self.group as int).len()
        &&& self.failed ==> self.group == 3
    }

    /// Starts a cycle before its first command: at the first command of the
    /// first non-empty group, with no command of the cycle run yet.
    pub fn begin(p: &JobPlan) -> (c: Cycle)
        ensures
            c.wf(p),
            !c.failed_spec(),
            c.pos() == norm_pos(*p, 0, 0),
            c.flat_spec(p) == 0,
    {
        let (g, i) = normalize(p, 0, 0);
        proof {
            lemma_norm_pos_flat(*p, 0, 0);
        }
        Cycle { group: g, idx: i, failed: false }
    }

    /// The command to run now, or nothing when the cycle is over: exactly
    /// the command of the flattened cycle at the current rank, so commands
    /// are issued in flattened order.
    pub fn current(&self, p: &JobPlan) -> (r: Option<String>)
        requires
            self.wf(p),
        ensures
            match r {
                Option::Some(cmd) => self.pos().0 < 3 && cmd@ == group_at(*p, self.pos().0)[
                    self.pos().1] && 0 <= self.flat_spec(p) < all_cmds(*p).len() && cmd@ == all_cmds(
                    *p,
                )[self.flat_spec(p)],
                Option::None => self.pos().0 == 3,
            },
    {
        proof {
            if self.group < 3 {
                lemma_group_at_flat(*p, self.pos().0, self.pos().1);
            }
        }
        if self.group == 0 {
            Some(p.before[self.idx].clone())
        } else if self.group == 1 {
            Some(p.exec_cmds[self.idx].clone())
        } else if self.group == 2 {
            Some(p.after[self.idx].clone())
        } else {
            None
        }
    }

    /// Records the current command's result. Success moves to the next
    /// command of the flattened cycle, the rank growing by exactly one and
    /// rolling into the next non-empty group when the current one is done;
    /// failure ends the cycle at once, so every later command of every
    /// group of this cycle is skipped.
    pub fn record(&mut self, p: &JobPlan, ok: bool)
        requires
            old(self).wf(p),
            old(self).pos().0 < 3,
        ensures
            final(self).wf(p),
            ok ==> !final(self).failed_spec() && final(self).pos() == norm_pos(
                *p,
                old(self).pos().0,
                old(self).pos().1 + 1,
            ) && final(self).flat_spec(p) == old(self).flat_spec(p) + 1,
            !ok ==> final(self).failed_spec() && final(self).pos().0 == 3,
    {
        if ok {
            let len = group_len(p, self.group);
            let next = self.idx + 1;
            let (g, i) = normalize(p, self.group, next);
            proof {
                lemma_norm_pos_flat(*p, self.group as int, next as int);
            }
            self.group = g;
            self.idx = i;
        } else {
            self.failed = true;
            self.group = 3;
            self.idx = 0;
        }
    }

    /// Failure isolation: once a command of a cycle has failed, the cycle is
    /// past its end, so no later command of any group of this cycle runs.
    pub proof fn lemma_failed_cycle_is_over(&self, p: &JobPlan)
        requires
            self.wf(p),
            self.failed_spec(),
        ensures
            self.pos().0 == 3,
    {
    }

    /// Whether the cycle is over: every command of the flattened cycle up
    /// to the current rank has been run, and past the end none is left.
    pub fn done(&self) -> (r: bool)
        ensures
            r == (self.pos().0 == 3),
    {
        self.group == 3
    }

    /// Whether a command of this cycle failed.
    pub fn has_failed(&self) -> (r: bool)
        ensures
            r == self.failed_spec(),
    {
        self.failed
    }

    /// The current group number: 0 `before`, 1 `exec`, 2 `after`, 3 done.
    pub fn group_index(&self) -> (g: usize)
        ensures
            g as int == self.pos().0,
    {
        self.group
    }
}

} // verus!
