//! The cycle state machine and the startup decisions around it.

use rron::command::{build_stderr_block, build_stdout_block};
use rron::config::{default_bool, should_spawn, Command, Job, ProcessType};
use rron::errors::ProcessError;
use rron::process::{Cycle, JobPlan};
use rron::trigger::Trigger;

fn utc() -> &'static str {
    "UTC"
}

fn job(before: Option<&[&str]>, exec: &[&str], after: Option<&[&str]>) -> Job {
    let group = |items: &[&str]| {
        Command::Multiple(items.iter().map(|s| String::from(*s)).collect())
    };
    Job {
        name: String::from("test-job"),
        enable: true,
        duration: ProcessType::Basic(String::from("1 s")),
        exec_cmds: group(exec),
        before: before.map(group),
        after: after.map(group),
        logs: None,
    }
}

fn plan(before: Option<&[&str]>, exec: &[&str], after: Option<&[&str]>) -> JobPlan {
    JobPlan::new(job(before, exec, after), utc()).expect("plan must build")
}

/// Drives one cycle, pretending each issued command succeeds or fails as
/// `verdict` says; returns the commands issued, in order.
fn drive(p: &JobPlan, verdict: impl Fn(&str) -> bool) -> (Vec<String>, bool) {
    let mut cy = Cycle::begin(p);
    let mut issued = Vec::new();
    while let Some(cmd) = cy.current(p) {
        let ok = verdict(&cmd);
        issued.push(cmd);
        cy.record(p, ok);
    }
    (issued, cy.has_failed())
}

#[test]
fn a_failed_exec_command_skips_the_rest_of_the_cycle() {
    // three exec commands, the second exits non-zero: commands one and two
    // run, command three and the whole after group do not
    let p = plan(None, &["c1", "c2", "c3"], Some(&["after1"]));
    let (issued, failed) = drive(&p, |cmd| cmd != "c2");
    assert_eq!(issued, vec!["c1", "c2"]);
    assert!(failed);

    // the job is not stopped: the next trigger still yields a wait and the
    // next cycle starts from the beginning again
    match &p.trigger {
        Trigger::Interval(iv) => assert_eq!(iv.wait_nanos(), 1_000_000_000),
        _ => panic!("the plan uses an interval trigger"),
    }
    let (issued_again, failed_again) = drive(&p, |_| true);
    assert_eq!(issued_again, vec!["c1", "c2", "c3", "after1"]);
    assert!(!failed_again);
}

#[test]
fn groups_run_in_before_exec_after_order() {
    let p = plan(Some(&["b1", "b2"]), &["x1"], Some(&["a1"]));
    let (issued, failed) = drive(&p, |_| true);
    assert_eq!(issued, vec!["b1", "b2", "x1", "a1"]);
    assert!(!failed);
}

#[test]
fn a_failed_before_command_skips_exec_and_after() {
    let p = plan(Some(&["b1"]), &["x1", "x2"], Some(&["a1"]));
    let (issued, failed) = drive(&p, |_| false);
    assert_eq!(issued, vec!["b1"]);
    assert!(failed);
}

#[test]
fn absent_groups_are_stepped_over() {
    let p = plan(None, &["only"], None);
    let (issued, failed) = drive(&p, |_| true);
    assert_eq!(issued, vec!["only"]);
    assert!(!failed);
}

#[test]
fn one_cycle_logs_two_records_in_command_order() {
    // a cycle of before=["echo a"], exec=["echo b"]: the log stream holds a
    // STDOUT block for "a", its empty STDERR block and separator, then the
    // same for "b", in that order
    let p = plan(Some(&["echo a"]), &["echo b"], None);
    let ts = b"01-01-2026 00:00:00: ".to_vec();
    let mut stream: Vec<u8> = Vec::new();
    let mut cy = Cycle::begin(&p);
    while let Some(cmd) = cy.current(&p) {
        // each command of the scenario echoes its last word
        let captured = format!("{}\n", cmd.split(' ').last().unwrap()).into_bytes();
        stream.extend_from_slice(&build_stdout_block(&ts, &captured));
        stream.extend_from_slice(&build_stderr_block(&ts, &Vec::new()));
        cy.record(&p, true);
    }
    let mut expected: Vec<u8> = Vec::new();
    for data in [b"a\n".to_vec(), b"b\n".to_vec()] {
        expected.extend_from_slice(b"# STDOUT\n");
        expected.extend_from_slice(&ts);
        expected.extend_from_slice(&data);
        expected.extend_from_slice(b"\n# STDERR\n");
        expected.extend_from_slice(&ts);
        expected.push(b'\n');
        expected.extend_from_slice(&[b'-'; 34]);
        expected.push(b'\n');
    }
    assert_eq!(stream, expected);
    assert!(!cy.has_failed());
}

#[test]
fn a_disabled_job_is_never_spawned() {
    let mut j = job(None, &["echo never"], None);
    j.enable = false;
    // the startup decision is the only gate into a scheduling loop: a job it
    // rejects is skipped before any plan, loop, log line or command exists
    assert!(!should_spawn(&j));
    j.enable = true;
    assert!(should_spawn(&j));
}

#[test]
fn default_bool_returns_its_parameter() {
    assert!(default_bool::<true>());
    assert!(!default_bool::<false>());
}

#[test]
fn a_bad_job_fails_startup_before_any_cycle() {
    let mut j = job(None, &["run"], None);
    j.duration = ProcessType::Crontab(String::from("nonsense"));
    match JobPlan::new(j, utc()) {
        Err(ProcessError::CrontabParse(_)) => {}
        other => panic!("expected CrontabParse, got {:?}", other.is_ok()),
    }
}

#[test]
fn plan_keeps_name_groups_and_log_path() {
    let mut j = job(Some(&["b"]), &["x"], None);
    j.logs = Some(String::from("/tmp/test.log"));
    let p = JobPlan::new(j, utc()).expect("plan must build");
    assert_eq!(p.name, "test-job");
    assert_eq!(p.before, vec!["b".to_string()]);
    assert_eq!(p.exec_cmds, vec!["x".to_string()]);
    assert!(p.after.is_empty());
    assert_eq!(p.logs.as_deref(), Some("/tmp/test.log"));
}

#[test]
fn an_empty_command_is_fatal_at_startup() {
    let j = job(Some(&["ok", ""]), &["run"], None);
    match JobPlan::new(j, utc()) {
        Err(ProcessError::EmptyCommand(group, idx)) => {
            assert_eq!(group, "before");
            assert_eq!(idx, 1);
        }
        other => panic!("expected EmptyCommand, got {:?}", other.is_ok()),
    }
}
