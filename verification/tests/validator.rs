//! The command-group validator: non-empty groups pass unchanged, the first
//! empty command line is rejected with its group name and position.

use rron::config::Command;
use rron::errors::ProcessError;
use rron::process::get_commands;

fn single(s: &str) -> Command {
    Command::Single(String::from(s))
}

fn multiple(items: &[&str]) -> Command {
    Command::Multiple(items.iter().map(|s| String::from(*s)).collect())
}

#[test]
fn accepts_all_nonempty_groups_unchanged() {
    let r = get_commands(
        Some(multiple(&["echo a", "echo b"])),
        multiple(&["run x", "run y", "run z"]),
        Some(single("echo done")),
    );
    let (b, x, a) = r.expect("all groups are non-empty");
    assert_eq!(b, vec!["echo a".to_string(), "echo b".to_string()]);
    assert_eq!(
        x,
        vec!["run x".to_string(), "run y".to_string(), "run z".to_string()]
    );
    assert_eq!(a, vec!["echo done".to_string()]);
}

#[test]
fn absent_optional_groups_become_empty_lists() {
    let r = get_commands(None, single("run"), None);
    let (b, x, a) = r.expect("exec alone is fine");
    assert!(b.is_empty());
    assert_eq!(x, vec!["run".to_string()]);
    assert!(a.is_empty());
}

#[test]
fn rejects_empty_entry_in_before() {
    let r = get_commands(Some(multiple(&["ok", ""])), single("run"), None);
    match r {
        Err(ProcessError::EmptyCommand(group, idx)) => {
            assert_eq!(group, "before");
            assert_eq!(idx, 1);
        }
        other => panic!("expected EmptyCommand, got {:?}", other),
    }
}

#[test]
fn rejects_first_empty_entry_in_exec() {
    let r = get_commands(None, multiple(&["a", "", "c", ""]), None);
    match r {
        Err(ProcessError::EmptyCommand(group, idx)) => {
            assert_eq!(group, "exec");
            assert_eq!(idx, 1);
        }
        other => panic!("expected EmptyCommand, got {:?}", other),
    }
}

#[test]
fn rejects_empty_single_exec_at_position_zero() {
    let r = get_commands(None, single(""), None);
    match r {
        Err(ProcessError::EmptyCommand(group, idx)) => {
            assert_eq!(group, "exec");
            assert_eq!(idx, 0);
        }
        other => panic!("expected EmptyCommand, got {:?}", other),
    }
}

#[test]
fn rejects_empty_entry_in_after() {
    let r = get_commands(None, single("run"), Some(multiple(&["", "tail"])));
    match r {
        Err(ProcessError::EmptyCommand(group, idx)) => {
            assert_eq!(group, "after");
            assert_eq!(idx, 0);
        }
        other => panic!("expected EmptyCommand, got {:?}", other),
    }
}

#[test]
fn earlier_group_is_reported_first() {
    // both `before` and `exec` hold empty entries: validation is fail-fast
    // per group and reports `before` first
    let r = get_commands(
        Some(multiple(&["x", ""])),
        multiple(&["", "y"]),
        Some(single("")),
    );
    match r {
        Err(ProcessError::EmptyCommand(group, idx)) => {
            assert_eq!(group, "before");
            assert_eq!(idx, 1);
        }
        other => panic!("expected EmptyCommand, got {:?}", other),
    }
}

#[test]
fn whitespace_only_command_is_rejected() {
    // a command line of spaces would split to no tokens at all, so the
    // validator treats it like an empty command
    let r = get_commands(None, single("   "), None);
    match r {
        Err(ProcessError::EmptyCommand(group, idx)) => {
            assert_eq!(group, "exec");
            assert_eq!(idx, 0);
        }
        other => panic!("expected EmptyCommand, got {:?}", other),
    }
}

#[test]
fn tab_only_command_is_rejected_at_its_position() {
    let r = get_commands(None, multiple(&["run x", "\t"]), None);
    match r {
        Err(ProcessError::EmptyCommand(group, idx)) => {
            assert_eq!(group, "exec");
            assert_eq!(idx, 1);
        }
        other => panic!("expected EmptyCommand, got {:?}", other),
    }
}

#[test]
fn exec_group_with_no_command_is_rejected() {
    // the exec group is mandatory: a present-but-empty list never starts
    let r = get_commands(Some(single("ok")), multiple(&[]), Some(single("ok")));
    match r {
        Err(ProcessError::EmptyCommand(group, idx)) => {
            assert_eq!(group, "exec");
            assert_eq!(idx, 0);
        }
        other => panic!("expected EmptyCommand, got {:?}", other),
    }
}
