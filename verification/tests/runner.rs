//! The command runner's computing half: splitting, truncation, log-record
//! formatting, sink choice, and outcome mapping.

use rron::command::{
    build_stderr_block, build_stdout_block, command_result, log_target, output_record,
    split_command, truncate, CmdOutcome, LogTarget,
};
use rron::errors::CommandError;

#[test]
fn splits_on_whitespace() {
    assert_eq!(split_command("echo a b"), vec!["echo", "a", "b"]);
    assert_eq!(split_command("echo\ta\nb"), vec!["echo", "a", "b"]);
}

#[test]
fn single_token_stays_whole() {
    assert_eq!(split_command("program"), vec!["program"]);
}

#[test]
fn whitespace_runs_separate_once() {
    assert_eq!(split_command("echo  a"), vec!["echo", "a"]);
    assert_eq!(split_command(" lead"), vec!["lead"]);
    assert_eq!(split_command("trail "), vec!["trail"]);
}

#[test]
fn blank_lines_yield_no_tokens() {
    assert!(split_command("").is_empty());
    assert!(split_command("   ").is_empty());
    assert!(split_command(" \t ").is_empty());
}

#[test]
fn truncate_cuts_to_fifteen_characters() {
    assert_eq!(truncate("a command line that is rather long", 15), "a command line ");
    assert_eq!(truncate("short", 15), "short");
    assert_eq!(truncate("exactly-15-char", 15), "exactly-15-char");
}

fn ts() -> Vec<u8> {
    b"01-01-2026 00:00:00: ".to_vec()
}

fn separator() -> Vec<u8> {
    let mut s = vec![b'-'; 34];
    s.push(b'\n');
    s
}

#[test]
fn stdout_block_is_header_timestamp_bytes() {
    let block = build_stdout_block(&ts(), &b"a\n".to_vec());
    let mut expected = b"# STDOUT\n".to_vec();
    expected.extend_from_slice(&ts());
    expected.extend_from_slice(b"a\n");
    assert_eq!(block, expected);
}

#[test]
fn stderr_block_ends_with_the_separator() {
    let block = build_stderr_block(&ts(), &b"oops\n".to_vec());
    let mut expected = b"\n# STDERR\n".to_vec();
    expected.extend_from_slice(&ts());
    expected.extend_from_slice(b"oops\n");
    expected.push(b'\n');
    expected.extend_from_slice(&separator());
    assert_eq!(block, expected);
}

#[test]
fn output_record_stamps_both_sections_with_one_timestamp() {
    let out = b"a\n".to_vec();
    let err = Vec::new();
    let (first, second) = output_record(&out, &err);
    assert!(first.starts_with(b"# STDOUT\n"));
    assert!(first.ends_with(b"a\n"));
    assert!(second.starts_with(b"\n# STDERR\n"));
    assert!(second.ends_with(&separator()));
    let ts_a = &first[b"# STDOUT\n".len()..first.len() - out.len()];
    let ts_b = &second[b"\n# STDERR\n".len()..second.len() - separator().len() - 1];
    assert_eq!(ts_a, ts_b);
    assert!(!ts_a.is_empty());
}

#[test]
fn spawn_failure_maps_to_cmd_error_with_truncated_text() {
    let outcome = CmdOutcome::SpawnFailed(String::from("no such program"));
    match command_result("nonexistent-program --with --args", &outcome) {
        Err(CommandError::CmdError { cmd, error }) => {
            assert_eq!(cmd, "nonexistent-pro");
            assert_eq!(error, "no such program");
        }
        other => panic!("expected CmdError, got {:?}", other),
    }
}

#[test]
fn non_success_exit_maps_to_cmd_failed() {
    let outcome = CmdOutcome::Exited {
        success: false,
        stdout: Vec::new(),
        stderr: Vec::new(),
    };
    match command_result("false", &outcome) {
        Err(CommandError::CmdFailed(cmd)) => assert_eq!(cmd, "false"),
        other => panic!("expected CmdFailed, got {:?}", other),
    }
}

#[test]
fn successful_exit_maps_to_ok() {
    let outcome = CmdOutcome::Exited {
        success: true,
        stdout: b"done\n".to_vec(),
        stderr: Vec::new(),
    };
    assert!(command_result("true", &outcome).is_ok());
}

#[test]
fn a_failed_log_write_names_its_section() {
    match rron::command::logs_write_error("stdout", String::from("disk full")) {
        CommandError::LogsBufferWrite { out_buf, error } => {
            assert_eq!(out_buf, "stdout");
            assert_eq!(error, "disk full");
        }
        other => panic!("expected LogsBufferWrite, got {:?}", other),
    }
}

#[test]
fn sink_is_the_file_only_when_configured_and_opened() {
    assert_eq!(log_target(true, true), LogTarget::File);
    assert_eq!(log_target(true, false), LogTarget::Stdout);
    assert_eq!(log_target(false, true), LogTarget::Stdout);
    assert_eq!(log_target(false, false), LogTarget::Stdout);
}

#[test]
fn result_is_independent_of_the_logging_fallback() {
    // an unwritable log file only changes the sink; success and failure
    // still follow the command's own exit status
    let fallback = log_target(true, false);
    assert_eq!(fallback, LogTarget::Stdout);
    let good = CmdOutcome::Exited {
        success: true,
        stdout: Vec::new(),
        stderr: Vec::new(),
    };
    let bad = CmdOutcome::Exited {
        success: false,
        stdout: Vec::new(),
        stderr: Vec::new(),
    };
    assert!(command_result("work", &good).is_ok());
    assert!(command_result("work", &bad).is_err());
}
