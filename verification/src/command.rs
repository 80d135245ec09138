//! The command runner's computing half: splitting a command line into a
//! program and its arguments, truncating command text for diagnostics,
//! formatting captured output into log records, choosing the log sink, and
//! turning one command's outcome into a result.
//!
//! Spawning the process, waiting for it and writing the records belong to
//! the surrounding program; it hands the captured bytes back here.

use vstd::prelude::*;

use crate::errors::CommandError;

verus! {

/// Whitespace, as command lines are split: space, tab, line feed, carriage
/// return and form feed.
pub open spec fn is_space(c: char) -> bool {
    c == ' ' || c == '\t' || c == '\n' || c == '\r' || c == '\x0C'
}

/// Whether one character is whitespace.
pub fn is_space_char(c: char) -> (r: bool)
    ensures
        r == is_space(c),
{
    c == ' ' || c == '\t' || c == '\n' || c == '\r' || c == '\x0C'
}

/// Whether a command line is blank: empty or whitespace only. A blank line
/// splits to no tokens at all, so the validator rejects it like an empty
/// one and the runner never sees it.
pub open spec fn blank(line: Seq<char>) -> bool {
    forall|j: int| 0 <= j < line.len() ==> is_space(line[j])
}

/// A command line split on whitespace: its maximal runs of non-whitespace
/// characters, in order. A blank line has no tokens.
pub open spec fn ws_split(s: Seq<char>) -> Seq<Seq<char>>
    decreases s.len(),
{
    if s.len() == 0 {
        Seq::empty()
    } else if is_space(s[0]) {
        ws_split(s.skip(1))
    } else if s.len() > 1 && !is_space(s[1]) {
        let rest = ws_split(s.skip(1));
        seq![seq![s[0]] + rest[0]] + rest.skip(1)
    } else {
        seq![seq![s[0]]] + ws_split(s.skip(1))
    }
}

/// With a non-whitespace run filling positions `0` to `j`, the split is that
/// run followed by the split of what comes after it.
proof fn lemma_ws_split_run(s: Seq<char>, j: int)
    requires
        1 <= j <= s.len(),
        forall|i: int| 0 <= i < j ==> !is_space(s[i]),
        j == s.len() || is_space(s[j]),
    ensures
        ws_split(s) == seq![s.take(j)] + ws_split(s.skip(j)),
    decreases j,
{
    if j == 1 {
        assert(s.take(1) =~= seq![s[0]]);
        assert(ws_split(s) =~= seq![s.take(1)] + ws_split(s.skip(1)));
    } else {
        let t = s.skip(1);
        assert(forall|i: int| 0 <= i < j - 1 ==> !is_space(t[i]));
        lemma_ws_split_run(t, j - 1);
        let rest = ws_split(t);
        assert(rest[0] == t.take(j - 1));
        assert(seq![s[0]] + t.take(j - 1) =~= s.take(j));
        assert(t.skip(j - 1) =~= s.skip(j));
        assert(rest.skip(1) =~= ws_split(s.skip(j)));
        assert(ws_split(s) =~= seq![s.take(j)] + ws_split(s.skip(j)));
    }
}

/// Splits a command line into its tokens: the maximal whitespace-free runs,
/// in order. The first token is the program name, the rest its arguments; a
/// blank line yields no tokens, which the validator rules out before any
/// command runs.
pub fn split_command(cmd: &str) -> (r: Vec<String>)
    ensures
        r.deep_view() == ws_split(cmd@),
{
    let n = cmd.unicode_len();
    let mut parts: Vec<String> = Vec::new();
    let mut i: usize = 0;
    proof {
        assert(cmd@.skip(0) =~= cmd@);
        assert(parts.deep_view() =~= Seq::<Seq<char>>::empty());
        assert(parts.deep_view() + ws_split(cmd@) =~= ws_split(cmd@));
    }
    while i < n
        invariant
            n == cmd@.len(),
            i <= n,
            ws_split(cmd@) == parts.deep_view() + ws_split(cmd@.skip(i as int)),
        decreases n - i,
    {
        let c = cmd.get_char(i);
        if is_space_char(c) {
            proof {
                assert(cmd@.skip(i as int).skip(1) =~= cmd@.skip(i + 1));
            }
            i += 1;
        } else {
            let start = i;
            i += 1;
            while i < n && !is_space_char(cmd.get_char(i))
                invariant
                    n == cmd@.len(),
                    start < i <= n,
                    forall|k: int| start <= k < i ==> !is_space(cmd@[k]),
                decreases n - i,
            {
                i += 1;
            }
            let tok = cmd.substring_char(start, i).to_owned();
            let ghost pv = parts.deep_view();
            parts.push(tok);
            proof {
                let tail = cmd@.skip(start as int);
                lemma_ws_split_run(tail, i - start);
                assert(tail.take(i - start) =~= cmd@.subrange(start as int, i as int));
                assert(tail.skip(i - start) =~= cmd@.skip(i as int));
                assert(parts.deep_view() =~= pv.push(tok@));
                assert(parts.deep_view() + ws_split(cmd@.skip(i as int)) =~= ws_split(cmd@));
            }
        }
    }
    proof {
        assert(cmd@.skip(n as int) =~= Seq::<char>::empty());
        assert(parts.deep_view() =~= ws_split(cmd@));
    }
    parts
}

/// The bytes of `"# STDOUT\n"`, opening a captured-stdout section.
pub open spec fn stdout_header() -> Seq<u8> {
    seq![35u8, 32u8, 83u8, 84u8, 68u8, 79u8, 85u8, 84u8, 10u8]
}

/// The bytes of `"\n# STDERR\n"`, opening a captured-stderr section.
pub open spec fn stderr_header() -> Seq<u8> {
    seq![10u8, 35u8, 32u8, 83u8, 84u8, 68u8, 69u8, 82u8, 82u8, 10u8]
}

/// The record separator: a line of 34 dashes.
pub open spec fn separator_line() -> Seq<u8> {
    Seq::new(34, |i: int| 45u8) + seq![10u8]
}

/// One command's stdout section: header, capture timestamp, raw bytes.
pub open spec fn stdout_block(ts: Seq<u8>, data: Seq<u8>) -> Seq<u8> {
    stdout_header() + ts + data
}

/// One command's stderr section: header, capture timestamp, raw bytes, a
/// newline, and the record separator.
pub open spec fn stderr_block(ts: Seq<u8>, data: Seq<u8>) -> Seq<u8> {
    stderr_header() + ts + data + seq![10u8] + separator_line()
}

/// Appends all of `src` to `dst`.
fn push_all(dst: &mut Vec<u8>, src: &Vec<u8>)
    ensures
        final(dst)@ == old(dst)@ + src@,
{
    let mut i: usize = 0;
    proof {
        assert(dst@ + src@.take(0) =~= dst@);
    }
    while i < src.len()
        invariant
            i <= src@.len(),
            dst@ == old(dst)@ + src@.take(i as int),
        decreases src@.len() - i,
    {
        dst.push(src[i]);
        proof {
            assert(dst@ =~= old(dst)@ + src@.take(i + 1));
        }
        i += 1;
    }
    proof {
        assert(src@.take(src@.len() as int) =~= src@);
    }
}

/// Builds the stdout section of one command's log record.
pub fn build_stdout_block(ts: &Vec<u8>, data: &Vec<u8>) -> (r: Vec<u8>)
    ensures
        r@ == stdout_block(ts@, data@),
{
    let mut r: Vec<u8> = Vec::new();
    r.push(35u8);
    r.push(32u8);
    r.push(83u8);
    r.push(84u8);
    r.push(68u8);
    r.push(79u8);
    r.push(85u8);
    r.push(84u8);
    r.push(10u8);
    proof {
        assert(r@ =~= stdout_header());
    }
    push_all(&mut r, ts);
    push_all(&mut r, data);
    proof {
        assert(r@ =~= stdout_block(ts@, data@));
    }
    r
}

/// Builds the stderr section of one command's log record, separator included.
pub fn build_stderr_block(ts: &Vec<u8>, data: &Vec<u8>) -> (r: Vec<u8>)
    ensures
        r@ == stderr_block(ts@, data@),
{
    let mut r: Vec<u8> = Vec::new();
    r.push(10u8);
    r.push(35u8);
    r.push(32u8);
    r.push(83u8);
    r.push(84u8);
    r.push(68u8);
    r.push(69u8);
    r.push(82u8);
    r.push(82u8);
    r.push(10u8);
    proof {
        assert(r@ =~= stderr_header());
    }
    push_all(&mut r, ts);
    push_all(&mut r, data);
    r.push(10u8);
    let ghost mid = r@;
    let mut d: usize = 0;
    while d < 34
        invariant
            d <= 34,
            r@ == mid + Seq::new(d as nat, |i: int| 45u8),
        decreases 34 - d,
    {
        r.push(45u8);
        proof {
            assert(r@ =~= mid + Seq::new((d + 1) as nat, |i: int| 45u8));
        }
        d += 1;
    }
    r.push(10u8);
    proof {
        assert(r@ =~= stderr_block(ts@, data@));
    }
    r
}

/// An ASCII decimal digit.
pub open spec fn digit_byte(b: u8) -> bool {
    48 <= b <= 57
}

/// The shape of a capture timestamp, `"%d-%m-%Y %H:%M:%S: "`: a two-digit
/// day, dash, two-digit month, dash, a year of four or more digits (a `+`
/// may open a year past 9999), then a space, `HH:MM:SS`, a colon and a
/// space. The year is the only part of variable width, so the whole
/// rendering is at least 21 bytes.
pub open spec fn timestamp_shape(ts: Seq<u8>) -> bool {
    let n = ts.len() as int;
    &&& n >= 21
    &&& digit_byte(ts[0]) && digit_byte(ts[1]) && ts[2] == 45u8
    &&& digit_byte(ts[3]) && digit_byte(ts[4]) && ts[5] == 45u8
    &&& (digit_byte(ts[6]) || ts[6] == 43u8)
    &&& (forall|i: int| 7 <= i < n - 11 ==> digit_byte(ts[i]))
    &&& ts[n - 11] == 32u8
    &&& digit_byte(ts[n - 10]) && digit_byte(ts[n - 9]) && ts[n - 8] == 58u8
    &&& digit_byte(ts[n - 7]) && digit_byte(ts[n - 6]) && ts[n - 5] == 58u8
    &&& digit_byte(ts[n - 4]) && digit_byte(ts[n - 3]) && ts[n - 2] == 58u8
    &&& ts[n - 1] == 32u8
}

/// Relies on `chrono::Local::now` and `DateTime::format` for the wall-clock
/// capture timestamp, as the bytes of the `"%d-%m-%Y %H:%M:%S: "` rendering:
/// day, month, hour, minute and second are zero-padded to two digits, the
/// year to at least four, signed only past year 9999 (the clock's year is at
/// least 1970, or the call does not return).
#[verifier::external_body]
fn local_timestamp_bytes() -> (r: Vec<u8>)
    ensures
        timestamp_shape(r@),
{
    chrono::Local::now().format("%d-%m-%Y %H:%M:%S: ").to_string().into_bytes()
}

/// Formats one command's captured output as its two log-record sections,
/// both stamped with the same capture timestamp, which has the documented
/// rendering shape.
pub fn output_record(stdout_data: &Vec<u8>, stderr_data: &Vec<u8>) -> (r: (Vec<u8>, Vec<u8>))
    ensures
        exists|ts: Seq<u8>|
            timestamp_shape(ts) && r.0@ == stdout_block(ts, stdout_data@) && r.1@ == stderr_block(
                ts,
                stderr_data@,
            ),
{
    let ts = local_timestamp_bytes();
    let first = build_stdout_block(&ts, stdout_data);
    let second = build_stderr_block(&ts, stderr_data);
    proof {
        assert(timestamp_shape(ts@) && first@ == stdout_block(ts@, stdout_data@) && second@
            == stderr_block(ts@, stderr_data@));
    }
    (first, second)
}

/// What happened to one spawned command, as the surrounding program saw it.
#[derive(Debug)]
pub enum CmdOutcome {
    /// The program could not be started; carries the spawner's message.
    SpawnFailed(String),
    /// The program ran to completion with this status and captured output.
    Exited { success: bool, stdout: Vec<u8>, stderr: Vec<u8> },
}

/// The result of one command run, exactly as the cycle sees it: a spawn
/// failure and a non-success exit are distinct errors, both carrying the
/// command text truncated to 15 characters; the result depends only on the
/// command's own outcome, never on where its output went.
pub fn command_result(cmd: &str, outcome: &CmdOutcome) -> (r: Result<(), CommandError>)
    ensures
        match outcome {
            CmdOutcome::SpawnFailed(msg) => r matches Err(CommandError::CmdError { cmd: c, error: e })
                && c@ == truncated(cmd@, 15) && e@ == msg@,
            CmdOutcome::Exited { success, .. } => if *success {
                r is Ok
            } else {
                r matches Err(CommandError::CmdFailed(c)) && c@ == truncated(cmd@, 15)
            },
        },
{
    match outcome {
        CmdOutcome::SpawnFailed(msg) => Err(
            CommandError::CmdError { cmd: truncate(cmd, 15), error: msg.clone() },
        ),
        CmdOutcome::Exited { success, .. } => {
            if *success {
                Ok(())
            } else {
                Err(CommandError::CmdFailed(truncate(cmd, 15)))
            }
        },
    }
}

/// The error for a failed write of captured output: it names the section
/// being written (`stdout` or `stderr`) and keeps the writer's message.
/// A failed write aborts the rest of the group, like a failed command.
pub fn logs_write_error(section: &str, detail: String) -> (e: CommandError)
    ensures
        e matches CommandError::LogsBufferWrite { out_buf, error } && out_buf@ == section@
            && error@ == detail@,
{
    CommandError::LogsBufferWrite { out_buf: section.to_owned(), error: detail }
}

/// Where one write of captured output goes: the job's log file, or standard
/// output when no file is configured or the file would not open. The choice
/// is made anew on every write; nothing is cached.
#[derive(Clone, Copy, Debug, PartialEq, Eq, Structural)]
pub enum LogTarget {
    File,
    Stdout,
}

/// Picks the sink for one write: the log file exactly when one is configured
/// and it opened; any open failure falls back to standard output.
pub fn log_target(has_log_file: bool, file_opened: bool) -> (t: LogTarget)
    ensures
        t is File <==> has_log_file && file_opened,
{
    if has_log_file && file_opened {
        LogTarget::File
    } else {
        LogTarget::Stdout
    }
}

/// A string cut to its first `n` characters; shorter strings stay whole.
pub open spec fn truncated(s: Seq<char>, n: int) -> Seq<char> {
    if s.len() <= n {
        s
    } else {
        s.take(n)
    }
}

/// Cuts a string to at most `max_chars` characters, for diagnostics.
pub fn truncate(s: &str, max_chars: usize) -> (r: String)
    ensures
        r@ == truncated(s@, max_chars as int),
{
    let n = s.unicode_len();
    if n <= max_chars {
        s.to_owned()
    } else {
        s.substring_char(0, max_chars).to_owned()
    }
}

} // verus!
