//! Trigger sources: the calendar (crontab) variant and the fixed-interval
//! variant, each yielding the instants at which a job's commands run.
//!
//! Instants are milliseconds since the Unix epoch; interval lengths are
//! nanoseconds. The crontab recurrence and the clock are supplied by outside
//! crates through the trusted declarations at the top of this module; a
//! calendar source keeps its expression and timezone name as plain values,
//! so every answer it gives is tied to the rule by [`cron_next_of`], and
//! every decision taken on the outside results is verified here.

use vstd::prelude::*;

use crate::errors::ProcessError;

verus! {

/// Whether a crontab expression parses into a recurrence rule; parsing
/// depends on the text alone.
pub uninterp spec fn cron_parses(expr: Seq<char>) -> bool;

/// What a duration text parses to, in nanoseconds, if it parses at all;
/// parsing depends on the text alone.
pub uninterp spec fn duration_nanos_of(text: Seq<char>) -> Option<int>;

/// The next recurrence of a crontab rule strictly after a given instant, as
/// epoch milliseconds: a function of the expression text, the timezone name
/// and the instant alone. Nothing, when the expression or the zone name does
/// not parse or the rule has no recurrence left.
pub uninterp spec fn cron_next_of(expr: Seq<char>, tz_name: Seq<char>, after_millis: int) -> Option<
    int,
>;

/// Milliseconds representable by the outside datetime type, whose dates stay
/// within roughly 262,000 years of 1970.
pub open spec fn in_time_range(t: int) -> bool {
    -10_000_000_000_000_000 < t < 10_000_000_000_000_000
}

/// Instants a recurrence query accepts: clear of the datetime range's top
/// and bottom bands, where the outside query's one-second step would leave
/// the representable range.
pub open spec fn safe_query_instant(t: int) -> bool {
    -8_000_000_000_000_000 < t < 8_000_000_000_000_000
}

/// Relies on `cron::Schedule`'s `FromStr`: whether a crontab expression
/// parses is a function of the text alone. The error case carries the
/// parser's message.
#[verifier::external_body]
fn parse_schedule(expr: &str) -> (r: Result<(), String>)
    ensures
        r is Ok <==> cron_parses(expr@),
{
    match expr.parse::<cron::Schedule>() {
        Ok(_) => Ok(()),
        Err(e) => Err(e.to_string()),
    }
}

/// Relies on `hifitime::Duration`'s `FromStr` and
/// `Duration::total_nanoseconds`: the parsed length in nanoseconds is a
/// function of the text alone, and a `Duration` spans at most about 32,767
/// centuries in either direction. The error case carries the parser's
/// message.
#[verifier::external_body]
fn parse_duration_nanos(text: &str) -> (r: Result<i128, String>)
    ensures
        r is Ok <==> duration_nanos_of(text@) is Some,
        r matches Ok(n) ==> duration_nanos_of(text@) == Some(n as int),
{
    match text.parse::<hifitime::Duration>() {
        Ok(d) => Ok(d.total_nanoseconds()),
        Err(e) => Err(e.to_string()),
    }
}

/// Relies on `chrono::Utc::now` and `DateTime::timestamp_millis`: the current
/// wall-clock time as epoch milliseconds, within the datetime type's range.
#[verifier::external_body]
fn now_millis() -> (r: i64)
    ensures
        in_time_range(r as int),
{
    chrono::Utc::now().timestamp_millis()
}

/// Relies on `cron::Schedule::{from_str, after}`, `chrono_tz::Tz`'s
/// `FromStr` and chrono's timezone conversions: the first recurrence the
/// rule finds from the given instant, read in the named zone, is a function
/// of the three arguments alone. The instant must stay clear of the datetime
/// range's edges: the query steps one second past its argument. A found
/// recurrence lies in the rule's own year range 1970 to 2100, so it stays
/// within a millisecond band three centuries wide. Around a daylight-saving
/// fold it may lie at or before the given instant; callers must compare
/// before acting on it.
#[verifier::external_body]
fn cron_next_from(expr: &str, tz_name: &str, after_millis: i64) -> (r: Option<i64>)
    requires
        safe_query_instant(after_millis as int),
    ensures
        r is Some <==> cron_next_of(expr@, tz_name@, after_millis as int) is Some,
        r matches Some(t) ==> cron_next_of(expr@, tz_name@, after_millis as int) == Some(t as int),
        r matches Some(t) ==> -10_000_000_000_000 < t < 10_000_000_000_000,
{
    let tz = match tz_name.parse::<chrono_tz::Tz>() {
        Ok(z) => z,
        Err(_) => return None,
    };
    let sched = match expr.parse::<cron::Schedule>() {
        Ok(s) => s,
        Err(_) => return None,
    };
    let dt = match chrono::TimeZone::timestamp_millis_opt(&chrono::Utc, after_millis) {
        chrono::LocalResult::Single(v) => v.with_timezone(&tz),
        _ => return None,
    };
    sched.after(&dt).next().map(|n| n.timestamp_millis())
}

/// One answer of a crontab source: either the rule is out of recurrences,
/// or it names an instant that is not in the future (no commands may run for
/// it), or it names a future instant together with how long to wait for it.
#[derive(Clone, Copy, Debug)]
pub enum CronDecision {
    /// No recurrence is left; the job's loop ends.
    Exhausted,
    /// The named instant is not after `now`: a no-op cycle, nothing runs.
    Skip { instant: i64, now: i64 },
    /// The named instant is strictly in the future: wait, then run.
    Run { instant: i64, now: i64, wait_millis: i64 },
}

impl CronDecision {
    /// Whether this answer lets commands run.
    pub open spec fn is_run(self) -> bool {
        self matches CronDecision::Run { .. }
    }

    /// The instant this answer names; meaningful except for `Exhausted`.
    pub open spec fn instant_of(self) -> int {
        match self {
            CronDecision::Exhausted => 0,
            CronDecision::Skip { instant, .. } => instant as int,
            CronDecision::Run { instant, .. } => instant as int,
        }
    }

    /// The wall-clock time the answer was computed at; meaningful except for
    /// `Exhausted`.
    pub open spec fn now_of(self) -> int {
        match self {
            CronDecision::Exhausted => 0,
            CronDecision::Skip { now, .. } => now as int,
            CronDecision::Run { now, .. } => now as int,
        }
    }
}

/// The calendar trigger source: a crontab expression, the name of the
/// timezone it is read in, and the cursor instant its next recurrence is
/// computed from.
pub struct CronTrigger {
    expr: String,
    tz_name: String,
    cursor: i64,
}

impl CronTrigger {
    /// The crontab expression the source answers for.
    pub closed spec fn expr_spec(&self) -> Seq<char> {
        self.expr@
    }

    /// The name of the timezone the rule is read in.
    pub closed spec fn tz_name_spec(&self) -> Seq<char> {
        self.tz_name@
    }

    /// The instant the next recurrence is computed from: creation time at
    /// first, afterwards the last instant the rule named.
    pub closed spec fn cursor_spec(&self) -> int {
        self.cursor as int
    }

    /// The cursor stays within the band the recurrence query accepts.
    pub closed spec fn wf(&self) -> bool {
        safe_query_instant(self.cursor as int)
    }

    /// Computes the source's next answer, which is pinned to the rule:
    /// `Exhausted` exactly when [`cron_next_of`] finds no recurrence from
    /// the cursor, otherwise the named instant is exactly the found one. A
    /// `Run` answer names an instant strictly after the wall-clock time it
    /// read, with the wait being exactly the distance; an instant not after
    /// that time is a `Skip` and nothing may run for it. Either way the
    /// cursor moves to the named instant, so the rule is next read from
    /// there.
    pub fn next_decision(&mut self) -> (d: CronDecision)
        requires
            old(self).wf(),
        ensures
            final(self).wf(),
            final(self).expr_spec() == old(self).expr_spec(),
            final(self).tz_name_spec() == old(self).tz_name_spec(),
            match d {
                CronDecision::Exhausted => cron_next_of(
                    old(self).expr_spec(),
                    old(self).tz_name_spec(),
                    old(self).cursor_spec(),
                ) is None && final(self).cursor_spec() == old(self).cursor_spec(),
                CronDecision::Skip { instant, now } => cron_next_of(
                    old(self).expr_spec(),
                    old(self).tz_name_spec(),
                    old(self).cursor_spec(),
                ) == Some(instant as int) && instant <= now && final(self).cursor_spec()
                    == instant as int,
                CronDecision::Run { instant, now, wait_millis } => cron_next_of(
                    old(self).expr_spec(),
                    old(self).tz_name_spec(),
                    old(self).cursor_spec(),
                ) == Some(instant as int) && instant > now && wait_millis == instant - now
                    && wait_millis > 0 && final(self).cursor_spec() == instant as int,
            },
    {
        let next = cron_next_from(self.expr.as_str(), self.tz_name.as_str(), self.cursor);
        match next {
            None => CronDecision::Exhausted,
            Some(instant) => {
                self.cursor = instant;
                let now = now_millis();
                if instant > now {
                    CronDecision::Run { instant, now, wait_millis: instant - now }
                } else {
                    CronDecision::Skip { instant, now }
                }
            },
        }
    }
}

/// Two `Run` answers of one source, the second computed once the clock has
/// reached the first's instant, name strictly increasing instants: a run
/// instant is strictly in the future, so later runs fire at strictly later
/// times.
pub proof fn lemma_run_instants_increase(d1: CronDecision, d2: CronDecision)
    requires
        d1.is_run(),
        d2.is_run(),
        d2.instant_of() > d2.now_of(),
        d2.now_of() >= d1.instant_of(),
    ensures
        d2.instant_of() > d1.instant_of(),
{
}

/// The fixed-interval trigger source: a non-negative length in nanoseconds,
/// waited out anew after each cycle ends.
pub struct IntervalTrigger {
    nanos: i128,
}

impl IntervalTrigger {
    /// The interval length in nanoseconds.
    pub closed spec fn nanos_spec(&self) -> int {
        self.nanos as int
    }

    /// An interval is well-formed when its length is non-negative;
    /// construction rejects every negative duration.
    pub closed spec fn wf(&self) -> bool {
        self.nanos >= 0
    }

    /// The wait before the next run: always the full interval, measured from
    /// the end of the previous cycle, never negative.
    pub fn wait_nanos(&self) -> (w: i128)
        requires
            self.wf(),
        ensures
            w == self.nanos_spec(),
            w >= 0,
    {
        self.nanos
    }
}

/// A well-formed interval source never yields a negative wait.
pub proof fn lemma_interval_wait_nonnegative(t: IntervalTrigger)
    requires
        t.wf(),
    ensures
        t.nanos_spec() >= 0,
{
}

/// A job's trigger source, constructed from its textual specification.
pub enum Trigger {
    Crontab(CronTrigger),
    Interval(IntervalTrigger),
}

/// Whether a trigger specification is sound: a crontab expression that
/// parses, or a duration that parses to a non-negative length.
pub open spec fn trigger_spec_ok(d: crate::config::ProcessType) -> bool {
    match d {
        crate::config::ProcessType::Crontab(expr) => cron_parses(expr@),
        crate::config::ProcessType::Basic(text) => duration_nanos_of(text@) matches Some(n) && n
            >= 0,
    }
}

/// The source a sound specification constructs: the matching variant, a
/// calendar source keeping exactly the given expression and timezone name,
/// an interval keeping exactly the parsed length.
pub open spec fn trigger_matches(
    t: Trigger,
    d: crate::config::ProcessType,
    tz_name: Seq<char>,
) -> bool {
    match d {
        crate::config::ProcessType::Crontab(expr) => {
            &&& cron_parses(expr@)
            &&& t matches Trigger::Crontab(c)
            &&& c.expr_spec() == expr@
            &&& c.tz_name_spec() == tz_name
            &&& c.wf()
        },
        crate::config::ProcessType::Basic(text) => {
            &&& duration_nanos_of(text@) matches Some(n)
            &&& n >= 0
            &&& t matches Trigger::Interval(iv)
            &&& iv.nanos_spec() == n
        },
    }
}

/// The error an unsound specification constructs: `CrontabParse` for an
/// expression that does not parse, `DurationParse` for a duration that does
/// not parse, and always `NegativeDuration` for one that parses negative.
pub open spec fn trigger_error_matches(e: ProcessError, d: crate::config::ProcessType) -> bool {
    match d {
        crate::config::ProcessType::Crontab(expr) => !cron_parses(expr@) && (
        e matches ProcessError::CrontabParse(_)),
        crate::config::ProcessType::Basic(text) => match duration_nanos_of(text@) {
            None => e matches ProcessError::DurationParse(_),
            Some(n) => n < 0 && (e matches ProcessError::NegativeDuration),
        },
    }
}

impl Trigger {
    /// Both variants are well-formed.
    pub open spec fn wf(&self) -> bool {
        match self {
            Trigger::Crontab(c) => c.wf(),
            Trigger::Interval(iv) => iv.wf(),
        }
    }

    /// Builds the trigger source a specification calls for, reading calendar
    /// rules in the named timezone. A crontab expression that does not parse
    /// fails with `CrontabParse`; a duration that does not parse fails with
    /// `DurationParse`; a duration that parses negative always fails with
    /// `NegativeDuration`. A built source keeps the expression, the timezone
    /// name and the parsed length exactly.
    pub fn build(spec_text: &crate::config::ProcessType, tz_name: &str) -> (r: Result<
        Trigger,
        ProcessError,
    >)
        ensures
            match r {
                Ok(t) => t.wf() && trigger_spec_ok(*spec_text) && trigger_matches(
                    t,
                    *spec_text,
                    tz_name@,
                ),
                Err(e) => !trigger_spec_ok(*spec_text) && trigger_error_matches(e, *spec_text),
            },
    {
        match spec_text {
            crate::config::ProcessType::Crontab(expr) => {
                match parse_schedule(expr.as_str()) {
                    Ok(()) => {
                        // the clock can in principle sit outside the band
                        // the recurrence query accepts; fold it back in
                        let now = now_millis();
                        let cursor: i64 = if now >= 8_000_000_000_000_000 {
                            7_999_999_999_999_999
                        } else if now <= -8_000_000_000_000_000 {
                            -7_999_999_999_999_999
                        } else {
                            now
                        };
                        Ok(
                            Trigger::Crontab(
                                CronTrigger {
                                    expr: expr.clone(),
                                    tz_name: tz_name.to_owned(),
                                    cursor,
                                },
                            ),
                        )
                    },
                    Err(msg) => Err(ProcessError::CrontabParse(msg)),
                }
            },
            crate::config::ProcessType::Basic(text) => {
                match parse_duration_nanos(text.as_str()) {
                    Ok(nanos) => {
                        if nanos < 0 {
                            Err(ProcessError::NegativeDuration)
                        } else {
                            Ok(Trigger::Interval(IntervalTrigger { nanos }))
                        }
                    },
                    Err(msg) => Err(ProcessError::DurationParse(msg)),
                }
            },
        }
    }
}

} // verus!
