//! The report as a whole: what a run of the command does, step by step.

use crate::cli::{
    decision_of, getopts_outcome, help_text, parse_invocation, print_help, print_version,
    uptime_flags, version_text, Invocation,
};
use crate::clock::{print_time, ClockTime};
use crate::duration::{print_uptime, uptime_text};
use crate::error::{UptimeError, UptimeErrorView};
use crate::resolver::{counter_reading, get_uptime, resolved_uptime, text_view};
use crate::sessions::{
    boot_time, print_nusers, process_utmpx, user_count, users_text, SessionRecord,
};
use vstd::prelude::*;
use vstd::string::StringExecFns;

verus! {

/// What the caller of `uumain` is to do next.
#[derive(Debug, PartialEq, Eq)]
pub enum Step {
    /// Print `output` and end with success.
    Exit { output: String },
    /// Tell of `error` and end with its exit code.
    Fail { error: UptimeError },
    /// Print `clock`, read the host, and hand the readings to `report`.
    /// Where that gives a line, print it, and only then ask the platform for
    /// its load averages and print the load line.
    Gather { clock: String },
}

/// What was read from the host for one report.
#[derive(Debug, PartialEq, Eq)]
pub struct HostReadings {
    /// The text of the kernel's elapsed-time counter, where it could be read.
    pub counter: Option<String>,
    /// The accounting records, in the order of the store; none where the
    /// platform has no store or it could not be read.
    pub records: Vec<SessionRecord>,
    /// The platform's tick count, where it has one.
    pub ticks: Option<i64>,
}

/// The view of a counter text that may be missing.
pub open spec fn counter_view(counter: Option<String>) -> Option<Seq<char>> {
    match counter {
        Some(text) => Some(text@),
        None => None,
    }
}

/// The part of the report between the time of day and the load line, for an
/// uptime in hundredths of a second: the uptime, then the users. A negative
/// uptime is the error that no uptime could be had.
pub open spec fn status_text(uptime: int, users: nat) -> Result<Seq<char>, UptimeErrorView> {
    if uptime < 0 {
        Err(UptimeErrorView::UptimeUnavailable)
    } else {
        Ok(uptime_text(uptime / 100) + users_text(users))
    }
}

/// The view of a text or of the error that came in its place.
pub open spec fn text_result_view(result: Result<String, UptimeError>) -> Result<
    Seq<char>,
    UptimeErrorView,
> {
    match result {
        Ok(text) => Ok(text@),
        Err(error) => Err(error@),
    }
}

impl HostReadings {
    /// The part of the report between the time of day and the load line,
    /// were the clock at `now` seconds since the epoch.
    pub open spec fn status_at(&self, now: i64) -> Result<Seq<char>, UptimeErrorView> {
        status_text(
            resolved_uptime(counter_view(self.counter), boot_time(self.records@), self.ticks, now),
            user_count(self.records@),
        )
    }
}

/// The part of the report between the time of day and the load line.
pub fn status_line(uptime: i64, users: usize) -> (line: Result<String, UptimeError>)
    ensures
        text_result_view(line) == status_text(uptime as int, users as nat),
{
    if uptime < 0 {
        return Err(UptimeError::UptimeUnavailable);
    }
    let upsecs: i64 = uptime / 100;
    let mut line: String = print_uptime(upsecs);
    line.append(print_nusers(users).as_str());
    Ok(line)
}

/// Makes the part of the report between the time of day and the load line
/// from what was read from the host. The clock is read where the uptime needs
/// it. The load line follows a line that was made, and nothing follows an
/// error.
pub fn report(host: &HostReadings) -> (line: Result<String, UptimeError>)
    ensures
        exists|now: i64| text_result_view(line) == #[trigger] host.status_at(now),
{
    let (boot, users) = process_utmpx(&host.records);
    let counter: Option<&str> = match &host.counter {
        Some(text) => Some(text.as_str()),
        None => None,
    };
    let uptime: i64 = get_uptime(counter, boot, host.ticks);
    let line = status_line(uptime, users);
    proof {
        let now = choose|now: i64|
            uptime == #[trigger] resolved_uptime(
                text_view(counter),
                boot,
                host.ticks,
                now,
            );
        assert(text_view(counter) == counter_view(host.counter));
        assert(text_result_view(line) == host.status_at(now));
    }
    line
}

/// The status a process ends with after `result`.
pub fn exit_status(result: &Result<String, UptimeError>) -> (status: i32)
    ensures
        status == if result is Ok {
            0i32
        } else {
            1i32
        },
{
    match result {
        Ok(_) => 0,
        Err(error) => error.exit_code(),
    }
}

/// The first step of a run with the command line `args`, whose first entry
/// is the program's name: what to print at once, or that the host is to be
/// read for a report. `version` is the version that the program shows.
pub fn uumain(args: Vec<String>, version: &str) -> (step: Step)
    requires
        args.len() >= 1,
    ensures
        match decision_of(
            getopts_outcome(uptime_flags(), "version"@, "help"@, args.deep_view().skip(1)),
        ) {
            Err(wrong) => step matches Step::Fail { error } && error@ == wrong,
            Ok(Invocation::Version) => step matches Step::Exit { output } && output@
                == version_text(version@),
            Ok(Invocation::Help) => step matches Step::Exit { output } && output@ == help_text(
                version@,
            ),
            Ok(Invocation::Report) => step matches Step::Gather { clock } && exists|now: ClockTime|
                #[trigger] now.wf() && clock@ == now.text(),
        },
{
    match parse_invocation(&args) {
        Err(error) => Step::Fail { error },
        Ok(Invocation::Version) => Step::Exit { output: print_version(version) },
        Ok(Invocation::Help) => Step::Exit { output: print_help(version) },
        Ok(Invocation::Report) => Step::Gather { clock: print_time() },
    }
}

/// The status line fails exactly where the uptime is negative, and then with
/// the error that no uptime could be had; no negative uptime is ever shown.
pub proof fn lemma_status_fails_on_negative(uptime: int, users: nat)
    ensures
        uptime < 0 <==> status_text(uptime, users) is Err,
        uptime < 0 ==> status_text(uptime, users) == Err::<Seq<char>, UptimeErrorView>(
            UptimeErrorView::UptimeUnavailable,
        ),
{
}

/// A host without a counter that reads, without a boot record and without a
/// tick count has no status line, wherever the clock stands.
pub proof fn lemma_no_source_no_status(host: HostReadings, now: i64)
    requires
        counter_reading(counter_view(host.counter)) is None,
        boot_time(host.records@) is None,
        host.ticks is None,
    ensures
        host.status_at(now) == Err::<Seq<char>, UptimeErrorView>(
            UptimeErrorView::UptimeUnavailable,
        ),
{
}

} // verus!
