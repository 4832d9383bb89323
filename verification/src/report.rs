//! Report lines for each converter run.
//!
//! Every run of the converter on one file ends in an event: the subprocess
//! exited (successfully or not, with its captured error text), or it could
//! not be launched at all (with the operating-system error code).
//! [`decide_step`] turns the event into the exact lines to print and says
//! whether the whole batch must stop: it aborts precisely when the
//! converter executable was not found.  Any other launch failure prints
//! nothing and lets the batch continue.

use crate::classify::classify_launch_failure;
use crate::classify::classify_stderr;
use crate::classify::contains_seq;
use crate::classify::FailureKind;
use crate::classify::LaunchFailureKind;
use crate::classify::NOT_FOUND_OS_CODE;
use crate::decimal::decimal_digits;
use crate::decimal::u64_to_decimal;
use vstd::prelude::*;
use vstd::string::*;

verus! {

/// The line reporting one successful conversion.
pub open spec fn success_line_of(output_name: Seq<char>, elapsed_ms: u64) -> Seq<char> {
    "Formated "@ + output_name + " ("@ + decimal_digits(elapsed_ms as nat) + "ms)"@
}

/// The line reporting a conversion refused because the output exists.
pub open spec fn already_exists_line_of(output_name: Seq<char>) -> Seq<char> {
    "Failed "@ + output_name + " (already exists)"@
}

/// The line reporting a conversion with no suitable output format.
pub open spec fn unsuitable_output_line_of(output_name: Seq<char>) -> Seq<char> {
    "Failed "@ + output_name + " (unable to find a suitable output format)"@
}

/// The line heading an unclassified conversion failure; the raw error
/// text follows on a line of its own.
pub open spec fn unknown_failure_line_of(output_name: Seq<char>) -> Seq<char> {
    "Failed "@ + output_name + " (unknown)"@
}

/// The first line of the fatal missing-executable report: a red "ERROR"
/// label, then the instruction.
pub open spec fn not_found_first_line() -> Seq<char> {
    "\u{1b}[31mERROR\u{1b}[0m: ffmpeg not found!"@
}

/// The second line of the fatal missing-executable report.
pub open spec fn not_found_second_line() -> Seq<char> {
    "Try adding ffmpeg to PATH"@
}

/// The lines reporting a run that exited with a failure status, chosen
/// by the category of its captured error text.
pub open spec fn failure_lines_of(output_name: Seq<char>, stderr: Seq<char>) -> Seq<Seq<char>> {
    if contains_seq(stderr, "already exists"@) {
        seq![already_exists_line_of(output_name)]
    } else if contains_seq(stderr, "suitable output"@) {
        seq![unsuitable_output_line_of(output_name)]
    } else {
        seq![unknown_failure_line_of(output_name), stderr]
    }
}

/// What one converter run reported back.
pub enum RunEvent {
    /// The subprocess ran to completion with the given exit status and
    /// captured error text.
    Exited { exit_ok: bool, stderr: String },
    /// The subprocess could not be launched; the raw operating-system
    /// error code, if any, is carried along.
    NotLaunched { os_code: Option<i32> },
}

/// What to do after one converter run: print the lines, then either go
/// on to the next file or stop the whole batch.
pub enum StepAction {
    /// Print the lines and continue with the next file.
    Proceed { lines: Vec<String> },
    /// Print the lines and stop the batch with a failure status.
    Abort { lines: Vec<String> },
}

/// The lines an action prints.
pub open spec fn action_lines(a: StepAction) -> Seq<String> {
    match a {
        StepAction::Proceed { lines } => lines@,
        StepAction::Abort { lines } => lines@,
    }
}

/// The lines owed to an event: the success line with the elapsed time, the
/// classified failure lines, the two fatal lines for a missing executable,
/// or nothing for any other launch failure.
pub open spec fn event_lines(output_name: Seq<char>, elapsed_ms: u64, event: RunEvent) -> Seq<
    Seq<char>,
> {
    match event {
        RunEvent::Exited { exit_ok, stderr } => if exit_ok {
            seq![success_line_of(output_name, elapsed_ms)]
        } else {
            failure_lines_of(output_name, stderr@)
        },
        RunEvent::NotLaunched { os_code } => if os_code == Some(NOT_FOUND_OS_CODE) {
            seq![not_found_first_line(), not_found_second_line()]
        } else {
            Seq::empty()
        },
    }
}

/// Whether an event stops the whole batch: only a launch failure whose
/// code marks a missing executable does.
pub open spec fn event_aborts(event: RunEvent) -> bool {
    event matches RunEvent::NotLaunched { os_code } && os_code == Some(NOT_FOUND_OS_CODE)
}

/// Builds the line reporting a successful conversion of `output_name`
/// after `elapsed_ms` milliseconds.
pub fn success_line(output_name: &String, elapsed_ms: u64) -> (r: String)
    ensures
        r@ == success_line_of(output_name@, elapsed_ms),
{
    let mut r = String::from_str("Formated ");
    r.append(output_name.as_str());
    r.append(" (");
    let ms = u64_to_decimal(elapsed_ms);
    r.append(ms.as_str());
    r.append("ms)");
    r
}

fn failed_line(output_name: &String, suffix: &str) -> (r: String)
    ensures
        r@ == "Failed "@ + output_name@ + suffix@,
{
    let mut r = String::from_str("Failed ");
    r.append(output_name.as_str());
    r.append(suffix);
    r
}

/// Builds the two lines of the fatal missing-executable report.
pub fn not_found_lines() -> (r: Vec<String>)
    ensures
        r@.len() == 2,
        r@[0]@ == not_found_first_line(),
        r@[1]@ == not_found_second_line(),
{
    let mut r: Vec<String> = Vec::new();
    r.push(String::from_str("\u{1b}[31mERROR\u{1b}[0m: ffmpeg not found!"));
    r.push(String::from_str("Try adding ffmpeg to PATH"));
    r
}

/// Decides what one converter run means for the batch: which report
/// lines to print for `output_name`, and whether to stop.  The decision
/// aborts exactly when the converter executable was missing; every exit,
/// successful or failed, lets the batch proceed, and a launch failure
/// with any other code proceeds silently.
pub fn decide_step(output_name: &String, elapsed_ms: u64, event: &RunEvent) -> (r: StepAction)
    ensures
        r is Abort <==> event_aborts(*event),
        action_lines(r).len() == event_lines(output_name@, elapsed_ms, *event).len(),
        forall|i: int|
            0 <= i < action_lines(r).len() ==> (#[trigger] action_lines(r)[i])@ == event_lines(
                output_name@,
                elapsed_ms,
                *event,
            )[i],
{
    match event {
        RunEvent::Exited { exit_ok, stderr } => {
            let mut lines: Vec<String> = Vec::new();
            if *exit_ok {
                lines.push(success_line(output_name, elapsed_ms));
            } else {
                match classify_stderr(stderr.as_str()) {
                    FailureKind::AlreadyExists => {
                        lines.push(failed_line(output_name, " (already exists)"));
                    },
                    FailureKind::UnsuitableOutput => {
                        lines.push(
                            failed_line(
                                output_name,
                                " (unable to find a suitable output format)",
                            ),
                        );
                    },
                    FailureKind::Unknown => {
                        lines.push(failed_line(output_name, " (unknown)"));
                        lines.push(stderr.clone());
                    },
                }
            }
            StepAction::Proceed { lines }
        },
        RunEvent::NotLaunched { os_code } => {
            match classify_launch_failure(*os_code) {
                LaunchFailureKind::NotFound => StepAction::Abort { lines: not_found_lines() },
                LaunchFailureKind::Other => StepAction::Proceed { lines: Vec::new() },
            }
        },
    }
}

} // verus!
