//! Outcome classification: the decision core of one test-case execution.
//!
//! The host spawns the child process, feeds it the test-case input, and
//! races the child's exit against the wall-clock deadline; the monitor
//! watches its resource usage.  Everything the host observes of one case
//! is condensed into a [`RaceOutcome`], the captured output text, and the
//! monitor's terminal [`UsageReport`]; [`classify_case`] turns those
//! observations into the one [`Response`] of the case.
//!
//! The classification is layered: a timeout always wins, a memory breach
//! overrides whatever the exit status would imply, and only then does the
//! exit status decide between success and runtime error.  A case whose
//! status could not be observed still yields a result — tagged as an
//! internal error — so no test case is ever silently dropped.

use vstd::prelude::*;

use crate::codec::base64_of;
use crate::codec::encode_output;
use crate::entity::EXIT_INTERNAL_ERROR;
use crate::entity::EXIT_MEMORY_LIMIT_EXCEEDED;
use crate::entity::EXIT_RUNTIME_ERROR;
use crate::entity::EXIT_SUCCESS;
use crate::entity::EXIT_TIME_LIMIT_EXCEEDED;
use crate::entity::Response;
use crate::monitor::UsageReport;
use crate::monitor::breached;

verus! {

/// What the host observed of the race between the child's exit and the
/// wall-clock deadline.
#[derive(Clone, Copy, Debug, PartialEq, Eq, Structural)]
pub enum RaceOutcome {
    /// The process exited before the deadline; `success` is whether its
    /// exit status was zero.
    Exited { success: bool },
    /// The deadline fired while the process was still running.
    TimedOut,
    /// The process finished before the deadline but the exit-status query
    /// itself failed: the case was observed but cannot be judged.
    StatusUnknown,
}

/// The fixed diagnostic text reported on a timeout.
pub open spec fn time_exceeded_text() -> Seq<char> {
    "Time Exceeded Limit"@
}

/// The fixed diagnostic text reported on a memory breach.
pub open spec fn memory_exceeded_text() -> Seq<char> {
    "Memory Exceeded Limit"@
}

/// The outcome code of a case: a timeout always classifies as
/// time-limit-exceeded, whatever the monitor found; an unobservable exit
/// status is an internal error; otherwise a memory breach overrides the
/// exit status, which then decides between success and runtime error.
pub open spec fn spec_exit_code(outcome: RaceOutcome, report: Option<UsageReport>) -> u16 {
    match outcome {
        RaceOutcome::TimedOut => EXIT_TIME_LIMIT_EXCEEDED,
        RaceOutcome::StatusUnknown => EXIT_INTERNAL_ERROR,
        RaceOutcome::Exited { success } => if breached(report) {
            EXIT_MEMORY_LIMIT_EXCEEDED
        } else if success {
            EXIT_SUCCESS
        } else {
            EXIT_RUNTIME_ERROR
        },
    }
}

/// The reported time of a case: on a timeout, `time_limit + 1` — a
/// deliberate out-of-bound marker, not the true elapsed time; otherwise
/// the monitor's maximum observed CPU time, or 0 if no report arrived.
/// An unjudgeable case keeps the default of 0.
pub open spec fn spec_time(
    outcome: RaceOutcome,
    report: Option<UsageReport>,
    time_limit: u64,
) -> u128 {
    match outcome {
        RaceOutcome::TimedOut => (time_limit + 1) as u128,
        RaceOutcome::StatusUnknown => 0,
        RaceOutcome::Exited { .. } => match report {
            Some(UsageReport::Within { cpu_ms, .. }) => cpu_ms,
            Some(UsageReport::Breached { cpu_ms }) => cpu_ms,
            None => 0,
        },
    }
}

/// The reported memory of a case: the monitor's maximum observed resident
/// memory, or `memory_limit + 1` when the limit was breached, or 0 if no
/// report arrived.  An unjudgeable case keeps the default of 0.
pub open spec fn spec_memory(
    outcome: RaceOutcome,
    report: Option<UsageReport>,
    memory_limit: u64,
) -> u64 {
    match outcome {
        RaceOutcome::StatusUnknown => 0,
        _ => match report {
            Some(UsageReport::Within { memory, .. }) => memory,
            Some(UsageReport::Breached { .. }) => (memory_limit + 1) as u64,
            None => 0,
        },
    }
}

/// The reported output of a case: a fixed diagnostic on a timeout or a
/// memory breach, the binary-safe encoding of the captured stream
/// otherwise, and empty for an unjudgeable case.
pub open spec fn spec_output(
    outcome: RaceOutcome,
    report: Option<UsageReport>,
    captured: Seq<char>,
) -> Seq<char> {
    match outcome {
        RaceOutcome::TimedOut => time_exceeded_text(),
        RaceOutcome::StatusUnknown => Seq::<char>::empty(),
        RaceOutcome::Exited { .. } => if breached(report) {
            memory_exceeded_text()
        } else {
            base64_of(captured)
        },
    }
}

/// Classify one test case from everything the host observed of it: the
/// race outcome, the captured stream (stdout of a successful exit, stderr
/// of a failed one; ignored otherwise), and the monitor's terminal report
/// (`None` if none arrived).  Total: every observation yields exactly one
/// result, carrying the case's identifier.
pub fn classify_case(
    test_case_id: u32,
    time_limit: u64,
    memory_limit: u64,
    outcome: RaceOutcome,
    captured: &str,
    report: Option<UsageReport>,
) -> (r: Response)
    requires
        memory_limit < u64::MAX,
    ensures
        r.test_case_id == test_case_id,
        r.exit_code == spec_exit_code(outcome, report),
        r.time == spec_time(outcome, report, time_limit),
        r.memory == spec_memory(outcome, report, memory_limit),
        r.output_msg@ == spec_output(outcome, report, captured@),
{
    let mut response = Response::new();
    response.set_test_case_id(test_case_id);
    match outcome {
        RaceOutcome::TimedOut => {
            response.set_exit_code(EXIT_TIME_LIMIT_EXCEEDED);
            response.set_time((time_limit as u128) + 1);
            match report {
                Some(UsageReport::Within { memory, .. }) => {
                    response.set_memory(memory);
                },
                Some(UsageReport::Breached { .. }) => {
                    response.set_memory(memory_limit + 1);
                },
                None => {},
            }
            response.set_output_msg("Time Exceeded Limit".to_owned());
        },
        RaceOutcome::StatusUnknown => {},
        RaceOutcome::Exited { success } => {
            match report {
                Some(UsageReport::Breached { cpu_ms }) => {
                    response.set_exit_code(EXIT_MEMORY_LIMIT_EXCEEDED);
                    response.set_time(cpu_ms);
                    response.set_memory(memory_limit + 1);
                    response.set_output_msg("Memory Exceeded Limit".to_owned());
                },
                Some(UsageReport::Within { cpu_ms, memory }) => {
                    response.set_exit_code(if success {
                        EXIT_SUCCESS
                    } else {
                        EXIT_RUNTIME_ERROR
                    });
                    response.set_time(cpu_ms);
                    response.set_memory(memory);
                    response.set_output_msg(encode_output(captured));
                },
                None => {
                    response.set_exit_code(if success {
                        EXIT_SUCCESS
                    } else {
                        EXIT_RUNTIME_ERROR
                    });
                    response.set_output_msg(encode_output(captured));
                },
            }
        },
    }
    response
}

/// A timeout always wins: whatever the monitor reported — a within-limit
/// reading, a breach, or nothing — a timed-out case classifies as
/// time-limit-exceeded with reported time exactly `time_limit + 1`.
pub proof fn lemma_timeout_wins(report: Option<UsageReport>, time_limit: u64)
    ensures
        spec_exit_code(RaceOutcome::TimedOut, report) == EXIT_TIME_LIMIT_EXCEEDED,
        spec_time(RaceOutcome::TimedOut, report, time_limit) == time_limit + 1,
{
}

/// A memory breach overrides the exit status: a case that finished within
/// the deadline but breached the memory limit classifies as
/// memory-limit-exceeded whether its program exited cleanly or not, with
/// the fixed diagnostic as output.
pub proof fn lemma_memory_overrides_exit_status(
    success: bool,
    cpu_ms: u128,
    captured: Seq<char>,
)
    ensures
        spec_exit_code(
            RaceOutcome::Exited { success },
            Some(UsageReport::Breached { cpu_ms }),
        ) == EXIT_MEMORY_LIMIT_EXCEEDED,
        spec_output(
            RaceOutcome::Exited { success },
            Some(UsageReport::Breached { cpu_ms }),
            captured,
        ) == memory_exceeded_text(),
{
}

/// Without a breach the exit status alone decides: a memory finding can
/// upgrade an outcome to memory-limit-exceeded, never the other way
/// around.
pub proof fn lemma_exit_status_decides_without_breach(
    success: bool,
    report: Option<UsageReport>,
)
    requires
        !breached(report),
    ensures
        spec_exit_code(RaceOutcome::Exited { success }, report) == if success {
            EXIT_SUCCESS
        } else {
            EXIT_RUNTIME_ERROR
        },
{
}

/// Classification is a function of the race outcome's kind and of whether
/// the monitor found a breach — never of the measured time and memory
/// values.  Two runs of a deterministic program under the same limits
/// therefore classify alike even when their measured usage differs.
pub proof fn lemma_classification_stable(
    o1: RaceOutcome,
    o2: RaceOutcome,
    r1: Option<UsageReport>,
    r2: Option<UsageReport>,
)
    requires
        o1 == o2 || (o1 matches RaceOutcome::Exited { success: s1 } && o2
            matches RaceOutcome::Exited { success: s2 } && s1 == s2),
        breached(r1) == breached(r2),
    ensures
        spec_exit_code(o1, r1) == spec_exit_code(o2, r2),
{
}

} // verus!
