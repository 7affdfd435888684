//! Data model: the caller-supplied execution request and the per-test-case
//! result record.

use vstd::prelude::*;

verus! {

/// Language kind: the submission is a directly executable native binary
/// (`main` inside the working directory).
pub const LANG_NATIVE: u8 = 1;

/// Language kind: the submission runs on a JVM (entry class `Main`,
/// classpath set to the working directory).
pub const LANG_JVM: u8 = 2;

/// Outcome code: the host itself failed to observe the case (for example
/// the exit-status query failed).  Also the default of a freshly built
/// result: a path that never classifies must surface this, not a success.
pub const EXIT_INTERNAL_ERROR: u16 = 500;

/// Outcome code: the program exited 0 within both limits.
pub const EXIT_SUCCESS: u16 = 1000;

/// Outcome code: the program exited non-zero within both limits.
pub const EXIT_RUNTIME_ERROR: u16 = 1002;

/// Outcome code: the program did not finish within the time limit.
pub const EXIT_TIME_LIMIT_EXCEEDED: u16 = 1003;

/// Outcome code: the program's peak resident memory exceeded the limit.
pub const EXIT_MEMORY_LIMIT_EXCEEDED: u16 = 1004;

/// One grading request, immutable for the whole run.
pub struct RequestArgs {
    /// Language kind: `LANG_NATIVE`, `LANG_JVM`, or anything else for an
    /// interpreted submission.
    pub lang: u8,
    /// Number of test cases; the working directory holds
    /// `input-<id>.txt` for each id in `1..=test_case_num`.
    pub test_case_num: u8,
    /// Wall-clock time limit in milliseconds.
    pub time_limit: u128,
    /// Peak-resident-memory limit in bytes.
    pub memory_limit: u64,
    /// The isolated working directory all children run from.
    pub file_dir: String,
}

impl RequestArgs {
    /// The request invariant: the case count and both limits are positive.
    pub open spec fn valid(&self) -> bool {
        &&& self.test_case_num > 0
        &&& self.time_limit > 0
        &&& self.memory_limit > 0
    }
}

/// The result of one test case.
pub struct Response {
    /// Outcome code: one of the `EXIT_*` constants.
    pub exit_code: u16,
    /// Observed CPU time in milliseconds (floored at 1 for any run that
    /// was observed; `time_limit + 1` on a timeout).
    pub time: u128,
    /// Observed peak resident memory in bytes (`memory_limit + 1` when
    /// the limit was breached).
    pub memory: u64,
    /// Captured textual output: the encoded stream on success or runtime
    /// error, a fixed diagnostic otherwise.
    pub output_msg: String,
    /// Which test case produced this result, in `1..=test_case_num`.
    pub test_case_id: u32,
}

impl Response {
    /// Build a result from all five fields at once.
    pub fn from(
        exit_code: u16,
        time: u128,
        memory: u64,
        output_msg: String,
        test_case_id: u32,
    ) -> (r: Self)
        ensures
            r.exit_code == exit_code,
            r.time == time,
            r.memory == memory,
            r.output_msg@ == output_msg@,
            r.test_case_id == test_case_id,
    {
        Response { exit_code, time, memory, output_msg, test_case_id }
    }

    /// A fresh result: everything zeroed and the outcome defaulted to
    /// `EXIT_INTERNAL_ERROR`, so a case that is never classified reports
    /// an internal error rather than a silent success.
    pub fn new() -> (r: Self)
        ensures
            r.exit_code == EXIT_INTERNAL_ERROR,
            r.time == 0,
            r.memory == 0,
            r.output_msg@ == Seq::<char>::empty(),
            r.test_case_id == 0,
    {
        Response {
            exit_code: EXIT_INTERNAL_ERROR,
            time: 0,
            memory: 0,
            output_msg: String::new(),
            test_case_id: 0,
        }
    }

    /// Set the outcome code, leaving every other field as it was.
    /// Returns `self` again so that calls can be chained.
    pub fn set_exit_code(&mut self, exit_code: u16) -> (r: &mut Self)
        ensures
            (*r).exit_code == exit_code,
            (*r).time == old(self).time,
            (*r).memory == old(self).memory,
            (*r).output_msg@ == old(self).output_msg@,
            (*r).test_case_id == old(self).test_case_id,
            *final(self) == *final(r),
    {
        self.exit_code = exit_code;
        self
    }

    /// Set the observed time, leaving every other field as it was.
    /// Returns `self` again so that calls can be chained.
    pub fn set_time(&mut self, time: u128) -> (r: &mut Self)
        ensures
            (*r).time == time,
            (*r).exit_code == old(self).exit_code,
            (*r).memory == old(self).memory,
            (*r).output_msg@ == old(self).output_msg@,
            (*r).test_case_id == old(self).test_case_id,
            *final(self) == *final(r),
    {
        self.time = time;
        self
    }

    /// Set the observed memory, leaving every other field as it was.
    /// Returns `self` again so that calls can be chained.
    pub fn set_memory(&mut self, memory: u64) -> (r: &mut Self)
        ensures
            (*r).memory == memory,
            (*r).exit_code == old(self).exit_code,
            (*r).time == old(self).time,
            (*r).output_msg@ == old(self).output_msg@,
            (*r).test_case_id == old(self).test_case_id,
            *final(self) == *final(r),
    {
        self.memory = memory;
        self
    }

    /// Set the output text, leaving every other field as it was.
    /// Returns `self` again so that calls can be chained.
    pub fn set_output_msg(&mut self, output_msg: String) -> (r: &mut Self)
        ensures
            (*r).output_msg@ == output_msg@,
            (*r).exit_code == old(self).exit_code,
            (*r).time == old(self).time,
            (*r).memory == old(self).memory,
            (*r).test_case_id == old(self).test_case_id,
            *final(self) == *final(r),
    {
        self.output_msg = output_msg;
        self
    }

    /// Set the test-case identifier, leaving every other field as it was.
    /// Returns `self` again so that calls can be chained.
    pub fn set_test_case_id(&mut self, id: u32) -> (r: &mut Self)
        ensures
            (*r).test_case_id == id,
            (*r).exit_code == old(self).exit_code,
            (*r).time == old(self).time,
            (*r).memory == old(self).memory,
            (*r).output_msg@ == old(self).output_msg@,
            *final(self) == *final(r),
    {
        self.test_case_id = id;
        self
    }
}

} // verus!
