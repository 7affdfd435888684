//! Result aggregation and case dispatch order.
//!
//! The dispatcher launches one executor per test-case id in
//! `1..=test_case_num`; results come back in completion order, each
//! carrying its own identifier.  The [`Aggregator`] collects them and
//! only hands the collection out once every case has reported, so a run
//! over `n` cases always yields exactly `n` result entries.

use vstd::prelude::*;

use crate::entity::Response;

verus! {

/// The capacity of the result channel for a run over `test_case_num`
/// cases: a safety margin above the case count, so a slow aggregator
/// never stalls a fast executor even when every case reports at once.
pub fn channel_capacity(test_case_num: u8) -> (c: usize)
    ensures
        c == test_case_num + 10,
        c > test_case_num,
{
    test_case_num as usize + 10
}

/// The test-case identifiers of a request, in dispatch order:
/// `1, 2, ..., n`.
pub fn case_ids(test_case_num: u8) -> (ids: Vec<u32>)
    ensures
        ids@.len() == test_case_num,
        forall|i: int| 0 <= i < ids@.len() ==> ids@[i] == i + 1,
{
    let mut ids: Vec<u32> = Vec::new();
    let mut next: u32 = 1;
    while next <= test_case_num as u32
        invariant
            1 <= next <= test_case_num as u32 + 1,
            ids@.len() == next - 1,
            forall|i: int| 0 <= i < ids@.len() ==> ids@[i] == i + 1,
        decreases test_case_num as u32 + 1 - next,
    {
        ids.push(next);
        next = next + 1;
    }
    ids
}

/// Collects the per-case results of one run.  It knows how many cases
/// were dispatched and is complete exactly when that many results have
/// been moved in.
pub struct Aggregator {
    /// How many test cases were dispatched.
    pub expected: u8,
    /// The results collected so far, in arrival (completion) order.
    pub results: Vec<Response>,
}

impl Aggregator {
    /// The aggregator's invariant: never more results than cases.
    pub open spec fn wf(&self) -> bool {
        self.results@.len() <= self.expected
    }

    /// Whether every dispatched case has reported.
    pub open spec fn complete(&self) -> bool {
        self.results@.len() == self.expected
    }

    /// An empty aggregator for a run over `expected` test cases.
    pub fn new(expected: u8) -> (a: Aggregator)
        ensures
            a.expected == expected,
            a.results@.len() == 0,
            a.wf(),
    {
        Aggregator { expected, results: Vec::new() }
    }

    /// Move one case's result in.
    pub fn push(&mut self, response: Response)
        requires
            old(self).wf(),
            !old(self).complete(),
        ensures
            final(self).wf(),
            final(self).expected == old(self).expected,
            final(self).results@ == old(self).results@.push(response),
    {
        self.results.push(response);
    }

    /// How many results have arrived so far.
    pub fn len(&self) -> (n: usize)
        ensures
            n == self.results@.len(),
    {
        self.results.len()
    }

    /// Whether every dispatched case has reported.
    pub fn is_complete(&self) -> (b: bool)
        ensures
            b == self.complete(),
    {
        self.results.len() == self.expected as usize
    }

    /// Hand the full collection out.  Only a complete run can be handed
    /// out, so the number of entries equals the number of dispatched test
    /// cases exactly — no silent drops.
    pub fn into_results(self) -> (r: Vec<Response>)
        requires
            self.complete(),
        ensures
            r@ == self.results@,
            r@.len() == self.expected,
    {
        self.results
    }
}

} // verus!
