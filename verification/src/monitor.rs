//! The resource-monitor state machine.
//!
//! While a child process runs, the host polls the operating system for the
//! child's CPU time and resident memory at a fixed short cadence and feeds
//! each reading into a [`Monitor`].  The monitor tracks the maxima seen so
//! far and decides when to stop: the instant a reading pushes peak memory
//! over the limit it turns terminal and hands back a breach report (the
//! host must then kill the process); when the process ends on its own,
//! [`Monitor::process_ended`] hands back the one within-limit report.
//!
//! A report is returned exactly on the transition to the terminal state,
//! and a terminal monitor never leaves it: one monitored process lifetime
//! yields exactly one terminal usage report, whether the process breached
//! the limit or exited naturally.

use vstd::prelude::*;

verus! {

/// The single terminal usage report of one monitored process lifetime.
#[derive(Clone, Copy, Debug, PartialEq, Eq, Structural)]
pub enum UsageReport {
    /// The process stayed within the memory limit for as long as it was
    /// observed: the maximum CPU time (milliseconds, floored at 1) and
    /// the maximum resident memory (bytes) seen over its lifetime.
    Within { cpu_ms: u128, memory: u64 },
    /// A reading exceeded the memory limit; observation stopped there and
    /// the process was killed.  Carries the maximum CPU time seen up to
    /// the breach.
    Breached { cpu_ms: u128 },
}

/// Whether a (possibly missing) terminal report signals a memory breach.
pub open spec fn breached(report: Option<UsageReport>) -> bool {
    match report {
        Some(UsageReport::Breached { .. }) => true,
        _ => false,
    }
}

/// Tracks the running maxima of one process's resource readings and
/// decides when observation ends.
pub struct Monitor {
    /// The memory ceiling in bytes; a reading strictly above it is a breach.
    pub memory_limit: u64,
    /// Maximum CPU time observed so far, in milliseconds, floored at 1:
    /// a run shorter than a millisecond still reports 1.
    pub max_cpu_ms: u128,
    /// Maximum resident memory observed so far, in bytes.
    pub max_memory: u64,
    /// Whether the terminal report has been handed out.
    pub terminal: bool,
}

impl Monitor {
    /// The monitor's invariant: observed CPU time is floored at 1 ms.
    pub open spec fn wf(&self) -> bool {
        self.max_cpu_ms >= 1
    }

    /// A fresh monitor for one process: nothing observed yet, so the CPU
    /// floor of 1 ms and zero memory stand; if the process is already gone
    /// before the first reading, these defaults form the terminal report.
    pub fn new(memory_limit: u64) -> (m: Monitor)
        ensures
            m.memory_limit == memory_limit,
            m.max_cpu_ms == 1,
            m.max_memory == 0,
            !m.terminal,
            m.wf(),
    {
        Monitor { memory_limit, max_cpu_ms: 1, max_memory: 0, terminal: false }
    }

    /// Feed one reading of the process's CPU time and resident memory.
    /// Both maxima are updated; if peak memory now exceeds the limit, the
    /// monitor turns terminal and returns the breach report — the caller
    /// must kill the process and stop sampling.  Otherwise sampling goes on.
    pub fn record_sample(&mut self, cpu_ms: u128, rss: u64) -> (breach: Option<UsageReport>)
        requires
            !old(self).terminal,
            old(self).wf(),
        ensures
            final(self).wf(),
            final(self).memory_limit == old(self).memory_limit,
            final(self).max_cpu_ms == if cpu_ms > old(self).max_cpu_ms {
                cpu_ms
            } else {
                old(self).max_cpu_ms
            },
            final(self).max_memory == if rss > old(self).max_memory {
                rss
            } else {
                old(self).max_memory
            },
            final(self).terminal == (final(self).max_memory > final(self).memory_limit),
            breach == if final(self).max_memory > final(self).memory_limit {
                Some(UsageReport::Breached { cpu_ms: final(self).max_cpu_ms })
            } else {
                None::<UsageReport>
            },
    {
        if cpu_ms > self.max_cpu_ms {
            self.max_cpu_ms = cpu_ms;
        }
        if rss > self.max_memory {
            self.max_memory = rss;
        }
        if self.max_memory > self.memory_limit {
            self.terminal = true;
            Some(UsageReport::Breached { cpu_ms: self.max_cpu_ms })
        } else {
            None
        }
    }

    /// The process is no longer alive.  If the monitor has not yet turned
    /// terminal it does so now and returns the one within-limit report of
    /// the maxima observed; if the breach path already produced the
    /// terminal report, nothing further is returned — one lifetime, one
    /// report.
    pub fn process_ended(&mut self) -> (r: Option<UsageReport>)
        requires
            old(self).wf(),
        ensures
            final(self).wf(),
            final(self).terminal,
            final(self).memory_limit == old(self).memory_limit,
            final(self).max_cpu_ms == old(self).max_cpu_ms,
            final(self).max_memory == old(self).max_memory,
            r == if old(self).terminal {
                None::<UsageReport>
            } else {
                Some(UsageReport::Within {
                    cpu_ms: old(self).max_cpu_ms,
                    memory: old(self).max_memory,
                })
            },
    {
        if self.terminal {
            None
        } else {
            self.terminal = true;
            Some(UsageReport::Within { cpu_ms: self.max_cpu_ms, memory: self.max_memory })
        }
    }
}

/// The maximum CPU reading of a sequence of (CPU ms, resident bytes)
/// readings, floored at 1 ms.
pub open spec fn peak_cpu(readings: Seq<(u128, u64)>) -> u128
    decreases readings.len(),
{
    if readings.len() == 0 {
        1
    } else {
        let prev = peak_cpu(readings.drop_last());
        if readings.last().0 > prev {
            readings.last().0
        } else {
            prev
        }
    }
}

/// The maximum resident-memory reading of a sequence of readings.
pub open spec fn peak_rss(readings: Seq<(u128, u64)>) -> u64
    decreases readings.len(),
{
    if readings.len() == 0 {
        0
    } else {
        let prev = peak_rss(readings.drop_last());
        if readings.last().1 > prev {
            readings.last().1
        } else {
            prev
        }
    }
}

/// Extending a prefix of readings by its next element extends both peaks
/// by that element.
proof fn lemma_peak_step(readings: Seq<(u128, u64)>, i: int)
    requires
        0 <= i < readings.len(),
    ensures
        peak_cpu(readings.take(i + 1)) == if readings[i].0 > peak_cpu(readings.take(i)) {
            readings[i].0
        } else {
            peak_cpu(readings.take(i))
        },
        peak_rss(readings.take(i + 1)) == if readings[i].1 > peak_rss(readings.take(i)) {
            readings[i].1
        } else {
            peak_rss(readings.take(i))
        },
{
    assert(readings.take(i + 1).drop_last() =~= readings.take(i));
    assert(readings.take(i + 1).last() == readings[i]);
}

/// One monitored process lifetime yields exactly one terminal report.
///
/// The host's polling loop feeds readings into the monitor until either a
/// reading breaches the limit — observation stops there — or the process
/// ends and no readings remain.  This function plays that protocol over
/// any finite sequence of readings: whatever the readings say, and even
/// when there are none (the process was gone before the first poll),
/// exactly one terminal report comes out.  A lifetime whose readings all
/// stay within the limit reports the maxima observed, CPU time floored at
/// 1 ms; one with a reading over the limit reports a breach.
pub fn observe_lifetime(memory_limit: u64, readings: &Vec<(u128, u64)>) -> (reports: Vec<
    UsageReport,
>)
    ensures
        reports@.len() == 1,
        (forall|j: int| 0 <= j < readings@.len() ==> readings@[j].1 <= memory_limit)
            ==> reports@[0] == (UsageReport::Within {
            cpu_ms: peak_cpu(readings@),
            memory: peak_rss(readings@),
        }),
        (exists|j: int| 0 <= j < readings@.len() && readings@[j].1 > memory_limit)
            ==> reports@[0] is Breached,
{
    let mut monitor = Monitor::new(memory_limit);
    let mut reports: Vec<UsageReport> = Vec::new();
    let mut i: usize = 0;
    while i < readings.len()
        invariant
            monitor.wf(),
            !monitor.terminal,
            monitor.memory_limit == memory_limit,
            reports@.len() == 0,
            i <= readings.len(),
            monitor.max_cpu_ms == peak_cpu(readings@.take(i as int)),
            monitor.max_memory == peak_rss(readings@.take(i as int)),
            forall|j: int| 0 <= j < i ==> readings@[j].1 <= memory_limit,
            peak_rss(readings@.take(i as int)) <= memory_limit,
        decreases readings.len() - i,
    {
        let (cpu_ms, rss) = readings[i];
        proof {
            lemma_peak_step(readings@, i as int);
        }
        if let Some(report) = monitor.record_sample(cpu_ms, rss) {
            proof {
                assert(readings@[i as int].1 > memory_limit);
            }
            reports.push(report);
            return reports;
        }
        i = i + 1;
    }
    proof {
        assert(readings@.take(readings@.len() as int) =~= readings@);
    }
    if let Some(report) = monitor.process_ended() {
        reports.push(report);
    }
    reports
}

} // verus!
