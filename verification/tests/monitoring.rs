use execute_core::monitor::observe_lifetime;
use execute_core::monitor::Monitor;
use execute_core::monitor::UsageReport;

#[test]
fn natural_exit_reports_maxima_once() {
    let mut m = Monitor::new(1000000);
    assert_eq!(m.record_sample(1, 100), None);
    assert_eq!(m.record_sample(4, 900), None);
    assert_eq!(m.record_sample(6, 500), None);
    let report = m.process_ended();
    assert_eq!(report, Some(UsageReport::Within { cpu_ms: 6, memory: 900 }));
    // The terminal report was already handed out; there is no second one.
    assert_eq!(m.process_ended(), None);
}

#[test]
fn sub_millisecond_run_reports_one_millisecond() {
    let mut m = Monitor::new(1000000);
    assert_eq!(m.record_sample(0, 100), None);
    let report = m.process_ended();
    assert_eq!(report, Some(UsageReport::Within { cpu_ms: 1, memory: 100 }));
}

#[test]
fn vanished_process_still_reports_defaults() {
    // The process was gone before a single reading could be taken: the
    // monitor still emits one terminal report with its initial values.
    let mut m = Monitor::new(1000000);
    let report = m.process_ended();
    assert_eq!(report, Some(UsageReport::Within { cpu_ms: 1, memory: 0 }));
}

#[test]
fn gib_allocation_scenario_breaches() {
    // A program holding 1 GiB under a 268435456-byte limit: the reading
    // that crosses the limit ends observation with a breach report; the
    // host kills the process, cutting it off before natural completion.
    let limit: u64 = 268435456;
    let mut m = Monitor::new(limit);
    assert_eq!(m.record_sample(2, 1048576), None);
    let breach = m.record_sample(5, 1073741824);
    assert_eq!(breach, Some(UsageReport::Breached { cpu_ms: 5 }));
    assert!(m.terminal);
    // After the breach the process's death produces no second report.
    assert_eq!(m.process_ended(), None);
}

#[test]
fn reading_equal_to_limit_is_no_breach() {
    let mut m = Monitor::new(1024);
    assert_eq!(m.record_sample(1, 1024), None);
    assert_eq!(m.process_ended(), Some(UsageReport::Within { cpu_ms: 1, memory: 1024 }));
}

#[test]
fn reading_one_above_limit_breaches() {
    let mut m = Monitor::new(1024);
    assert_eq!(m.record_sample(1, 1025), Some(UsageReport::Breached { cpu_ms: 1 }));
}

#[test]
fn lifetime_within_limit_yields_one_report_of_the_maxima() {
    let readings: Vec<(u128, u64)> = vec![(1, 100), (4, 900), (6, 500)];
    let reports = observe_lifetime(1000000, &readings);
    assert_eq!(reports, vec![UsageReport::Within { cpu_ms: 6, memory: 900 }]);
}

#[test]
fn lifetime_with_a_breach_yields_exactly_one_report() {
    let readings: Vec<(u128, u64)> = vec![(1, 100), (4, 2000), (6, 500)];
    let reports = observe_lifetime(1024, &readings);
    assert_eq!(reports.len(), 1);
    assert_eq!(reports[0], UsageReport::Breached { cpu_ms: 4 });
}

#[test]
fn lifetime_without_readings_yields_the_default_report() {
    let readings: Vec<(u128, u64)> = Vec::new();
    let reports = observe_lifetime(1024, &readings);
    assert_eq!(reports, vec![UsageReport::Within { cpu_ms: 1, memory: 0 }]);
}
