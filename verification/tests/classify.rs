use execute_core::entity::EXIT_INTERNAL_ERROR;
use execute_core::entity::EXIT_MEMORY_LIMIT_EXCEEDED;
use execute_core::entity::EXIT_RUNTIME_ERROR;
use execute_core::entity::EXIT_SUCCESS;
use execute_core::entity::EXIT_TIME_LIMIT_EXCEEDED;
use execute_core::executor::RaceOutcome;
use execute_core::executor::classify_case;
use execute_core::monitor::UsageReport;

fn decode(encoded: &str) -> String {
    let bytes = base64::Engine::decode(&base64::engine::general_purpose::STANDARD, encoded)
        .expect("test output should be valid base64");
    String::from_utf8(bytes).expect("test output should be valid UTF-8")
}

#[test]
fn success_output_is_encoded_stdout() {
    let r = classify_case(
        1,
        1000,
        268435456,
        RaceOutcome::Exited { success: true },
        "hello\n",
        Some(UsageReport::Within { cpu_ms: 3, memory: 4096 }),
    );
    assert_eq!(r.exit_code, EXIT_SUCCESS);
    assert_eq!(r.time, 3);
    assert_eq!(r.memory, 4096);
    assert_eq!(r.test_case_id, 1);
    // The exact standard-alphabet encoding: the captured stream is not
    // handed through unchanged.
    assert_eq!(r.output_msg.as_str(), "aGVsbG8K");
    assert_eq!(decode(&r.output_msg), "hello\n");
}

#[test]
fn runtime_error_output_is_encoded_stderr() {
    let r = classify_case(
        2,
        1000,
        268435456,
        RaceOutcome::Exited { success: false },
        "panicked at src/main.rs",
        Some(UsageReport::Within { cpu_ms: 5, memory: 8192 }),
    );
    assert_eq!(r.exit_code, EXIT_RUNTIME_ERROR);
    assert_eq!(decode(&r.output_msg), "panicked at src/main.rs");
    assert_eq!(r.time, 5);
    assert_eq!(r.memory, 8192);
}

#[test]
fn timeout_reports_limit_plus_one() {
    let r = classify_case(
        1,
        500,
        268435456,
        RaceOutcome::TimedOut,
        "",
        Some(UsageReport::Within { cpu_ms: 480, memory: 10000 }),
    );
    assert_eq!(r.exit_code, EXIT_TIME_LIMIT_EXCEEDED);
    assert_eq!(r.time, 501);
    assert_eq!(r.memory, 10000);
    assert_eq!(r.output_msg.as_str(), "Time Exceeded Limit");
}

#[test]
fn timeout_wins_over_memory_breach() {
    let r = classify_case(
        4,
        250,
        1024,
        RaceOutcome::TimedOut,
        "",
        Some(UsageReport::Breached { cpu_ms: 200 }),
    );
    assert_eq!(r.exit_code, EXIT_TIME_LIMIT_EXCEEDED);
    assert_eq!(r.time, 251);
    assert_eq!(r.memory, 1025);
    assert_eq!(r.output_msg.as_str(), "Time Exceeded Limit");
}

#[test]
fn memory_breach_overrides_clean_exit() {
    let r = classify_case(
        1,
        1000,
        1024,
        RaceOutcome::Exited { success: true },
        "would-be output",
        Some(UsageReport::Breached { cpu_ms: 7 }),
    );
    assert_eq!(r.exit_code, EXIT_MEMORY_LIMIT_EXCEEDED);
    assert_eq!(r.memory, 1025);
    assert_eq!(r.time, 7);
    assert_eq!(r.output_msg.as_str(), "Memory Exceeded Limit");
}

#[test]
fn memory_breach_overrides_failed_exit() {
    let r = classify_case(
        1,
        1000,
        1024,
        RaceOutcome::Exited { success: false },
        "some stderr",
        Some(UsageReport::Breached { cpu_ms: 9 }),
    );
    assert_eq!(r.exit_code, EXIT_MEMORY_LIMIT_EXCEEDED);
    assert_eq!(r.output_msg.as_str(), "Memory Exceeded Limit");
}

#[test]
fn status_query_failure_yields_internal_error_result() {
    let r = classify_case(
        3,
        1000,
        268435456,
        RaceOutcome::StatusUnknown,
        "",
        Some(UsageReport::Within { cpu_ms: 2, memory: 100 }),
    );
    assert_eq!(r.exit_code, EXIT_INTERNAL_ERROR);
    assert_eq!(r.test_case_id, 3);
    assert_eq!(r.time, 0);
    assert_eq!(r.memory, 0);
    assert_eq!(r.output_msg.as_str(), "");
}

#[test]
fn missing_report_leaves_usage_zero() {
    let r = classify_case(
        1,
        1000,
        268435456,
        RaceOutcome::Exited { success: true },
        "x",
        None,
    );
    assert_eq!(r.exit_code, EXIT_SUCCESS);
    assert_eq!(r.time, 0);
    assert_eq!(r.memory, 0);
    assert_eq!(decode(&r.output_msg), "x");
}

#[test]
fn classification_ignores_measured_usage_values() {
    // Two runs of the same deterministic program: the measured time and
    // memory differ, the classification does not.
    let first = classify_case(
        1,
        1000,
        268435456,
        RaceOutcome::Exited { success: true },
        "42",
        Some(UsageReport::Within { cpu_ms: 2, memory: 4096 }),
    );
    let second = classify_case(
        1,
        1000,
        268435456,
        RaceOutcome::Exited { success: true },
        "42",
        Some(UsageReport::Within { cpu_ms: 11, memory: 9000 }),
    );
    assert_eq!(first.exit_code, second.exit_code);
    assert_eq!(first.output_msg, second.output_msg);
}

#[test]
fn sum_scenario_classifies_success() {
    // A program that reads two integers and prints their sum at once:
    // limits 1000 ms and 268435456 bytes, observed usage well within both.
    let r = classify_case(
        1,
        1000,
        268435456,
        RaceOutcome::Exited { success: true },
        "3",
        Some(UsageReport::Within { cpu_ms: 1, memory: 1843200 }),
    );
    assert_eq!(r.exit_code, EXIT_SUCCESS);
    assert!(r.time >= 1);
    assert_eq!(decode(&r.output_msg), "3");
}

#[test]
fn infinite_loop_scenario_classifies_timeout() {
    // A program that never finishes under a 500 ms limit.
    let r = classify_case(
        1,
        500,
        268435456,
        RaceOutcome::TimedOut,
        "",
        None,
    );
    assert_eq!(r.exit_code, EXIT_TIME_LIMIT_EXCEEDED);
    assert_eq!(r.time, 501);
    assert_eq!(r.memory, 0);
    assert_eq!(r.output_msg.as_str(), "Time Exceeded Limit");
}

#[test]
fn empty_output_encodes_empty() {
    let r = classify_case(
        1,
        1000,
        268435456,
        RaceOutcome::Exited { success: true },
        "",
        Some(UsageReport::Within { cpu_ms: 1, memory: 1 }),
    );
    assert_eq!(r.output_msg.as_str(), "");
}
