use devnpc::ci::log_parser::{parse_log, parse_log_with_config, FailureType};
use devnpc::config::LogParserConfig;

#[test]
fn parse_compile_error_extracts_file_line() {
    let log = r#"
error[E0277]: cannot find value `password_raw` in this scope
  --> src/handler/login.rs:45:13
   |
45|     if password_raw.contains('!') {
   |        ^^^^^^^^^^^^^ not found
"#;
    let failures = parse_log("test", log);
    assert_eq!(failures.len(), 1);
    assert_eq!(failures[0].failure_type, FailureType::Compile);
    assert!(failures[0].error_message.contains("password_raw"));
    assert_eq!(failures[0].file.as_deref(), Some("src/handler/login.rs"));
}

#[test]
fn parse_test_failure_panicked() {
    let log = "thread 'main' panicked at 'assertion failed', src/handler/login.rs:42:13";
    let failures = parse_log("test", log);
    assert_eq!(failures.len(), 1);
    assert_eq!(failures[0].failure_type, FailureType::Test);
    assert_eq!(failures[0].file.as_deref(), Some("src/handler/login.rs"));
    assert_eq!(failures[0].line, Some(42));
}

#[test]
fn parse_timeout() {
    let log = "Job was killed (signal 9)";
    let failures = parse_log("test", log);
    assert_eq!(failures.len(), 1);
    assert_eq!(failures[0].failure_type, FailureType::Timeout);
}

#[test]
fn parse_empty_log_returns_empty() {
    let failures = parse_log("test", "");
    assert!(failures.is_empty());
}

#[test]
fn parse_dedup_duplicate_errors() {
    let log = "error[E0277]: same error\nerror[E0277]: same error";
    let failures = parse_log("test", log);
    assert_eq!(failures.len(), 1);
}

#[test]
fn compile_error_reads_line_number_and_context() {
    let log = "a\nb\nerror[E0308]:  mismatched types \n  --> src/lib.rs:7:5\nc\nd";
    let failures = parse_log("build", log);
    assert_eq!(failures.len(), 1);
    let f = &failures[0];
    assert_eq!(f.job_name, "build");
    assert_eq!(f.error_message, "mismatched types");
    assert_eq!(f.file.as_deref(), Some("src/lib.rs"));
    assert_eq!(f.line, Some(7));
    assert_eq!(
        f.context_lines,
        vec!["a".to_string(), "b".to_string(), "error[E0308]:  mismatched types ".to_string(), "  --> src/lib.rs:7:5".to_string(), "c".to_string()]
    );
}

#[test]
fn timed_out_line_is_a_timeout() {
    let failures = parse_log("job", "  step timed out after 60m  ");
    assert_eq!(failures.len(), 1);
    assert_eq!(failures[0].failure_type, FailureType::Timeout);
    assert_eq!(failures[0].error_message, "step timed out after 60m");
    assert_eq!(failures[0].file, None);
}

#[test]
fn config_limits_the_number_of_failures() {
    let log = "error[E1]: one\nerror[E2]: two\nerror[E3]: three";
    let cfg = LogParserConfig { max_failures: 2 };
    let failures = parse_log_with_config("job", log, &cfg);
    assert_eq!(failures.len(), 2);
    assert_eq!(failures[0].error_message, "one");
    assert_eq!(failures[1].error_message, "two");
}

#[test]
fn only_neighbouring_duplicates_are_merged() {
    let log = "error[E1]: same\nerror[E2]: other\nerror[E1]: same";
    let failures = parse_log("job", log);
    assert_eq!(failures.len(), 3);
}

#[test]
fn ci_config_default_has_sane_values() {
    let cfg = devnpc::config::CiConfig::default();
    assert_eq!(cfg.poll_interval_secs, 10);
    assert_eq!(cfg.poll_timeout_secs, 300);
    assert_eq!(cfg.pipeline_timeout_secs, 1800);
    assert_eq!(cfg.max_retries, 3);
}

#[test]
fn parse_log_works_with_controller_integration() {
    let log = "error[E0277]: cannot find value `x` in this scope\n  --> src/main.rs:10:5\n   |\n10|     x + 1\n   |     ^ not found\n";
    let failures = parse_log("build", log);
    assert_eq!(failures.len(), 1);
    assert_eq!(failures[0].file.as_deref(), Some("src/main.rs"));
    assert_eq!(failures[0].line, Some(10));
}

#[test]
fn failed_test_line_is_a_test_failure() {
    let cfg = LogParserConfig { max_failures: 10 };
    let failures = parse_log_with_config("test", "test tests::login ... FAILED", &cfg);
    assert_eq!(failures.len(), 1);
    assert_eq!(failures[0].failure_type, FailureType::Test);
    assert_eq!(failures[0].job_name, "test");
    assert_eq!(failures[0].error_message, "test tests::login ... FAILED");
    assert_eq!(failures[0].file, None);
}

#[test]
fn tests_failed_line_is_a_test_failure() {
    let failures = parse_log("ci", "  Tests failed: 3 of 10  ");
    assert_eq!(failures.len(), 1);
    assert_eq!(failures[0].failure_type, FailureType::Test);
    assert_eq!(failures[0].error_message, "Tests failed: 3 of 10");
}

#[test]
fn plain_error_line_is_a_compile_failure_with_location() {
    let log = "error: expected one of `;` or `}`\n  --> src/lib.rs:7:3\n";
    let failures = parse_log("build", log);
    assert_eq!(failures.len(), 1);
    assert_eq!(failures[0].failure_type, FailureType::Compile);
    assert_eq!(failures[0].error_message, "expected one of `;` or `}`");
    assert_eq!(failures[0].file.as_deref(), Some("src/lib.rs"));
    assert_eq!(failures[0].line, Some(7));
}

#[test]
fn failure_marker_is_a_compile_failure() {
    let failures = parse_log("gradle", "FAILURE: Build failed with an exception.");
    assert_eq!(failures.len(), 1);
    assert_eq!(failures[0].failure_type, FailureType::Compile);
    assert_eq!(failures[0].error_message, "FAILURE: Build failed with an exception.");
}

#[test]
fn panic_line_holding_failed_counts_once() {
    let failures = parse_log("test", "thread 'a' panicked at 'x', src/a.rs:3:1 FAILED");
    assert_eq!(failures.len(), 1);
    assert_eq!(failures[0].failure_type, FailureType::Test);
    assert_eq!(failures[0].line, Some(3));
}

#[test]
fn killed_line_is_a_timeout() {
    let failures = parse_log("test", "process killed by the runner");
    assert_eq!(failures.len(), 1);
    assert_eq!(failures[0].failure_type, FailureType::Timeout);
}
