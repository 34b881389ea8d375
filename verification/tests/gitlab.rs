use devnpc::config::ContextConfig;
use devnpc::gitlab_api::pipelines::{failed_job_logs, filter_failed, is_success, is_terminal, JobLog};
use devnpc::gitlab_api::repo::{filter_dirs, filter_files, find_by_name, DEFAULT_REF};
use devnpc::gitlab_api::{Job, Pipeline, RepoTreeEntry};
use devnpc::memory::context::{extract_failures, FailureType};

fn make_pipeline(id: u64, status: &str) -> Pipeline {
    Pipeline {
        id,
        status: status.into(),
        ref_: Some("main".into()),
        sha: Some("abc".into()),
        web_url: format!("https://gl.test/p/{id}"),
    }
}

fn make_job(id: u64, name: &str, status: &str) -> Job {
    Job {
        id,
        name: name.into(),
        status: status.into(),
        stage: "test".into(),
        web_url: Some(format!("https://gl.test/jobs/{id}")),
    }
}

fn make_entry(name: &str, type_: &str, path: &str) -> RepoTreeEntry {
    RepoTreeEntry {
        id: format!("id-{name}"),
        name: name.into(),
        type_: type_.into(),
        path: path.into(),
        mode: "100644".into(),
    }
}

#[test]
fn filter_failed_returns_newest_failed() {
    let pipelines = vec![
        make_pipeline(1, "success"),
        make_pipeline(3, "failed"),
        make_pipeline(2, "failed"),
        make_pipeline(4, "running"),
    ];
    let failed = filter_failed(&pipelines, 10);
    assert_eq!(failed.len(), 2);
    assert_eq!(failed[0].id, 3);
    assert_eq!(failed[1].id, 2);
}

#[test]
fn filter_failed_respects_count_limit() {
    let pipelines: Vec<Pipeline> = (1..=5).map(|i| make_pipeline(i, "failed")).collect();
    let failed = filter_failed(&pipelines, 2);
    assert_eq!(failed.len(), 2);
    assert_eq!(failed[0].id, 5);
    assert_eq!(failed[1].id, 4);
}

#[test]
fn filter_failed_empty_when_no_failures() {
    let pipelines = vec![make_pipeline(1, "success"), make_pipeline(2, "running")];
    assert!(filter_failed(&pipelines, 10).is_empty());
}

#[test]
fn filter_failed_keeps_input_order_for_equal_ids() {
    let mut a = make_pipeline(7, "failed");
    a.web_url = "first".into();
    let mut b = make_pipeline(7, "failed");
    b.web_url = "second".into();
    let failed = filter_failed(&[a, make_pipeline(9, "failed"), b], 3);
    let urls: Vec<&str> = failed.iter().map(|p| p.web_url.as_str()).collect();
    assert_eq!(urls, vec!["https://gl.test/p/9", "first", "second"]);
}

#[test]
fn filter_failed_with_zero_count_is_empty() {
    assert!(filter_failed(&[make_pipeline(1, "failed")], 0).is_empty());
}

#[test]
fn is_terminal_recognizes_finished_states() {
    assert!(is_terminal(&make_pipeline(1, "success")));
    assert!(is_terminal(&make_pipeline(1, "failed")));
    assert!(is_terminal(&make_pipeline(1, "canceled")));
    assert!(!is_terminal(&make_pipeline(1, "running")));
    assert!(!is_terminal(&make_pipeline(1, "pending")));
}

#[test]
fn is_success_only_matches_success() {
    assert!(is_success(&make_pipeline(1, "success")));
    assert!(!is_success(&make_pipeline(1, "failed")));
}

#[test]
fn fetch_failed_job_logs_returns_only_failed() {
    let all = vec![
        JobLog { job: make_job(1, "build", "success"), log: "ok".into() },
        JobLog { job: make_job(2, "test", "failed"), log: "fail".into() },
    ];
    let result = failed_job_logs(all);
    assert_eq!(result.len(), 1);
    assert_eq!(result[0].job.status, "failed");
    assert_eq!(result[0].log, "fail");
}

#[test]
fn filter_files_returns_only_blobs() {
    let entries = vec![
        make_entry("README.md", "blob", "README.md"),
        make_entry("src", "tree", "src"),
        make_entry("Cargo.toml", "blob", "Cargo.toml"),
    ];
    let files = filter_files(&entries);
    assert_eq!(files.len(), 2);
    assert_eq!(files[0].name, "README.md");
    assert_eq!(files[1].name, "Cargo.toml");
}

#[test]
fn filter_dirs_returns_only_trees() {
    let entries = vec![
        make_entry("README.md", "blob", "README.md"),
        make_entry("src", "tree", "src"),
        make_entry("tests", "tree", "tests"),
    ];
    let dirs = filter_dirs(&entries);
    assert_eq!(dirs.len(), 2);
    assert_eq!(dirs[0].name, "src");
    assert_eq!(dirs[1].name, "tests");
}

#[test]
fn find_by_name_returns_matching_entry() {
    let entries = vec![make_entry("README.md", "blob", "README.md"), make_entry("Cargo.toml", "blob", "Cargo.toml")];
    let found = find_by_name(&entries, "Cargo.toml").unwrap();
    assert_eq!(found.path, "Cargo.toml");
    assert!(find_by_name(&entries, "missing").is_none());
}

#[test]
fn default_ref_is_main() {
    assert_eq!(DEFAULT_REF, "main");
}

#[test]
fn extract_failures_filters_failed_pipelines() {
    let pipelines = vec![
        make_pipeline(1, "success"),
        make_pipeline(2, "failed"),
        make_pipeline(3, "running"),
        make_pipeline(4, "failed"),
    ];
    let failures = extract_failures(&pipelines, &ContextConfig::default());
    assert_eq!(failures.len(), 2);
    assert_eq!(failures[0].pipeline_id, 2);
    assert_eq!(failures[1].pipeline_id, 4);
}

#[test]
fn extract_failures_caps_at_5() {
    let pipelines: Vec<Pipeline> = (1..=10).map(|i| make_pipeline(i, "failed")).collect();
    let failures = extract_failures(&pipelines, &ContextConfig::default());
    assert_eq!(failures.len(), 5);
}

#[test]
fn extract_failures_sets_other_type_and_default_cause() {
    let pipelines = vec![make_pipeline(1, "failed")];
    let failures = extract_failures(&pipelines, &ContextConfig::default());
    assert_eq!(failures[0].failure_type, FailureType::Other);
    assert_eq!(failures[0].root_cause, "pipeline failed");
    assert_eq!(failures[0].job_name, "unknown");
}

#[test]
fn extract_failures_empty_when_no_failures() {
    let pipelines = vec![make_pipeline(1, "success")];
    let failures = extract_failures(&pipelines, &ContextConfig::default());
    assert!(failures.is_empty());
}
