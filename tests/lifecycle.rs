use crates_io_ops_bot::lifecycle::{is_terminal, BuildRecord, BuildStatus, SharedDeploymentState};

fn record(status: &str, slug: Option<&str>) -> BuildRecord {
    BuildRecord::from_platform(
        "b-1".to_string(),
        "my_app".to_string(),
        status,
        slug.map(|s| s.to_string()),
    )
}

#[test]
fn status_text_is_read() {
    assert_eq!(BuildStatus::from_platform("pending"), BuildStatus::Pending);
    assert_eq!(BuildStatus::from_platform("succeeded"), BuildStatus::Succeeded);
    assert_eq!(BuildStatus::from_platform("failed"), BuildStatus::Failed);
    assert_eq!(BuildStatus::from_platform("queued"), BuildStatus::Unknown);
    assert_eq!(BuildStatus::from_platform(""), BuildStatus::Unknown);
    assert_eq!(BuildStatus::from_platform("Pending"), BuildStatus::Unknown);
}

#[test]
fn terminal_statuses() {
    assert!(!is_terminal(BuildStatus::Pending));
    assert!(is_terminal(BuildStatus::Succeeded));
    assert!(is_terminal(BuildStatus::Failed));
    assert!(is_terminal(BuildStatus::Unknown));
}

#[test]
fn slug_is_kept_only_for_a_succeeded_build() {
    let done = record("succeeded", Some("slug1"));
    assert_eq!(done.slug_id.as_deref(), Some("slug1"));
    assert_eq!(done.id, "b-1");
    assert_eq!(done.app_id, "my_app");
    let pending = record("pending", Some("slug1"));
    assert_eq!(pending.slug_id, None);
}

#[test]
fn terminal_status_is_never_overwritten() {
    let mut shared = SharedDeploymentState::from_record(&record("pending", None));
    shared.apply_fetch(Ok(record("failed", None)));
    assert_eq!(shared.status, BuildStatus::Failed);
    shared.apply_fetch(Ok(record("pending", None)));
    assert_eq!(shared.status, BuildStatus::Failed);
    shared.apply_fetch(Ok(record("succeeded", Some("s"))));
    assert_eq!(shared.status, BuildStatus::Failed);
    assert!(is_terminal(shared.status));
}

#[test]
fn failed_fetch_only_records_the_error() {
    let mut shared = SharedDeploymentState::from_record(&record("pending", None));
    shared.apply_fetch(Err("connection reset".to_string()));
    assert_eq!(shared.status, BuildStatus::Pending);
    assert_eq!(shared.build_id, "b-1");
    assert_eq!(shared.last_poll_error.as_deref(), Some("connection reset"));
    shared.apply_fetch(Ok(record("succeeded", Some("s"))));
    assert_eq!(shared.status, BuildStatus::Succeeded);
    shared.apply_fetch(Err("timeout".to_string()));
    assert_eq!(shared.status, BuildStatus::Succeeded);
    assert_eq!(shared.last_poll_error.as_deref(), Some("timeout"));
}

#[test]
fn same_fetch_twice_gives_the_same_state() {
    let first = record("pending", None);
    let second = record("pending", None);
    assert_eq!(first.id, second.id);
    assert_eq!(first.status, second.status);
    assert_eq!(first.slug_id, second.slug_id);
    let mut once = SharedDeploymentState::from_record(&record("pending", None));
    once.apply_fetch(Ok(record("succeeded", Some("s"))));
    let mut twice = SharedDeploymentState::from_record(&record("pending", None));
    twice.apply_fetch(Ok(record("succeeded", Some("s"))));
    twice.apply_fetch(Ok(record("succeeded", Some("s"))));
    assert_eq!(once.status, twice.status);
    assert_eq!(once.build_id, twice.build_id);
    assert_eq!(once.last_poll_error, twice.last_poll_error);
}
