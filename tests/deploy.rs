use crates_io_ops_bot::deploy::{Action, Coordinator, DeploymentOutcome, Event};
use crates_io_ops_bot::lifecycle::{BuildRecord, BuildStatus};
use std::collections::VecDeque;

fn record(status: &str, slug: Option<&str>) -> BuildRecord {
    BuildRecord::from_platform(
        "build-1".to_string(),
        "my_app".to_string(),
        status,
        slug.map(|s| s.to_string()),
    )
}

/// A scripted platform: what each outside call answers, and a log of calls.
struct Script {
    commit: Result<String, String>,
    submitted: Option<&'static str>,
    refreshes: VecDeque<Result<(&'static str, Option<&'static str>), String>>,
    last_refresh: (&'static str, Option<&'static str>),
    final_record: Result<(&'static str, Option<&'static str>), String>,
    release: Result<(), String>,
    calls: Vec<String>,
    notices: Vec<String>,
}

impl Script {
    fn new(commit: Result<&str, &str>) -> Script {
        Script {
            commit: commit.map(|s| s.to_string()).map_err(|e| e.to_string()),
            submitted: Some("pending"),
            refreshes: VecDeque::new(),
            last_refresh: ("pending", None),
            final_record: Ok(("pending", None)),
            release: Ok(()),
            calls: Vec::new(),
            notices: Vec::new(),
        }
    }

    fn count(&self, call: &str) -> usize {
        self.calls.iter().filter(|c| c.as_str() == call).count()
    }
}

fn deploy(script: &mut Script, check_interval: u64, display_interval: u64) -> (DeploymentOutcome, String) {
    let mut coordinator = Coordinator::new(
        "my_app".to_string(),
        "main".to_string(),
        "rust-lang".to_string(),
        "crates.io".to_string(),
        check_interval,
        display_interval,
    );
    let mut action = coordinator.pending_action();
    for _ in 0..100_000 {
        let event = match action {
            Action::LookupCommit { url } => {
                script.calls.push(format!("lookup {}", url));
                Event::CommitResolved(script.commit.clone())
            }
            Action::SubmitBuild { app_id, source_url, version } => {
                script.calls.push(format!("submit {} {} {}", app_id, source_url, version));
                Event::BuildSubmitted(match script.submitted {
                    Some(status) => Ok(record(status, None)),
                    None => Err("submission refused".to_string()),
                })
            }
            Action::Notify { message } => {
                script.notices.push(message);
                Event::Notified
            }
            Action::Sleep { millis } => {
                assert_eq!(millis, 500);
                Event::Slept
            }
            Action::FetchBuild { app_id, build_id } => {
                assert_eq!(app_id, "my_app");
                assert_eq!(build_id, "build-1");
                script.calls.push("refresh".to_string());
                let next = script.refreshes.pop_front().unwrap_or(Ok(script.last_refresh));
                Event::BuildFetched(next.map(|(s, slug)| record(s, slug)))
            }
            Action::FetchFinalBuild { .. } => {
                script.calls.push("final".to_string());
                Event::FinalBuildFetched(script.final_record.clone().map(|(s, slug)| record(s, slug)))
            }
            Action::CreateRelease { app_id, slug_id, description } => {
                script.calls.push(format!("release {} {} {}", app_id, slug_id, description));
                Event::ReleaseCreated(script.release.clone())
            }
            Action::Finish { outcome, message } => return (outcome, message),
        };
        action = coordinator.handle(event);
    }
    panic!("the deployment did not finish");
}

#[test]
fn scenario_deployed() {
    let mut script = Script::new(Ok("abc123"));
    script.refreshes.push_back(Ok(("succeeded", Some("slug1"))));
    script.last_refresh = ("succeeded", Some("slug1"));
    script.final_record = Ok(("succeeded", Some("slug1")));
    let (outcome, message) = deploy(&mut script, 1, 1);
    match outcome {
        DeploymentOutcome::Deployed { sha } => assert_eq!(sha, "abc123"),
        other => panic!("unexpected outcome {:?}", other),
    }
    assert_eq!(message, "App my_app commit abc123 has successfully been released!");
    assert_eq!(
        script.calls,
        vec![
            "lookup https://api.github.com/repos/rust-lang/crates.io/commits/main".to_string(),
            "submit my_app https://codeload.github.com/rust-lang/crates.io/tar.gz/abc123 abc123"
                .to_string(),
            "refresh".to_string(),
            "final".to_string(),
            "release my_app slug1 abc123".to_string(),
        ]
    );
    assert_eq!(
        script.notices,
        vec!["Build in progress for my_app (this will take a few minutes)\nBuild ID is build-1".to_string()]
    );
}

#[test]
fn scenario_resolution_fails() {
    let mut script = Script::new(Err("No commit found for SHA: nope"));
    let (outcome, message) = deploy(&mut script, 1, 1);
    match outcome {
        DeploymentOutcome::ResolutionError { reason } => {
            assert_eq!(reason, "No commit found for SHA: nope")
        }
        other => panic!("unexpected outcome {:?}", other),
    }
    assert_eq!(message, "Unable to resolve main for my_app: No commit found for SHA: nope");
    assert_eq!(script.count("refresh"), 0);
    assert_eq!(script.calls.len(), 1);
    assert!(script.notices.is_empty());
}

#[test]
fn scenario_poll_errors_are_tolerated() {
    let mut script = Script::new(Ok("abc123"));
    for _ in 0..3 {
        script.refreshes.push_back(Err("connection reset".to_string()));
    }
    script.refreshes.push_back(Ok(("succeeded", Some("slug1"))));
    script.last_refresh = ("succeeded", Some("slug1"));
    script.final_record = Ok(("succeeded", Some("slug1")));
    let (outcome, _) = deploy(&mut script, 1, 1);
    assert!(outcome.is_deployed());
    assert_eq!(script.count("refresh"), 4);
    assert_eq!(script.count("release my_app slug1 abc123"), 1);
    // the build stayed pending through the failed polls, so progress was reported
    assert_eq!(
        script.notices.iter().filter(|n| n.as_str() == "Build build-1 is still pending...").count(),
        3
    );
}

#[test]
fn scenario_build_failed() {
    let mut script = Script::new(Ok("abc123"));
    script.refreshes.push_back(Ok(("pending", None)));
    script.last_refresh = ("failed", None);
    script.final_record = Ok(("failed", None));
    let (outcome, message) = deploy(&mut script, 1, 1);
    match outcome {
        DeploymentOutcome::BuildFailed { build_id, status } => {
            assert_eq!(build_id, "build-1");
            assert_eq!(status, BuildStatus::Failed);
        }
        other => panic!("unexpected outcome {:?}", other),
    }
    assert_eq!(
        message,
        "There was a problem with build build-1 for my_app, cancelling release. Please check the build output."
    );
    assert!(script.calls.iter().all(|c| !c.starts_with("release")));
}

#[test]
fn unknown_final_status_is_not_promoted() {
    let mut script = Script::new(Ok("abc123"));
    script.last_refresh = ("expired", None);
    script.final_record = Ok(("expired", None));
    let (outcome, _) = deploy(&mut script, 1, 1);
    match outcome {
        DeploymentOutcome::BuildFailed { status, .. } => assert_eq!(status, BuildStatus::Unknown),
        other => panic!("unexpected outcome {:?}", other),
    }
    assert!(script.calls.iter().all(|c| !c.starts_with("release")));
}

#[test]
fn submission_failure_schedules_nothing() {
    let mut script = Script::new(Ok("abc123"));
    script.submitted = None;
    let (outcome, message) = deploy(&mut script, 1, 1);
    match outcome {
        DeploymentOutcome::SubmissionError { reason } => assert_eq!(reason, "submission refused"),
        other => panic!("unexpected outcome {:?}", other),
    }
    assert_eq!(message, "Unable to start a build for my_app: submission refused");
    assert_eq!(script.count("refresh"), 0);
    assert!(script.notices.is_empty());
}

#[test]
fn final_fetch_failure_aborts() {
    let mut script = Script::new(Ok("abc123"));
    script.last_refresh = ("succeeded", Some("slug1"));
    script.final_record = Err("gateway timeout".to_string());
    let (outcome, message) = deploy(&mut script, 1, 1);
    match outcome {
        DeploymentOutcome::FinalStatusError { build_id, reason } => {
            assert_eq!(build_id, "build-1");
            assert_eq!(reason, "gateway timeout");
        }
        other => panic!("unexpected outcome {:?}", other),
    }
    assert_eq!(
        message,
        "Unable to get the final information for build build-1 for my_app, cancelling release: gateway timeout"
    );
    assert!(script.calls.iter().all(|c| !c.starts_with("release")));
}

#[test]
fn promotion_failure_is_reported() {
    let mut script = Script::new(Ok("abc123"));
    script.last_refresh = ("succeeded", Some("slug1"));
    script.final_record = Ok(("succeeded", Some("slug1")));
    script.release = Err("forbidden".to_string());
    let (outcome, message) = deploy(&mut script, 1, 1);
    match outcome {
        DeploymentOutcome::PromotionError { build_id, reason } => {
            assert_eq!(build_id, "build-1");
            assert_eq!(reason, "forbidden");
        }
        other => panic!("unexpected outcome {:?}", other),
    }
    assert_eq!(message, "Unable to release build build-1 for my_app: forbidden");
}

#[test]
fn missing_slug_is_not_promoted() {
    let mut script = Script::new(Ok("abc123"));
    script.last_refresh = ("succeeded", None);
    script.final_record = Ok(("succeeded", None));
    let (outcome, _) = deploy(&mut script, 1, 1);
    assert!(matches!(outcome, DeploymentOutcome::PromotionError { .. }));
    assert!(script.calls.iter().all(|c| !c.starts_with("release")));
}

#[test]
fn status_job_runs_at_its_interval() {
    let mut script = Script::new(Ok("abc123"));
    for _ in 0..4 {
        script.refreshes.push_back(Ok(("pending", None)));
    }
    script.last_refresh = ("succeeded", Some("slug1"));
    script.final_record = Ok(("succeeded", Some("slug1")));
    let (outcome, _) = deploy(&mut script, 3, 2);
    assert!(outcome.is_deployed());
    // the status job fires at seconds 3, 6, 9, 12 and 15; it sees success at 15
    assert_eq!(script.count("refresh"), 5);
    // the progress job fires at seconds 2, 4, ..., 14 while the build is pending
    assert_eq!(
        script.notices.iter().filter(|n| n.as_str() == "Build build-1 is still pending...").count(),
        7
    );
}

#[test]
fn events_out_of_turn_are_ignored() {
    let mut coordinator = Coordinator::new(
        "my_app".to_string(),
        "main".to_string(),
        "rust-lang".to_string(),
        "crates.io".to_string(),
        1,
        1,
    );
    let action = coordinator.handle(Event::Slept);
    assert!(matches!(action, Action::LookupCommit { .. }));
    assert!(coordinator.outcome().is_none());
    let action = coordinator.handle(Event::CommitResolved(Ok("abc123".to_string())));
    assert!(matches!(action, Action::SubmitBuild { .. }));
    let action = coordinator.handle(Event::ReleaseCreated(Ok(())));
    assert!(matches!(action, Action::SubmitBuild { .. }));
}

#[test]
fn shared_state_follows_the_status_job() {
    let mut coordinator = Coordinator::new(
        "my_app".to_string(),
        "main".to_string(),
        "rust-lang".to_string(),
        "crates.io".to_string(),
        1,
        5,
    );
    coordinator.handle(Event::CommitResolved(Ok("abc123".to_string())));
    let action = coordinator.handle(Event::BuildSubmitted(Ok(record("pending", None))));
    assert!(matches!(action, Action::Notify { .. }));
    assert_eq!(coordinator.shared_state().build_id, "build-1");
    assert!(matches!(coordinator.handle(Event::Notified), Action::Sleep { millis: 500 }));
    assert!(matches!(coordinator.handle(Event::Slept), Action::Sleep { .. }));
    match coordinator.handle(Event::Slept) {
        Action::FetchBuild { app_id, build_id } => {
            assert_eq!(app_id, "my_app");
            assert_eq!(build_id, "build-1");
        }
        other => panic!("unexpected action {:?}", other),
    }
    let action = coordinator.handle(Event::BuildFetched(Err("reset".to_string())));
    assert!(matches!(action, Action::Sleep { .. }));
    assert_eq!(coordinator.shared_state().status, BuildStatus::Pending);
    assert_eq!(coordinator.shared_state().last_poll_error.as_deref(), Some("reset"));
    assert!(matches!(coordinator.handle(Event::Slept), Action::Sleep { .. }));
    assert!(matches!(coordinator.handle(Event::Slept), Action::FetchBuild { .. }));
    let action = coordinator.handle(Event::BuildFetched(Ok(record("failed", None))));
    assert!(matches!(action, Action::FetchFinalBuild { .. }));
    assert_eq!(coordinator.shared_state().status, BuildStatus::Failed);
}
