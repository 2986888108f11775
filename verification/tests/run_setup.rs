use git_clean::run::{
    exit_code, plan_run, resolve_default_branch, DefaultBranchQuery, FatalError, RunPlan,
};

#[test]
fn advertised_default_branch_is_decoded() {
    let query = DefaultBranchQuery::Advertised { bytes: b"refs/heads/main".to_vec() };
    let resolved = resolve_default_branch(query);
    assert_eq!(resolved.unwrap(), "refs/heads/main");
}

#[test]
fn invalid_default_branch_bytes_are_a_fatal_decode_error() {
    let query = DefaultBranchQuery::Advertised { bytes: vec![0xff, 0xfe, b'a'] };
    let resolved = resolve_default_branch(query);
    assert_eq!(resolved.unwrap_err(), FatalError::DefaultBranchDecodeError);
}

#[test]
fn missing_origin_remote_is_fatal() {
    let resolved = resolve_default_branch(DefaultBranchQuery::RemoteMissing);
    assert_eq!(resolved.unwrap_err(), FatalError::RemoteNotFound);
}

#[test]
fn failed_query_is_fatal() {
    let resolved = resolve_default_branch(DefaultBranchQuery::QueryFailed);
    assert_eq!(resolved.unwrap_err(), FatalError::DefaultBranchUnavailable);
}

// Scenario: the `origin` remote is unreachable — the run aborts with a
// fatal error before any branch is examined, and exits nonzero.
#[test]
fn unreachable_remote_aborts_the_run_before_any_branch() {
    let resolved = resolve_default_branch(DefaultBranchQuery::ConnectFailed);
    assert_eq!(resolved, Err(FatalError::ConnectFailed));
    let plan = plan_run(resolved);
    match &plan {
        RunPlan::Abort { error } => assert_eq!(*error, FatalError::ConnectFailed),
        RunPlan::Process { .. } => panic!("a failed handshake must abort the run"),
    }
    assert_ne!(exit_code(&plan), 0);
}

#[test]
fn successful_resolution_processes_with_short_default_name() {
    let plan = plan_run(Ok("refs/heads/main".to_string()));
    match &plan {
        RunPlan::Process { default_short } => assert_eq!(default_short, "main"),
        RunPlan::Abort { .. } => panic!("a resolved default branch must not abort the run"),
    }
    assert_eq!(exit_code(&plan), 0);
}
