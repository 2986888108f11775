use git_clean::engine::{
    Action, BranchDecisionEngine, BranchFacts, EngineState, SkipReason, UpstreamLookup,
};

fn facts(short: &str, ref_path: &str, is_head: bool) -> BranchFacts {
    BranchFacts {
        short_name: Some(short.to_string()),
        ref_name: Some(ref_path.to_string()),
        is_head,
    }
}

fn default_main() -> Option<String> {
    Some("main".to_string())
}

#[test]
fn head_branch_is_skipped_without_prompt() {
    let (engine, action) = BranchDecisionEngine::begin(
        Ok(facts("main", "refs/heads/main", true)),
        &default_main(),
    );
    assert!(matches!(action, Action::Skip { reason: SkipReason::Head }));
    assert!(matches!(engine.state, EngineState::Done));
}

#[test]
fn default_branch_is_skipped_without_prompt() {
    let (engine, action) = BranchDecisionEngine::begin(
        Ok(facts("main", "refs/heads/main", false)),
        &default_main(),
    );
    assert!(matches!(
        action,
        Action::Skip { reason: SkipReason::DefaultBranch }
    ));
    assert!(matches!(engine.state, EngineState::Done));
}

#[test]
fn unnamed_branch_is_skipped() {
    let (engine, action) = BranchDecisionEngine::begin(
        Ok(BranchFacts {
            short_name: None,
            ref_name: Some("refs/heads/odd".to_string()),
            is_head: false,
        }),
        &default_main(),
    );
    assert!(matches!(
        action,
        Action::Skip { reason: SkipReason::Unnamed }
    ));
    assert!(matches!(engine.state, EngineState::Done));
}

#[test]
fn branch_read_error_is_reported_and_branch_left_alone() {
    let (engine, action) =
        BranchDecisionEngine::begin(Err("bad ref".to_string()), &default_main());
    match action {
        Action::ReportError { message } => assert_eq!(message, "bad ref"),
        other => panic!("unexpected action: {:?}", action_name(&other)),
    }
    assert!(matches!(engine.state, EngineState::Done));
}

#[test]
fn declined_local_prompt_mutates_nothing() {
    let (mut engine, action) = BranchDecisionEngine::begin(
        Ok(facts("feature", "refs/heads/feature", false)),
        &default_main(),
    );
    match action {
        Action::AskLocalDelete { name } => assert_eq!(name, "feature"),
        other => panic!("unexpected action: {:?}", action_name(&other)),
    }
    let next = engine.on_local_answer(false);
    assert!(matches!(next, Action::Finish));
    assert!(matches!(engine.state, EngineState::Done));
}

#[test]
fn branch_without_upstream_is_deleted_locally_without_error() {
    let (mut engine, _ask) = BranchDecisionEngine::begin(
        Ok(facts("done", "refs/heads/done", false)),
        &default_main(),
    );
    let lookup_action = engine.on_local_answer(true);
    match lookup_action {
        Action::LookupUpstream { ref_name } => assert_eq!(ref_name, "refs/heads/done"),
        other => panic!("unexpected action: {:?}", action_name(&other)),
    }
    let after = engine.on_upstream_lookup(UpstreamLookup::NotFound);
    assert!(matches!(after, Action::DeleteLocal));
    assert!(matches!(engine.state, EngineState::Done));
}

#[test]
fn upstream_lookup_failure_is_reported_and_aborts_the_branch() {
    let (mut engine, _ask) = BranchDecisionEngine::begin(
        Ok(facts("odd", "refs/heads/odd", false)),
        &default_main(),
    );
    let _lookup = engine.on_local_answer(true);
    let after = engine.on_upstream_lookup(UpstreamLookup::Failed {
        message: "lookup broke".to_string(),
    });
    match after {
        Action::ReportError { message } => assert_eq!(message, "lookup broke"),
        other => panic!("unexpected action: {:?}", action_name(&other)),
    }
    assert!(matches!(engine.state, EngineState::Done));
}

#[test]
fn declined_upstream_prompt_still_deletes_local_branch() {
    let (mut engine, _ask) = BranchDecisionEngine::begin(
        Ok(facts("stale", "refs/heads/stale", false)),
        &default_main(),
    );
    let _lookup = engine.on_local_answer(true);
    let ask_upstream = engine.on_upstream_lookup(UpstreamLookup::Found {
        remote: "origin".to_string(),
    });
    match ask_upstream {
        Action::AskUpstreamDelete { ref_name } => assert_eq!(ref_name, "refs/heads/stale"),
        other => panic!("unexpected action: {:?}", action_name(&other)),
    }
    let after = engine.on_upstream_answer(false);
    assert!(matches!(after, Action::DeleteLocal));
    assert!(matches!(engine.state, EngineState::Done));
}

#[test]
fn accepted_upstream_prompt_pushes_exact_deletion_refspec() {
    let (mut engine, _ask) = BranchDecisionEngine::begin(
        Ok(facts("stale", "refs/heads/stale", false)),
        &default_main(),
    );
    let _lookup = engine.on_local_answer(true);
    let _ask_upstream = engine.on_upstream_lookup(UpstreamLookup::Found {
        remote: "origin".to_string(),
    });
    let push = engine.on_upstream_answer(true);
    match push {
        Action::PushDelete { remote, refspec } => {
            assert_eq!(remote, "origin");
            assert_eq!(refspec, ":refs/heads/stale");
        }
        other => panic!("unexpected action: {:?}", action_name(&other)),
    }
    let after = engine.on_push_result(Ok(()));
    assert!(matches!(after, Action::DeleteLocal));
    assert!(matches!(engine.state, EngineState::Done));
}

#[test]
fn failed_push_is_reported_and_local_deletion_still_happens() {
    let (mut engine, _ask) = BranchDecisionEngine::begin(
        Ok(facts("stale", "refs/heads/stale", false)),
        &default_main(),
    );
    let _lookup = engine.on_local_answer(true);
    let _ask_upstream = engine.on_upstream_lookup(UpstreamLookup::Found {
        remote: "origin".to_string(),
    });
    let _push = engine.on_upstream_answer(true);
    let after = engine.on_push_result(Err("authentication failed".to_string()));
    match after {
        Action::ReportThenDeleteLocal { message } => assert_eq!(message, "authentication failed"),
        other => panic!("unexpected action: {:?}", action_name(&other)),
    }
    assert!(matches!(engine.state, EngineState::Done));
}

#[test]
fn unnamed_upstream_remote_is_treated_as_absent() {
    let (mut engine, _ask) = BranchDecisionEngine::begin(
        Ok(facts("quiet", "refs/heads/quiet", false)),
        &default_main(),
    );
    let _lookup = engine.on_local_answer(true);
    let after = engine.on_upstream_lookup(UpstreamLookup::FoundUnnamed);
    assert!(matches!(after, Action::DeleteLocal));
    assert!(matches!(engine.state, EngineState::Done));
}

#[test]
fn branch_with_no_textual_ref_is_deleted_locally_without_lookup() {
    let (mut engine, _ask) = BranchDecisionEngine::begin(
        Ok(BranchFacts {
            short_name: Some("loose".to_string()),
            ref_name: None,
            is_head: false,
        }),
        &default_main(),
    );
    let after = engine.on_local_answer(true);
    assert!(matches!(after, Action::DeleteLocal));
    assert!(matches!(engine.state, EngineState::Done));
}

// Scenario: `main` is the default branch and checked out, `done-feature`
// has no upstream and its prompt is declined, `stale-feature` tracks
// `origin/stale-feature` and both of its prompts are accepted. Only
// `stale-feature` is deleted, locally and on the remote.
#[test]
fn cleanup_scenario_only_confirmed_branch_is_deleted() {
    let default_short = default_main();

    let (main_engine, main_action) = BranchDecisionEngine::begin(
        Ok(facts("main", "refs/heads/main", true)),
        &default_short,
    );
    assert!(matches!(main_action, Action::Skip { .. }));
    assert!(matches!(main_engine.state, EngineState::Done));

    let (mut done_engine, done_ask) = BranchDecisionEngine::begin(
        Ok(facts("done-feature", "refs/heads/done-feature", false)),
        &default_short,
    );
    assert!(matches!(done_ask, Action::AskLocalDelete { .. }));
    let done_after = done_engine.on_local_answer(false);
    assert!(matches!(done_after, Action::Finish));
    assert!(matches!(done_engine.state, EngineState::Done));

    let (mut stale_engine, stale_ask) = BranchDecisionEngine::begin(
        Ok(facts("stale-feature", "refs/heads/stale-feature", false)),
        &default_short,
    );
    assert!(matches!(stale_ask, Action::AskLocalDelete { .. }));
    let lookup = stale_engine.on_local_answer(true);
    assert!(matches!(lookup, Action::LookupUpstream { .. }));
    let ask_upstream = stale_engine.on_upstream_lookup(UpstreamLookup::Found {
        remote: "origin".to_string(),
    });
    assert!(matches!(ask_upstream, Action::AskUpstreamDelete { .. }));
    let push = stale_engine.on_upstream_answer(true);
    match push {
        Action::PushDelete { remote, refspec } => {
            assert_eq!(remote, "origin");
            assert_eq!(refspec, ":refs/heads/stale-feature");
        }
        other => panic!("unexpected action: {:?}", action_name(&other)),
    }
    let delete_local = stale_engine.on_push_result(Ok(()));
    assert!(matches!(delete_local, Action::DeleteLocal));
    assert!(matches!(stale_engine.state, EngineState::Done));
}

fn action_name(a: &Action) -> &'static str {
    match a {
        Action::Skip { .. } => "Skip",
        Action::ReportError { .. } => "ReportError",
        Action::Finish => "Finish",
        Action::AskLocalDelete { .. } => "AskLocalDelete",
        Action::LookupUpstream { .. } => "LookupUpstream",
        Action::AskUpstreamDelete { .. } => "AskUpstreamDelete",
        Action::PushDelete { .. } => "PushDelete",
        Action::DeleteLocal => "DeleteLocal",
        Action::ReportThenDeleteLocal { .. } => "ReportThenDeleteLocal",
    }
}
