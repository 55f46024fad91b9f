use jailgun::event::{EventKind, JailgunEvent};
use jailgun::server::{
    accepted_response, agent_events_path, agent_run_gate, agent_summary_path,
    apply_event_to_run, check_request_version, finish_run, ingest_status, prepared_snapshot,
    record_event, run_from_event, summary_answer, DeployQueueState, RunSnapshot, SummaryAnswer,
    SummaryFile,
};

fn event(run_id: &str, kind: EventKind) -> JailgunEvent {
    JailgunEvent::new(run_id, kind, "m")
}

#[test]
fn ingest_requires_matching_token() {
    let expected = Some("secret".to_string());
    assert_eq!(ingest_status(&expected, &None, true), (false, 401));
    assert_eq!(ingest_status(&expected, &Some("wrong".into()), true), (false, 401));
    assert_eq!(ingest_status(&expected, &Some("secret".into()), true), (true, 202));
}

#[test]
fn ingest_without_token_returns_503() {
    assert_eq!(ingest_status(&None, &Some("secret".into()), true), (false, 503));
    assert_eq!(ingest_status(&Some("s".into()), &Some("s".into()), false), (true, 503));
}

#[test]
fn agent_runs_need_live_mode_and_the_token() {
    let (code, err) = agent_run_gate(false, &Some("s".into()), &Some("s".into())).unwrap();
    assert_eq!(code, 503);
    assert_eq!(err.code, "agent-run-unavailable");
    assert_eq!(err.purpose, "start a Jailgun agent run");
    let (code, err) = agent_run_gate(true, &None, &None).unwrap();
    assert_eq!(code, 503);
    assert_eq!(err.reason, "x-jailgun-token is required when run ingestion is enabled");
    let (code, err) = agent_run_gate(true, &Some("s".into()), &Some("t".into())).unwrap();
    assert_eq!(code, 401);
    assert_eq!(err.code, "agent-run-unauthorized");
    assert!(agent_run_gate(true, &Some("s".into()), &Some("s".into())).is_none());
}

#[test]
fn start_run_requires_v1_request_version() {
    let err = check_request_version(None).unwrap_err();
    assert!(err.contains("version"));
    assert_eq!(err, "Jailgun agent request requires version: 1");
    assert_eq!(
        check_request_version(Some(2)).unwrap_err(),
        "unsupported Jailgun agent interface version 2; expected 1"
    );
    assert_eq!(check_request_version(Some(1)), Ok(()));
}

#[test]
fn accepted_runs_point_at_their_summary() {
    let r = accepted_response("run-1", "/x/agent-summary.json", "/x/events.jsonl");
    assert_eq!(r.status, "accepted");
    assert_eq!(r.run_url, "/api/runs/run-1");
    assert_eq!(r.summary_url, "/api/runs/run-1/agent-summary");
    assert_eq!(agent_events_path("/x"), "/x/agent-events.jsonl");
    assert_eq!(agent_summary_path("/x", "run-1"), "/x/agent-summary.json");
}

#[test]
fn summary_answers_follow_the_cache_and_the_file() {
    assert_eq!(summary_answer(true, SummaryFile::Missing, false), SummaryAnswer::Summary);
    assert_eq!(summary_answer(false, SummaryFile::Missing, true), SummaryAnswer::Running);
    assert_eq!(summary_answer(false, SummaryFile::Missing, false), SummaryAnswer::NotFound);
    assert_eq!(summary_answer(false, SummaryFile::Invalid, true).status(), 500);
    assert_eq!(SummaryAnswer::Running.status(), 202);
    assert_eq!(SummaryAnswer::NotFound.status(), 404);
}

#[test]
fn events_build_run_and_tab_snapshots() {
    let mut runs: Vec<RunSnapshot> = Vec::new();
    let mut history: Vec<JailgunEvent> = Vec::new();
    record_event(&mut runs, &mut history, event("run-A", EventKind::RunStarted));
    record_event(
        &mut runs,
        &mut history,
        event("run-A", EventKind::TabOpened).with_tab(1).with_field("page_url", "https://x/"),
    );
    record_event(&mut runs, &mut history, event("run-A", EventKind::PromptSubmitted).with_tab(1));
    record_event(
        &mut runs,
        &mut history,
        event("run-A", EventKind::PromptPolicy).with_tab(1).with_field("decision", "deny"),
    );
    record_event(&mut runs, &mut history, event("run-A", EventKind::DeployQueued));
    assert_eq!(history.len(), 5);
    assert_eq!(runs.len(), 1);
    let run = &runs[0];
    assert_eq!(run.status, "running");
    assert_eq!(run.deploy_queue, DeployQueueState::Waiting);
    assert_eq!(run.denied_github_prompts, 1);
    assert_eq!(run.tabs.len(), 1);
    assert_eq!(run.tabs[0].tab_id, 1);
    assert_eq!(run.tabs[0].status, "submitted");
    assert_eq!(run.tabs[0].page_url, "https://x/");
    assert_eq!(run.tabs[0].prompt_policy_decision.as_deref(), Some("deny"));

    record_event(
        &mut runs,
        &mut history,
        event("run-A", EventKind::DeployFinished).with_tab(1).with_field("outcome", "dry-run-staged"),
    );
    assert_eq!(runs[0].deploy_queue, DeployQueueState::Done);
    assert_eq!(runs[0].tabs[0].deploy_status, "dry-run-staged");
    assert!(runs[0].finished_at.is_some());

    record_event(&mut runs, &mut history, event("run-B", EventKind::Error));
    assert_eq!(runs.len(), 2);
    assert_eq!(runs[0].run_id, "run-B");
    assert_eq!(runs[0].status, "failed");
}

#[test]
fn error_events_fail_the_run_and_the_tab() {
    let e = event("run-1", EventKind::Error).with_tab(2);
    let mut run = run_from_event(&e);
    assert_eq!(run.status, "running");
    apply_event_to_run(&mut run, &e);
    assert_eq!(run.status, "failed");
    assert_eq!(run.tabs[0].status, "error");
    assert_eq!(run.finished_at.as_deref(), Some(e.timestamp.as_str()));
}

#[test]
fn finishing_a_run_sets_status_time_and_counts() {
    let mut runs = vec![prepared_snapshot("run-1", "2026-01-01T00:00:00Z")];
    assert_eq!(runs[0].deploy_queue, DeployQueueState::Running);
    assert_eq!(
        finish_run(&mut runs, "run-1", "succeeded", "2026-01-01T00:10:00Z", Some((2, 3))),
        Some(0)
    );
    assert_eq!(runs[0].status, "succeeded");
    assert_eq!(runs[0].finished_at.as_deref(), Some("2026-01-01T00:10:00Z"));
    assert_eq!(runs[0].denied_github_prompts, 2);
    assert_eq!(runs[0].allowed_info_prompts, 3);
    assert_eq!(finish_run(&mut runs, "run-2", "failed", "t", None), None);
}
