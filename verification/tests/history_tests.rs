use jailgun::history::{
    deploy_queue_json, history_file_name, sort_history, summarize_run, RunHistoryEntry,
};
use jailgun::server::{DeployQueueState, RunSnapshot, TabSnapshot};

fn tab(
    tab_id: u16,
    status: &str,
    deploy_status: &str,
    decision: Option<&str>,
    early_stop: Option<&str>,
) -> TabSnapshot {
    TabSnapshot {
        tab_id,
        status: status.into(),
        page_url: format!("https://chatgpt.com/c/{tab_id}"),
        archive_sha256: Some("abc".into()),
        download_latency_ms: Some(900),
        deploy_status: deploy_status.into(),
        prompt_policy_decision: decision.map(String::from),
        early_stop_outcome: early_stop.map(String::from),
        browser_profile: None,
        browser_profile_dir: None,
        browser_slot: None,
        cdp_url: None,
    }
}

fn sample_snapshot() -> RunSnapshot {
    RunSnapshot {
        run_id: "run-history-test".into(),
        started_at: "2026-01-01T00:00:00Z".into(),
        finished_at: Some("2026-01-01T01:00:00Z".into()),
        status: "finished".into(),
        batch_tabs: 7,
        loop_count: 2,
        planned_tabs: 21,
        deploy_queue: DeployQueueState::Done,
        denied_github_prompts: 3,
        allowed_info_prompts: 1,
        early_stops_succeeded: 2,
        early_stops_attempted: 4,
        tabs: vec![
            tab(1, "deployed", "succeeded", None, None),
            tab(2, "error", "failed-preserved", Some("deny"), Some("attempted")),
        ],
    }
}

#[test]
fn summarize_run_counts_pass_and_fail() {
    let snapshot = sample_snapshot();
    let entry = summarize_run(&snapshot);
    assert_eq!(entry.run_id, "run-history-test");
    assert_eq!(entry.tabs_passed, 1);
    assert_eq!(entry.tabs_failed, 1);
    assert_eq!(entry.tabs_pushed, 1);
    assert_eq!(entry.total_tabs, 2);
    assert_eq!(entry.batch_tabs, 7);
    assert_eq!(entry.loop_count, 2);
    assert_eq!(entry.planned_tabs, 21);
    assert_eq!(entry.denied_github_prompts, 3);
}

#[test]
fn summary_copies_run_fields_and_queue_state() {
    let entry = summarize_run(&sample_snapshot());
    assert_eq!(entry.started_at, "2026-01-01T00:00:00Z");
    assert_eq!(entry.finished_at.as_deref(), Some("2026-01-01T01:00:00Z"));
    assert_eq!(entry.status, "finished");
    assert_eq!(entry.deploy_queue_final, "\"done\"");
    assert_eq!(entry.allowed_info_prompts, 1);
    assert_eq!(entry.early_stops_succeeded, 2);
    assert_eq!(entry.early_stops_attempted, 4);
    assert!(entry.code_stats.is_none());
}

#[test]
fn every_pass_status_counts_and_pending_tabs_count_nowhere() {
    let mut snapshot = sample_snapshot();
    snapshot.tabs = vec![
        tab(1, "deployed", "done", None, None),
        tab(2, "deployed", "dry-run-staged", None, None),
        tab(3, "deployed", "succeeded-ci-skipped", None, None),
        tab(4, "active", "pending", None, None),
        tab(5, "error", "timed-out", None, None),
        tab(6, "deployed", "blocked", None, None),
    ];
    let entry = summarize_run(&snapshot);
    assert_eq!(entry.total_tabs, 6);
    assert_eq!(entry.tabs_passed, 3);
    assert_eq!(entry.tabs_pushed, 3);
    assert_eq!(entry.tabs_failed, 1);
}

#[test]
fn queue_states_render_as_json_strings() {
    assert_eq!(deploy_queue_json(DeployQueueState::Idle), "\"idle\"");
    assert_eq!(deploy_queue_json(DeployQueueState::Waiting), "\"waiting\"");
    assert_eq!(deploy_queue_json(DeployQueueState::Running), "\"running\"");
    assert_eq!(deploy_queue_json(DeployQueueState::Done), "\"done\"");
}

#[test]
fn history_files_are_named_by_run() {
    assert_eq!(history_file_name("run-a"), "run-summary-run-a.json");
}

fn entry(run_id: &str, started_at: &str) -> RunHistoryEntry {
    let mut snapshot = sample_snapshot();
    snapshot.run_id = run_id.into();
    snapshot.started_at = started_at.into();
    summarize_run(&snapshot)
}

#[test]
fn multiple_entries_sorted_by_started_at() {
    let sorted = sort_history(vec![
        entry("run-b", "2026-01-02T00:00:00Z"),
        entry("run-a", "2026-01-01T00:00:00Z"),
    ]);
    assert_eq!(sorted.len(), 2);
    assert_eq!(sorted[0].run_id, "run-a");
    assert_eq!(sorted[1].run_id, "run-b");
}

#[test]
fn sorting_keeps_every_entry() {
    let sorted = sort_history(vec![
        entry("c", "2026-03-01"),
        entry("a", "2026-01-01"),
        entry("b", "2026-02-01"),
        entry("a2", "2026-01-01"),
    ]);
    let ids: Vec<&str> = sorted.iter().map(|e| e.run_id.as_str()).collect();
    assert_eq!(ids.len(), 4);
    assert_eq!(ids[3], "c");
    assert_eq!(ids[2], "b");
    assert!(ids[..2].contains(&"a") && ids[..2].contains(&"a2"));
}

#[test]
fn entries_started_together_keep_their_order() {
    let sorted = sort_history(vec![
        entry("run-late", "2026-01-03T00:00:00Z"),
        entry("run-x", "2026-01-02T00:00:00Z"),
        entry("run-early", "2026-01-01T00:00:00Z"),
        entry("run-y", "2026-01-02T00:00:00Z"),
    ]);
    let ids: Vec<&str> = sorted.iter().map(|e| e.run_id.as_str()).collect();
    assert_eq!(ids, vec!["run-early", "run-x", "run-y", "run-late"]);
}
