use std::time::Duration;

use jailgun::bridge::{
    map_bridge_event, ArchiveUploadedPayload, BridgeCommand, BridgeEvent, BridgeReadyPayload,
    DownloadCompletePayload, ErrorPayload, PromptSubmittedPayload, TabProgressKind,
    TabProgressPayload,
};
use jailgun::cleanup::CleanupPolicy;
use jailgun::config::{
    BrowserConfig, DeployConfig, JailgunConfig, PathConfig, ProjectConfig, PromptPolicy,
    SourceArchiveConfig,
};
use jailgun::deploy::{deploy_outcome_succeeded, DeployOutcome};
use jailgun::drive::{
    bridge_ready_step, hello_command, tab_commands, DriveEvent, ReadyEvent, ReadyStep, RunDriver,
};
use jailgun::event::{EventKind, FieldMap};
use jailgun::run::{
    handle_bridge_envelope, prompt_for_tab, run_deadline, submit_delay, LaunchScheduler,
    RunOptions, RunSummary, RunTracker,
};

#[test]
fn prompt_for_tab_prefixes_and_replaces_placeholders() {
    let prompt = "Build {{TAB_INDEX}} of {{TAB_COUNT}}.";
    let got = prompt_for_tab(prompt, 2, 7);
    assert!(got.starts_with("Batch tab: 2 of 7."));
    assert!(got.contains("Build 2 of 7."));
}

#[test]
fn launch_scheduler_waits_for_prompt_acceptance_before_next_tab() {
    let mut scheduler = LaunchScheduler::new(3);
    assert_eq!(scheduler.next_tab, 1);
    scheduler.next_tab = 2;
    scheduler.waiting_for_acceptance = Some(1);
    assert!(scheduler.prompt_accepted(2, Duration::from_secs(60)).is_none());
    let delay = scheduler
        .prompt_accepted(1, Duration::from_secs(60))
        .expect("tab 2 scheduled after tab 1 acceptance");
    assert_eq!(delay.tab_id, 2);
    assert_eq!(delay.duration, Duration::from_secs(60));
    assert!(scheduler.consume_scheduled_launch(2));
}

#[test]
fn run_tracker_completes_when_a_tab_fails_before_download() {
    let mut tracker = RunTracker::new(2, true);
    tracker.mark_terminal(1);
    assert!(!tracker.is_complete());
    tracker.mark_downloaded(2);
    assert!(!tracker.is_complete());
    tracker.mark_deployed(2);
    assert!(tracker.is_complete());
}

#[test]
fn failed_preserved_deploy_outcome_is_not_successful() {
    assert!(deploy_outcome_succeeded(DeployOutcome::Succeeded));
    assert!(deploy_outcome_succeeded(DeployOutcome::SucceededCiSkipped));
    assert!(!deploy_outcome_succeeded(DeployOutcome::FailedPreserved));
    assert!(!deploy_outcome_succeeded(DeployOutcome::SucceededCiFailed));
}

#[test]
fn maps_archive_uploaded() {
    let event = BridgeEvent::ArchiveUploaded(ArchiveUploadedPayload {
        sha256: "a".repeat(64),
        size_bytes: 4096,
        commit: "abc".into(),
        archive_filename: "source.tar.gz".into(),
        deleted_temp: true,
    });
    let mapped = map_bridge_event("run-1", Some(2), &event).expect("mapped");
    assert_eq!(mapped.run_id, "run-1");
    assert_eq!(mapped.tab_id, Some(2));
    assert_eq!(mapped.fields.get("archive_filename").map(String::as_str), Some("source.tar.gz"));
}

fn download_complete() -> DownloadCompletePayload {
    DownloadCompletePayload {
        sha256: "b".repeat(64),
        size_bytes: 100,
        local_path: "/tmp/x.tar.gz".into(),
        receipt_path: "/tmp/r/x.tar.gz".into(),
        original_name: "x.tar.gz".into(),
        local_name: "x.tar.gz".into(),
        download_url: None,
        started_at: "2026-05-31T12:00:00Z".into(),
        finished_at: "2026-05-31T12:00:05Z".into(),
    }
}

#[test]
fn maps_download_complete_to_download_receipt_kind() {
    let event = BridgeEvent::DownloadComplete(download_complete());
    let mapped = map_bridge_event("run-1", Some(1), &event).expect("mapped");
    assert!(matches!(mapped.kind, EventKind::DownloadReceipt));
}

#[test]
fn skips_noisy_tab_progress_events() {
    let payload = TabProgressPayload {
        kind: TabProgressKind::CompletionCheck,
        phase: "active".into(),
        busy_reason: None,
        has_active_stop: true,
        has_final_actions: false,
        last_text_length: 0,
        page_url: "https://example.invalid/".into(),
    };
    let event = BridgeEvent::TabProgress(payload);
    assert!(map_bridge_event("run-1", Some(1), &event).is_none());
}

fn config(deploy: bool) -> JailgunConfig {
    JailgunConfig {
        project: ProjectConfig { repository: "git@github.com:example/repo.git".into() },
        paths: PathConfig { artifacts_dir: "artifacts".into(), downloads_dir_env: "DL".into() },
        browser: BrowserConfig {
            tabs: 2,
            chat_url: "https://chatgpt.com/".into(),
            model: "pro".into(),
            profile_dir_env: "PROFILE".into(),
            state_dir_env: "STATE".into(),
            tar_wait_minutes: 30,
            submit_delay_seconds: 10,
            submit_jitter_seconds: 0,
            completion_check_seconds: 20,
            poll_interval_seconds: 3,
        },
        deploy: DeployConfig {
            enabled: deploy,
            dry_run: true,
            remote_host_env: "HOST".into(),
            remote_dir_env: "DIR".into(),
            remote_command_env: "CMD".into(),
            remote_strip_components: 0,
            remote_cleanup_policy: CleanupPolicy::Block,
            remote_status_poll_seconds: 5,
        },
        source_archive: SourceArchiveConfig {
            enabled: true,
            repo_url_env: "REPO".into(),
            ref_name: "HEAD".into(),
            prefix: "source/".into(),
            archive_filename: "source.tar.gz".into(),
            delete_after_upload: true,
        },
        prompt_policy: PromptPolicy {
            deny_github_write_by_default: true,
            allow_info_prompts: true,
            allowed_repositories: Vec::new(),
        },
    }
}

fn options(tabs: u16, deploy: bool) -> RunOptions {
    RunOptions {
        run_id: "run-1".into(),
        config: config(deploy),
        prompt_text: "Do {{TAB_NUMBER}}".into(),
        tabs_override: Some(tabs),
        initial_tab_burst: None,
        loop_count: 0,
        no_deploy: !deploy,
        dry_run: true,
        profile_dir: "/profile".into(),
        profile_pool: Vec::new(),
        downloads_dir: "/downloads".into(),
        artifacts_dir: "/artifacts".into(),
        bridge_cmd: vec!["bridge".into()],
        bridge_env: FieldMap::new(),
        repo_url: "git@github.com:example/repo.git".into(),
        fresh_source_clone: false,
        deploy_remote_host: None,
        deploy_remote_dir: None,
        deploy_remote_command: None,
        deploy_expected_top_level: None,
        ci_tracker_enabled: false,
        ci_repo: None,
        ci_branch: "main".into(),
        ci_max_attempts: 20,
        ci_poll_seconds: 30,
        status_max_minutes: 10,
        event_buffer: 1024,
        deploy_concurrency: 1,
    }
}

#[test]
fn planned_tabs_multiply_batches() {
    let mut opts = options(3, false);
    assert_eq!(opts.tabs(), 3);
    assert_eq!(opts.planned_tabs(), Some(3));
    opts.loop_count = 2;
    assert_eq!(opts.planned_tabs(), Some(9));
    opts.tabs_override = Some(0);
    assert_eq!(opts.planned_tabs(), None);
}

#[test]
fn tab_commands_open_upload_submit_and_monitor() {
    let opts = options(2, false);
    let commands = tab_commands(&opts, 1);
    assert_eq!(commands.len(), 4);
    assert!(matches!(&commands[0], BridgeCommand::OpenTab(p) if p.profile_dir == "/profile"));
    assert!(matches!(&commands[1], BridgeCommand::UploadArchive(p) if p.timeout_ms == 45000));
    match &commands[2] {
        BridgeCommand::SubmitPrompt(p) => assert!(p.prompt.starts_with("Batch tab: 1 of 2.")),
        other => panic!("unexpected {other:?}"),
    }
    assert!(matches!(&commands[3], BridgeCommand::MonitorTab(p) if p.completion_check_ms == 20000 && p.telemetry_tick_ms == 3000));
    assert!(matches!(hello_command("0.2.0".into()), BridgeCommand::Hello(p) if p.capabilities.len() == 3));
}

#[test]
fn bridge_ready_step_waits_then_starts() {
    let ready = ReadyEvent::Envelope {
        tab_id: None,
        decoded: Ok(BridgeEvent::BridgeReady(BridgeReadyPayload {
            node_version: "20".into(),
            playwright_version: "1".into(),
            browser: "chromium".into(),
            browser_version: "1".into(),
            capabilities: Vec::new(),
        })),
    };
    assert!(matches!(bridge_ready_step("run-1", ready), ReadyStep::Ready));
    match bridge_ready_step("run-1", ReadyEvent::TimedOut) {
        ReadyStep::Failed(m) => assert_eq!(m, "bridge did not report ready within 90 seconds"),
        _ => panic!("expected failure"),
    }
    let err = ReadyEvent::Envelope {
        tab_id: None,
        decoded: Ok(BridgeEvent::Error(ErrorPayload {
            kind: "x".into(),
            message: "no chrome".into(),
            recoverable: false,
            stack: None,
        })),
    };
    match bridge_ready_step("run-1", err) {
        ReadyStep::Failed(m) => assert_eq!(m, "bridge startup failed: no chrome"),
        _ => panic!("expected failure"),
    }
}

#[test]
fn driver_runs_two_tabs_without_deploy_to_completion() {
    let opts = options(2, false);
    let (mut driver, started) = RunDriver::new(&opts);
    assert_eq!(started.fields.get("tabs").map(String::as_str), Some("2"));
    let delay = Duration::from_millis(1500);
    let step = driver.step(&opts, DriveEvent::Ready, delay, 1500);
    assert_eq!(step.launch, Some(1));
    assert!(!step.done);
    let submitted = DriveEvent::Bridge {
        tab_id: Some(1),
        decoded: Ok(BridgeEvent::PromptSubmitted(PromptSubmittedPayload { char_count: 10 })),
        archive_check: None,
    };
    let step = driver.step(&opts, submitted, delay, 1500);
    let scheduled = step.schedule.expect("tab 2 scheduled");
    assert_eq!(scheduled.tab_id, 2);
    assert_eq!(step.published.last().unwrap().fields.get("delay_ms").map(String::as_str), Some("1500"));
    let step = driver.step(&opts, DriveEvent::LaunchTimer(2), delay, 1500);
    assert_eq!(step.launch, Some(2));
    for tab in [1u16, 2] {
        let done = DriveEvent::Bridge {
            tab_id: Some(tab),
            decoded: Ok(BridgeEvent::DownloadComplete(download_complete())),
            archive_check: Some(Ok(())),
        };
        let step = driver.step(&opts, done, delay, 1500);
        assert!(step.deploy.is_none());
        assert_eq!(step.done, tab == 2);
    }
    assert_eq!(driver.summary.downloaded, 2);
    assert_eq!(driver.summary.deployed, 2);
    assert!(driver.summary.failures.is_empty());
}

#[test]
fn driver_records_timeout_and_refused_archives() {
    let opts = options(1, true);
    let (mut driver, _) = RunDriver::new(&opts);
    let delay = Duration::from_millis(0);
    driver.step(&opts, DriveEvent::Ready, delay, 0);
    let refused = DriveEvent::Bridge {
        tab_id: Some(1),
        decoded: Ok(BridgeEvent::DownloadComplete(download_complete())),
        archive_check: Some(Err("tab 1 downloaded archive has zero tar entries: /tmp/x.tar.gz".into())),
    };
    let step = driver.step(&opts, refused, delay, 0);
    assert!(step.done);
    assert_eq!(driver.summary.failures.len(), 1);
    assert_eq!(driver.summary.failures[0].0, 1);
    let step = driver.step(&opts, DriveEvent::DeadlineElapsed, delay, 0);
    assert!(step.done);
    assert_eq!(driver.summary.failures[1], (0, "run timed out waiting for bridge/deploy completion".to_string()));
}

#[test]
fn downloaded_tab_is_queued_for_deploy_when_deploy_is_on() {
    let opts = options(1, true);
    let mut summary = RunSummary {
        run_id: "run-1".into(),
        total_tabs: 1,
        downloaded: 0,
        deployed: 0,
        failures: Vec::new(),
        denied_github_prompts: 0,
        allowed_info_prompts: 0,
    };
    let mut tracker = RunTracker::new(1, true);
    let out = handle_bridge_envelope(
        &opts,
        Some(1),
        Ok(BridgeEvent::DownloadComplete(download_complete())),
        Some(Ok(())),
        &mut summary,
        &mut tracker,
    );
    let deploy = out.deploy.expect("deploy queued");
    assert_eq!(deploy.tab_id, 1);
    assert_eq!(deploy.local_path, "/tmp/x.tar.gz");
    assert_eq!(summary.downloaded, 1);
    assert_eq!(summary.deployed, 0);
    assert!(!tracker.is_complete());
    assert_eq!(out.published.len(), 2);
    assert!(matches!(out.published[1].kind, EventKind::DeployQueued));
}

#[test]
fn run_timing_is_bounded() {
    let opts = options(2, false);
    assert!(run_deadline(&opts, 2) >= 60);
    assert_eq!(submit_delay(&opts, 0), 10000);
}
