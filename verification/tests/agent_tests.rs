use jailgun::agent::{
    cap_utf8, AgentRunCollection, ci_status_from_events, deploy_status_from_events, is_test_path, max_runtime_minutes,
    parse_name_status, receipt_paths_from_events, JailgunAgentBrowserRequest,
    JailgunAgentDeployRequest, JailgunAgentRunRequest, JailgunCiRequest,
    JailgunGithubPolicyRequest, JailgunRepoRef, JailgunSourceArchiveRequest,
    JAILGUN_AGENT_INTERFACE_VERSION, JAILGUN_AGENT_MAX_RUNTIME_SECONDS, JAILGUN_AGENT_MAX_TABS,
};
use jailgun::agent::{prepare_agent_run, AgentRunEnvironment, AgentRunPaths};
use jailgun::cleanup::CleanupPolicy;
use jailgun::config::{
    BrowserConfig, DeployConfig, JailgunConfig, PathConfig, ProjectConfig, PromptPolicy,
    SourceArchiveConfig,
};
use jailgun::event::{EventKind, JailgunEvent};

fn request() -> JailgunAgentRunRequest {
    JailgunAgentRunRequest {
        version: JAILGUN_AGENT_INTERFACE_VERSION,
        run_id: Some("run-1".into()),
        prompt_ref: "jmcp://work-orders/1/prompt".into(),
        prompt_file: "/tmp/prompt.txt".into(),
        config_path: None,
        tabs: Some(2),
        max_runtime_seconds: Some(120),
        repo: JailgunRepoRef::default(),
        source_archive: JailgunSourceArchiveRequest::default(),
        deploy: JailgunAgentDeployRequest::default(),
        ci: JailgunCiRequest::default(),
        browser: JailgunAgentBrowserRequest::default(),
        github: JailgunGithubPolicyRequest::default(),
    }
}

#[test]
fn request_defaults_to_dry_run_deploy_off() {
    let mut value = request();
    value.prompt_ref = "jmcp://prompt/1".into();
    value.tabs = None;
    value.max_runtime_seconds = None;

    assert!(!value.deploy.enabled);
    assert!(value.deploy.dry_run);
    assert!(!value.deploy.allow_live);
    value.validate_for_config_tabs(1).expect("valid default");
}

#[test]
fn request_rejects_runtime_and_tab_caps() {
    let mut value = request();
    value.tabs = Some(JAILGUN_AGENT_MAX_TABS + 1);
    assert!(value.validate_for_config_tabs(1).unwrap_err().contains("tabs"));

    value.tabs = Some(1);
    value.max_runtime_seconds = Some(JAILGUN_AGENT_MAX_RUNTIME_SECONDS + 1);
    assert!(value
        .validate_for_config_tabs(1)
        .unwrap_err()
        .contains("max_runtime_seconds"));
}

#[test]
fn request_rejects_live_deploy_without_explicit_allow() {
    let mut value = request();
    value.deploy.enabled = true;
    value.deploy.dry_run = false;

    assert!(value.validate_for_config_tabs(1).unwrap_err().contains("allow_live"));

    value.deploy.allow_live = true;
    value.validate_for_config_tabs(1).expect("explicit live allow");
}

#[test]
fn request_requires_repo_scope_for_github_write_allow() {
    let mut value = request();
    value.github.allow_write_prompts = true;

    assert!(value
        .validate_for_config_tabs(1)
        .unwrap_err()
        .contains("allowed_repositories"));

    value.github.allowed_repositories = vec!["org/example".into()];
    value.validate_for_config_tabs(1).expect("repo scoped allow");
}

#[test]
fn request_errors_name_the_offending_setting_exactly() {
    let mut value = request();
    value.version = 2;
    assert_eq!(
        value.validate_for_config_tabs(1).unwrap_err(),
        "unsupported Jailgun agent interface version 2; expected 1"
    );

    let mut value = request();
    value.prompt_ref = "   ".into();
    assert_eq!(value.validate_for_config_tabs(1).unwrap_err(), "prompt_ref is required");

    let mut value = request();
    value.prompt_file = String::new();
    assert_eq!(value.validate_for_config_tabs(1).unwrap_err(), "prompt_file is required");

    let mut value = request();
    value.tabs = Some(0);
    assert_eq!(value.validate_for_config_tabs(1).unwrap_err(), "tabs must be positive");
    value.tabs = Some(9);
    assert_eq!(value.validate_for_config_tabs(1).unwrap_err(), "tabs must be <= 5; got 9");

    let mut value = request();
    value.max_runtime_seconds = Some(0);
    assert_eq!(
        value.validate_for_config_tabs(1).unwrap_err(),
        "max_runtime_seconds must be positive"
    );
    value.max_runtime_seconds = Some(1801);
    assert_eq!(
        value.validate_for_config_tabs(1).unwrap_err(),
        "max_runtime_seconds must be <= 1800; got 1801"
    );

    let mut value = request();
    value.deploy.enabled = true;
    value.deploy.dry_run = false;
    assert_eq!(
        value.validate_for_config_tabs(1).unwrap_err(),
        "live deploy requires deploy.allow_live=true"
    );

    let mut value = request();
    value.github.allow_write_prompts = true;
    assert_eq!(
        value.validate_for_config_tabs(1).unwrap_err(),
        "github.allow_write_prompts requires allowed_repositories"
    );
}

#[test]
fn effective_limits_fall_back_to_config_and_cap() {
    let mut value = request();
    value.tabs = None;
    assert_eq!(value.effective_tabs(3), Ok(3));
    assert!(value.effective_tabs(6).is_err());
    value.max_runtime_seconds = None;
    assert_eq!(value.effective_max_runtime_seconds(), Ok(1800));
    value.max_runtime_seconds = Some(61);
    assert_eq!(value.effective_max_runtime_seconds(), Ok(61));
}

#[test]
fn runtime_minutes_round_up_and_stay_positive() {
    assert_eq!(max_runtime_minutes(1), 1);
    assert_eq!(max_runtime_minutes(60), 1);
    assert_eq!(max_runtime_minutes(61), 2);
    assert_eq!(max_runtime_minutes(1800), 30);
}

#[test]
fn review_packet_helpers_parse_name_status_and_tests() {
    let files = parse_name_status("M\tcrates/lib.rs\nR100\told.test.ts\tnew.test.ts\n");

    assert_eq!(files.len(), 2);
    assert_eq!(files[0].status, "M");
    assert_eq!(files[0].path, "crates/lib.rs");
    assert_eq!(files[1].status, "R100");
    assert_eq!(files[1].old_path.as_deref(), Some("old.test.ts"));
    assert_eq!(files[1].path, "new.test.ts");
    assert!(is_test_path(&files[1].path));
    assert!(!is_test_path(&files[0].path));
}

#[test]
fn name_status_skips_lines_without_a_path() {
    let files = parse_name_status("M\n\nA\tREADME.md\n");
    assert_eq!(files.len(), 1);
    assert_eq!(files[0].status, "A");
    assert_eq!(files[0].path, "README.md");
    assert_eq!(files[0].old_path, None);
}

#[test]
fn test_paths_are_recognised_case_insensitively() {
    assert!(is_test_path("tests/a.rs"));
    assert!(is_test_path("src/Foo_Test.rs"));
    assert!(is_test_path("web/__tests__/x.js"));
    assert!(is_test_path("ui/button.spec.tsx"));
    assert!(!is_test_path("src/testing.rs"));
}

#[test]
fn caps_review_patch_on_utf8_boundary() {
    let capped = cap_utf8("abcédef".into(), 4);

    assert!(capped.starts_with("abc"));
    assert!(capped.contains("patch truncated at 4 bytes"));
}

#[test]
fn cap_keeps_short_text_and_marks_cut_text() {
    assert_eq!(cap_utf8("abc".into(), 3), "abc");
    assert_eq!(cap_utf8("abcdef".into(), 2), "ab\n[patch truncated at 2 bytes]\n");
}

#[test]
fn summary_helpers_extract_deploy_ci_and_receipts() {
    let event = JailgunEvent::new("run-1", EventKind::DeployFinished, "deploy finished")
        .with_field("outcome", "dry-run-staged")
        .with_field("ci_state", "skipped")
        .with_field("receipt_path", "target/receipts/deploy.json");
    let events = vec![event];

    assert_eq!(deploy_status_from_events(&events, true), "dry-run-staged");
    assert_eq!(ci_status_from_events(&events, true), "skipped");
    assert_eq!(
        receipt_paths_from_events(&events),
        vec!["target/receipts/deploy.json".to_string()]
    );
}

#[test]
fn summary_helpers_report_disabled_and_unfinished() {
    let events: Vec<JailgunEvent> = Vec::new();
    assert_eq!(deploy_status_from_events(&events, false), "disabled");
    assert_eq!(deploy_status_from_events(&events, true), "not-finished");
    assert_eq!(ci_status_from_events(&events, false), "disabled");
    assert_eq!(ci_status_from_events(&events, true), "unknown");
    assert!(receipt_paths_from_events(&events).is_empty());
}

#[test]
fn a_run_out_of_time_keeps_its_events_and_one_failure() {
    let events = vec![JailgunEvent::new("run-1", EventKind::RunStarted, "run started")];
    let c = AgentRunCollection::timed_out("run-1", 3, events);
    assert!(c.timed_out);
    assert_eq!(c.events.len(), 1);
    assert_eq!(c.summary.run_id, "run-1");
    assert_eq!(c.summary.total_tabs, 3);
    assert_eq!(c.summary.downloaded, 0);
    assert_eq!(c.summary.failures, vec![(0u16, "agent max runtime exceeded".to_string())]);
}

fn config() -> JailgunConfig {
    JailgunConfig {
        project: ProjectConfig { repository: "git@github.com:example/repo.git".into() },
        paths: PathConfig { artifacts_dir: "artifacts".into(), downloads_dir_env: "DL".into() },
        browser: BrowserConfig {
            tabs: 2,
            chat_url: "https://chatgpt.com/".into(),
            model: "pro".into(),
            profile_dir_env: "PROFILE".into(),
            state_dir_env: "STATE".into(),
            tar_wait_minutes: 30,
            submit_delay_seconds: 10,
            submit_jitter_seconds: 0,
            completion_check_seconds: 20,
            poll_interval_seconds: 3,
        },
        deploy: DeployConfig {
            enabled: false,
            dry_run: true,
            remote_host_env: "HOST".into(),
            remote_dir_env: "DIR".into(),
            remote_command_env: "CMD".into(),
            remote_strip_components: 0,
            remote_cleanup_policy: CleanupPolicy::PreserveReset,
            remote_status_poll_seconds: 5,
        },
        source_archive: SourceArchiveConfig {
            enabled: true,
            repo_url_env: "REPO".into(),
            ref_name: "HEAD".into(),
            prefix: "source/".into(),
            archive_filename: "source.tar.gz".into(),
            delete_after_upload: true,
        },
        prompt_policy: PromptPolicy {
            deny_github_write_by_default: true,
            allow_info_prompts: true,
            allowed_repositories: Vec::new(),
        },
    }
}

fn environment() -> AgentRunEnvironment {
    AgentRunEnvironment {
        repo_url: None,
        downloads_dir: None,
        profile_dir: None,
        remote_host: None,
        remote_dir: None,
        remote_command: None,
        default_profile_dir: "/profiles/default".into(),
        default_state_dir: "/state".into(),
        default_run_id: "run-default".into(),
        bridge_cmd: vec!["fake-bridge".into()],
    }
}

fn paths() -> AgentRunPaths {
    AgentRunPaths { events_jsonl: "events.jsonl".into(), summary_json: "summary.json".into() }
}

#[test]
fn prepare_agent_run_resolves_directories_and_defaults() {
    let mut request = request();
    request.browser.event_buffer = Some(77);
    request.browser.deploy_concurrency = Some(3);
    let prepared = prepare_agent_run(
        request,
        config(),
        paths(),
        "ship the change".into(),
        environment(),
        "2026-06-01T00:00:00Z".into(),
    )
    .expect("prepare agent run");

    assert_eq!(prepared.tabs, 2);
    assert_eq!(prepared.max_runtime_seconds, 120);
    assert_eq!(prepared.opts.run_id, "run-1");
    assert_eq!(prepared.opts.tabs_override, Some(2));
    assert_eq!(prepared.opts.loop_count, 0);
    assert_eq!(prepared.opts.event_buffer, 77);
    assert_eq!(prepared.opts.deploy_concurrency, 3);
    assert_eq!(prepared.opts.status_max_minutes, 2);
    assert_eq!(prepared.opts.artifacts_dir, "artifacts");
    assert_eq!(prepared.opts.downloads_dir, "artifacts/downloads");
    assert_eq!(prepared.opts.profile_dir, "/profiles/default");
    assert!(prepared.opts.no_deploy);
    assert!(prepared.opts.dry_run);
    assert_eq!(prepared.opts.ci_branch, "main");
    assert_eq!(prepared.opts.ci_repo.as_deref(), Some("example/repo"));
    assert_eq!(prepared.opts.bridge_env.get("STATE").map(String::as_str), Some("/state"));
    assert_eq!(
        prepared.opts.bridge_env.get("PROFILE").map(String::as_str),
        Some("/profiles/default")
    );
    assert_eq!(
        prepared.opts.bridge_env.get("JAILGUN_DOWNLOADS_DIR").map(String::as_str),
        Some("artifacts/downloads")
    );
    assert_eq!(prepared.opts.prompt_text, "ship the change");
}

#[test]
fn prepare_agent_run_needs_a_deploy_target_only_when_deploying() {
    let mut request = request();
    request.deploy.enabled = true;
    let err = prepare_agent_run(
        request.clone(),
        config(),
        paths(),
        "p".into(),
        environment(),
        "t".into(),
    )
    .err()
    .expect("missing host");
    assert_eq!(err, "missing remote host: pass it explicitly or set HOST");

    request.deploy.remote_host = Some("host".into());
    let mut env = environment();
    env.remote_dir = Some("/srv/app".into());
    env.remote_command = Some("make deploy".into());
    let prepared = prepare_agent_run(request, config(), paths(), "p".into(), env, "t".into())
        .expect("deploy target given");
    assert_eq!(prepared.opts.deploy_remote_host.as_deref(), Some("host"));
    assert_eq!(prepared.opts.deploy_remote_dir.as_deref(), Some("/srv/app"));
    assert_eq!(prepared.opts.deploy_remote_command.as_deref(), Some("make deploy"));
    assert!(!prepared.opts.no_deploy);
}
