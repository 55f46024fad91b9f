use jailgun::cleanup::CleanupPolicy;
use jailgun::config::{
    BrowserConfig, DeployConfig, JailgunConfig, PathConfig, ProjectConfig, PromptPolicy,
    SourceArchiveConfig,
};
use jailgun::cli::{
    apply_run_flags, archive_upload_name, arg_or_env, arg_or_env_or_default, build_bridge_env,
    ensure_expected_top_level, infer_github_repo, parse_env_overrides, resolve_deploy_dry_run,
    resolve_deploy_enabled, split_once_char, validate_telegram_notify,
};
use jailgun::deploy::{deploy_outcome_succeeded, DeployOutcome};
use jailgun::tarball::TarValidation;

fn validation_with_top_level(top_level: Option<&str>) -> TarValidation {
    TarValidation {
        size_bytes: 1,
        entry_count: 1,
        files: Vec::new(),
        top_levels: top_level
            .map(|value| vec![value.to_string()])
            .unwrap_or_else(|| vec!["jekko".to_string(), "other".to_string()]),
        top_level: top_level.map(str::to_string),
    }
}

#[test]
fn deploy_archive_accepts_expected_top_level() {
    let validation = validation_with_top_level(Some("jekko"));
    ensure_expected_top_level(&validation, "jekko").unwrap();
}

#[test]
fn deploy_archive_rejects_jekko_fixes_top_level() {
    let validation = validation_with_top_level(Some("jekko-fixes"));
    let error = ensure_expected_top_level(&validation, "jekko").unwrap_err();
    assert!(error.contains("archive top-level must be jekko/, found jekko-fixes"));
}

#[test]
fn deploy_archive_rejects_multiple_top_levels() {
    let validation = validation_with_top_level(None);
    let error = ensure_expected_top_level(&validation, "jekko").unwrap_err();
    assert!(error.contains("archive top-level must be jekko/, found (multiple)"));
}

#[test]
fn run_deploy_flag_disables_config_dry_run() {
    assert!(!resolve_deploy_dry_run(true, true, false));
}

#[test]
fn run_dry_run_flag_overrides_deploy() {
    assert!(resolve_deploy_dry_run(false, true, true));
}

#[test]
fn run_without_deploy_preserves_config_dry_run() {
    assert!(resolve_deploy_dry_run(true, false, false));
    assert!(!resolve_deploy_dry_run(false, false, false));
}

#[test]
fn failed_preserved_deploy_archive_outcome_is_not_successful() {
    assert!(deploy_outcome_succeeded(DeployOutcome::Succeeded));
    assert!(deploy_outcome_succeeded(DeployOutcome::SucceededCiSkipped));
    assert!(!deploy_outcome_succeeded(DeployOutcome::FailedPreserved));
    assert!(!deploy_outcome_succeeded(DeployOutcome::SucceededCiFailed));
}

#[test]
fn github_repo_inference_stays_within_owner_repo_boundary() {
    assert_eq!(infer_github_repo("git@github.com:example/repo.git").as_deref(), Some("example/repo"));
    assert_eq!(infer_github_repo("https://github.com/example/repo.git").as_deref(), Some("example/repo"));
    assert_eq!(infer_github_repo("ssh://git@github.com/example/repo.git").as_deref(), Some("example/repo"));
    assert_eq!(infer_github_repo("git@example.com:org/repo.git"), None);
    assert_eq!(infer_github_repo("https://notgithub.com/example/repo.git"), None);
    assert_eq!(infer_github_repo("https://github.com/example/repo/tree/main"), None);
}

#[test]
fn github_repo_inference_edge_cases() {
    assert_eq!(infer_github_repo("https://github.com/example/repo").as_deref(), Some("example/repo"));
    assert_eq!(infer_github_repo("https://github.com/example"), None);
    assert_eq!(infer_github_repo("https://github.com//repo"), None);
    assert_eq!(infer_github_repo("https://github.com/example/"), None);
    assert_eq!(infer_github_repo("git@github.com:a/b.git.git").as_deref(), Some("a/b.git"));
}

#[test]
fn deploy_switch_follows_flags_then_config() {
    assert!(!resolve_deploy_enabled(true, true, true));
    assert!(resolve_deploy_enabled(false, true, false));
    assert!(resolve_deploy_enabled(true, false, false));
    assert!(!resolve_deploy_enabled(false, false, false));
}

#[test]
fn env_overrides_parse_in_order_and_later_keys_win() {
    let values = vec!["A=1".to_string(), "B=x=y".to_string(), "A=2".to_string()];
    let env = parse_env_overrides(&values).expect("parsed");
    assert_eq!(env.get("A").map(String::as_str), Some("2"));
    assert_eq!(env.get("B").map(String::as_str), Some("x=y"));
    assert_eq!(env.len(), 2);
}

#[test]
fn env_override_without_equals_is_refused_with_debug_quoting() {
    let values = vec!["A=1".to_string(), "oops \"x\"".to_string(), " =2".to_string()];
    let error = parse_env_overrides(&values).unwrap_err();
    assert_eq!(error, "--bridge-env must be KEY=VALUE, got \"oops \\\"x\\\"\"");
}

#[test]
fn env_override_with_blank_key_is_refused() {
    let values = vec!["  =value".to_string()];
    assert_eq!(parse_env_overrides(&values).unwrap_err(), "--bridge-env key cannot be empty");
}

#[test]
fn bridge_env_sets_directories_and_keeps_profile_overrides() {
    let values = vec!["PROFILE=/custom".to_string(), "JAILGUN_DOWNLOADS_DIR=/ignored".to_string()];
    let env = build_bridge_env(
        &values,
        "/art/downloads",
        "/art",
        Some("target.tar.gz".to_string()),
        "PROFILE",
        "/default/profile",
        "STATE",
        "/default/state",
    )
    .expect("env");
    assert_eq!(env.get("JAILGUN_DOWNLOADS_DIR").map(String::as_str), Some("/art/downloads"));
    assert_eq!(env.get("JAILGUN_ARTIFACTS_DIR").map(String::as_str), Some("/art"));
    assert_eq!(env.get("JAILGUN_TAR_TARGET_NAME").map(String::as_str), Some("target.tar.gz"));
    assert_eq!(env.get("PROFILE").map(String::as_str), Some("/custom"));
    assert_eq!(env.get("STATE").map(String::as_str), Some("/default/state"));
}

#[test]
fn split_once_takes_the_first_separator() {
    assert_eq!(split_once_char("a=b=c", '='), Some(("a".to_string(), "b=c".to_string())));
    assert_eq!(split_once_char("abc", '='), None);
}

#[test]
fn telegram_notify_needs_a_chat_id() {
    assert!(validate_telegram_notify(&Some("123".to_string()), "token", "cache").is_ok());
    assert_eq!(
        validate_telegram_notify(&Some("  ".to_string()), "token.toml", "cache.txt").unwrap_err(),
        "--notify-telegram requires a chat id in token.toml or cache.txt"
    );
    assert!(validate_telegram_notify(&None, "t", "c").is_err());
}

#[test]
fn arguments_win_over_environment() {
    assert_eq!(arg_or_env(Some("a".into()), Some("e".into()), "HOST", "remote host").unwrap(), "a");
    assert_eq!(arg_or_env(None, Some("e".into()), "HOST", "remote host").unwrap(), "e");
    assert_eq!(
        arg_or_env(None, None, "HOST", "remote host").unwrap_err(),
        "missing remote host: pass it explicitly or set HOST"
    );
    assert_eq!(arg_or_env_or_default(None, None, "d".into()), "d");
}

#[test]
fn archive_upload_name_defaults_when_the_path_has_no_name() {
    assert_eq!(archive_upload_name("/tmp/x/archive.tar.gz"), "archive.tar.gz");
    assert_eq!(archive_upload_name("/"), "chatgpt-output.tar.gz");
    assert_eq!(archive_upload_name(".."), "chatgpt-output.tar.gz");
}

#[test]
fn run_flags_adjust_config() {
    let config = jailgun_config_fixture();
    let adjusted = apply_run_flags(config, Some("feature".into()), true, false, false);
    assert_eq!(adjusted.source_archive.ref_name, "feature");
    assert!(adjusted.deploy.enabled);
    assert!(!adjusted.deploy.dry_run);
}

fn jailgun_config_fixture() -> jailgun::config::JailgunConfig {
    JailgunConfig {
        project: ProjectConfig { repository: "git@github.com:example/repo.git".into() },
        paths: PathConfig { artifacts_dir: "artifacts".into(), downloads_dir_env: "DL".into() },
        browser: BrowserConfig {
            tabs: 2,
            chat_url: "https://chatgpt.com/".into(),
            model: "pro".into(),
            profile_dir_env: "PROFILE".into(),
            state_dir_env: "STATE".into(),
            tar_wait_minutes: 30,
            submit_delay_seconds: 10,
            submit_jitter_seconds: 5,
            completion_check_seconds: 20,
            poll_interval_seconds: 3,
        },
        deploy: DeployConfig {
            enabled: false,
            dry_run: true,
            remote_host_env: "HOST".into(),
            remote_dir_env: "DIR".into(),
            remote_command_env: "CMD".into(),
            remote_strip_components: 1,
            remote_cleanup_policy: CleanupPolicy::Block,
            remote_status_poll_seconds: 5,
        },
        source_archive: SourceArchiveConfig {
            enabled: true,
            repo_url_env: "REPO".into(),
            ref_name: "HEAD".into(),
            prefix: "source/".into(),
            archive_filename: "source.tar.gz".into(),
            delete_after_upload: true,
        },
        prompt_policy: PromptPolicy {
            deny_github_write_by_default: true,
            allow_info_prompts: true,
            allowed_repositories: Vec::new(),
        },
    }
}
