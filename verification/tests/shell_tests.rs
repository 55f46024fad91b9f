use jailgun::deploy::CiState;
use jailgun::shell::{
    ci_state_from_gh_runs, ensure_absolute, gh_run_list_args, parse_remote_sha256,
    parse_snapshot, shell_quote, split_once_str, GhRun, SshRemoteGit, SshRemoteJob,
    SshRemoteUpload,
};

fn completed(id: u64, conclusion: &str) -> GhRun {
    GhRun {
        database_id: Some(id),
        status: Some("completed".into()),
        conclusion: Some(conclusion.into()),
        url: Some("https://example.test/run".into()),
    }
}

#[test]
fn parse_gh_run_list_returns_pending_when_no_run_exists_yet() {
    let state = ci_state_from_gh_runs(Vec::new());
    assert_eq!(state, CiState::Pending { run_id: None });
}

#[test]
fn parse_gh_run_list_maps_successful_completed_run() {
    let state = ci_state_from_gh_runs(vec![completed(42, "success")]);
    assert_eq!(
        state,
        CiState::Passed {
            run_id: "42".into(),
            run_url: "https://example.test/run".into(),
            conclusion: "success".into()
        }
    );
}

#[test]
fn parse_gh_run_list_maps_failed_completed_run() {
    let state = ci_state_from_gh_runs(vec![completed(99, "failure")]);
    assert_eq!(
        state,
        CiState::Failed {
            run_id: "99".into(),
            run_url: "https://example.test/run".into(),
            conclusion: "failure".into(),
            log_excerpt: None
        }
    );
}

#[test]
fn running_ci_is_pending_with_its_run_id() {
    let run = GhRun {
        database_id: Some(7),
        status: Some("in_progress".into()),
        conclusion: None,
        url: None,
    };
    assert_eq!(ci_state_from_gh_runs(vec![run]), CiState::Pending { run_id: Some("7".into()) });
}

#[test]
fn only_the_first_run_counts() {
    let state = ci_state_from_gh_runs(vec![completed(1, "success"), completed(2, "failure")]);
    assert!(matches!(state, CiState::Passed { .. }));
}

#[test]
fn gh_arguments_name_branch_and_commit() {
    let args = gh_run_list_args("main", "abc123");
    assert!(args.contains(&"main".to_string()));
    assert!(args.contains(&"abc123".to_string()));
}

#[test]
fn shell_quote_wraps_and_escapes_single_quotes() {
    assert_eq!(shell_quote("abc"), "'abc'");
    assert_eq!(shell_quote("it's"), "'it'\\''s'");
    assert_eq!(shell_quote(""), "''");
}

#[test]
fn absolute_paths_start_with_a_slash() {
    assert!(ensure_absolute("/srv/app"));
    assert!(!ensure_absolute("srv/app"));
    assert!(!ensure_absolute(""));
}

#[test]
fn remote_digest_is_the_trimmed_first_line() {
    assert_eq!(parse_remote_sha256("  abc123  \nother\n"), "abc123");
    assert_eq!(parse_remote_sha256(""), "");
}

#[test]
fn split_once_uses_the_first_match() {
    assert_eq!(split_once_str("a=b=c", "="), Some(("a".to_string(), "b=c".to_string())));
    assert_eq!(split_once_str("abc", "="), None);
}

#[test]
fn snapshot_output_is_read_around_the_status_marker() {
    let out = "head=aaa\norigin_main=bbb\nhead=ccc\n__STATUS__\n M src/lib.rs\n";
    let s = parse_snapshot(out);
    assert_eq!(s.head.as_deref(), Some("ccc"));
    assert_eq!(s.origin_main.as_deref(), Some("bbb"));
    assert_eq!(s.status_short, "M src/lib.rs");

    let s = parse_snapshot("head=aaa\n");
    assert_eq!(s.head.as_deref(), Some("aaa"));
    assert_eq!(s.origin_main, None);
    assert_eq!(s.status_short, "");
}

#[test]
fn remote_commands_quote_their_paths() {
    assert_eq!(
        SshRemoteUpload::sha256_command("/srv/x y.tar.gz"),
        "sha256sum '/srv/x y.tar.gz' | awk '{print $1}'"
    );
    assert_eq!(SshRemoteUpload::ensure_dir_command("/srv"), "mkdir -p '/srv'");
    assert_eq!(SshRemoteUpload::remove_command("/srv/a"), "rm -f '/srv/a'");
    let upload = SshRemoteUpload::new("host".into());
    assert_eq!(upload.scp_target("/srv/x"), "host:/srv/x");
    let git = SshRemoteGit::new("host".into(), "receipts".into());
    assert_eq!(git.default_receipt_path("run-1"), "receipts/run-1-remote-cleanup.json");
    let handle = SshRemoteJob::job_handle("run-1", 3);
    assert_eq!(handle.job_id, "run-1-tab-03");
    assert_eq!(handle.launcher_path, "/tmp/jailgun-runs/run-1-tab-03/launcher.sh");
    assert_eq!(
        SshRemoteJob::status_command(&handle),
        "cat '/tmp/jailgun-runs/run-1-tab-03/status.json' 2>/dev/null || true"
    );
    assert_eq!(
        SshRemoteJob::log_tail_command(&handle, 40),
        "tail -n 40 '/tmp/jailgun-runs/run-1-tab-03/launch.log' 2>/dev/null || true"
    );
}
