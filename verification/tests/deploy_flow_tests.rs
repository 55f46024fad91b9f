use jailgun::cleanup::CleanupPolicy;
use jailgun::deploy::{
    CiState, DeployError, DeployOutcome, DeployRequest, JobHandle, JobPhase, JobStatus,
};
use jailgun::deploy_flow::{DeployAction, DeployEvent, DeployMachine, DeployPhase};
use jailgun::digest::sha256_hex;
use jailgun::event::EventKind;

const ARCHIVE: &[u8] = b"fake source archive payload";

fn request(dry_run: bool) -> DeployRequest {
    DeployRequest {
        run_id: "run-1".into(),
        tab_id: 2,
        remote_host: "host".into(),
        remote_dir: "/srv/app".into(),
        remote_command: "make deploy".into(),
        remote_archive_basename: "source.tar.gz".into(),
        local_archive_path: "/tmp/source.tar.gz".into(),
        strip_components: 1,
        cleanup_policy: CleanupPolicy::Block,
        receipt_dir: "receipts".into(),
        status_poll_seconds: 1,
        status_max_minutes: 5,
        ci_tracker_enabled: false,
        ci_branch: "main".into(),
        ci_max_attempts: 3,
        ci_poll_seconds: 1,
        stash_on_failure: false,
        dry_run,
    }
}

fn handle() -> JobHandle {
    JobHandle {
        job_id: "job-1".into(),
        launcher_dir: "/srv/app/.jailgun".into(),
        launcher_path: "/srv/app/.jailgun/run.sh".into(),
        status_path: "/srv/app/.jailgun/status.json".into(),
        log_path: "/srv/app/.jailgun/log.txt".into(),
        failure_marker_path: "/srv/app/.jailgun/failed".into(),
    }
}

/// Runs the machine up to the remote checksum answer `remote`.
fn up_to_remote_sha(dry_run: bool, remote: String) -> (DeployMachine, DeployAction) {
    let (m, a) = DeployMachine::start(request(dry_run));
    assert!(matches!(a, DeployAction::ReadLocalArchive { .. }));
    let (m, a, events) = m.step(DeployEvent::LocalArchive(Ok(ARCHIVE.to_vec())));
    assert_eq!(events[0].kind, EventKind::DeployQueued);
    assert!(matches!(a, DeployAction::EnsureRemoteDir { .. }));
    let (m, a, _) = m.step(DeployEvent::RemoteDirReady(Ok(())));
    assert!(matches!(a, DeployAction::UploadArchive { .. }));
    let (m, a, _) = m.step(DeployEvent::Uploaded(Ok(())));
    assert!(matches!(a, DeployAction::FetchRemoteSha { .. }));
    let (m, a, _) = m.step(DeployEvent::RemoteSha(Ok(remote)));
    (m, a)
}

#[test]
fn machine_dry_run_stages_and_writes_one_receipt() {
    let local = sha256_hex(ARCHIVE);
    let (m, a) = up_to_remote_sha(true, local.clone());
    assert!(matches!(a, DeployAction::InstallLauncher { .. }));
    let (m, a, _) = m.step(DeployEvent::LauncherInstalled(Ok(handle())));
    assert!(matches!(a, DeployAction::WriteReceipt));
    let (m, a, events) = m.step(DeployEvent::ReceiptWritten(Ok("receipts/r.json".into())));
    assert_eq!(m.phase, DeployPhase::Finished);
    assert_eq!(events[0].kind, EventKind::DeployFinished);
    match a {
        DeployAction::Finish { result: Ok(rc) } => {
            assert_eq!(rc.outcome, DeployOutcome::DryRunStaged);
            assert_eq!(rc.ci_state, CiState::Skipped { reason: "dry-run".into() });
            assert_eq!(rc.receipt_path.as_deref(), Some("receipts/r.json"));
            assert_eq!(rc.local_sha256, local);
            assert_eq!(rc.remote_sha256, local);
        }
        other => panic!("unexpected {other:?}"),
    }
}

#[test]
fn machine_sha_mismatch_removes_the_upload_and_fails() {
    let local = sha256_hex(ARCHIVE);
    let (m, a) = up_to_remote_sha(false, "different".into());
    assert!(matches!(a, DeployAction::RemoveRemoteFile { .. }));
    let (_, a, events) = m.step(DeployEvent::RemoteFileRemoved);
    assert_eq!(events[0].kind, EventKind::DeployFinished);
    assert_eq!(
        events[0].fields.get("outcome").map(String::as_str),
        Some("upload-sha-mismatch")
    );
    match a {
        DeployAction::Finish { result: Err(DeployError::ShaMismatch { local: l, remote }) } => {
            assert_eq!(l, local);
            assert_eq!(remote, "different");
        }
        other => panic!("unexpected {other:?}"),
    }
}

#[test]
fn machine_success_without_ci_records_succeeded_ci_skipped() {
    let local = sha256_hex(ARCHIVE);
    let (m, _) = up_to_remote_sha(false, local.clone());
    let (m, a, _) = m.step(DeployEvent::LauncherInstalled(Ok(handle())));
    assert!(matches!(a, DeployAction::StartJob { .. }));
    let (m, a, _) = m.step(DeployEvent::JobStarted(Ok(())));
    assert!(matches!(a, DeployAction::CheckDeadline { restart_clock: true }));
    let (m, a, _) = m.step(DeployEvent::Elapsed { millis: 10 });
    assert!(matches!(a, DeployAction::SleepThenFetchStatus { .. }));
    let mut status = JobStatus::missing();
    status.phase = JobPhase::Done;
    status.exit_code = Some(0);
    let (m, a, _) = m.step(DeployEvent::StatusFetched(Ok(status)));
    assert!(matches!(a, DeployAction::FetchLogTail { .. }));
    let (m, a, _) = m.step(DeployEvent::LogTail(Ok("success".into())));
    assert!(matches!(a, DeployAction::WriteReceipt));
    let (_, a, _) = m.step(DeployEvent::ReceiptWritten(Ok("receipts/r.json".into())));
    match a {
        DeployAction::Finish { result: Ok(rc) } => {
            assert_eq!(rc.outcome, DeployOutcome::SucceededCiSkipped);
            assert!(matches!(rc.ci_state, CiState::Skipped { .. }));
            assert_eq!(rc.final_status.phase, JobPhase::Done);
            assert_eq!(rc.log_tail, "success");
            assert_eq!(rc.local_sha256, local);
        }
        other => panic!("unexpected {other:?}"),
    }
}
