use jailgun::fake::{FakeCiTracker, FakeOutcome, FakeReceiptWriter, FakeRemoteUpload};
use jailgun::deploy::CiState;

#[test]
fn outcome_from_env_defaults_to_success() {
    assert_eq!(FakeOutcome::from_env(&None), FakeOutcome::Success);
    assert_eq!(
        FakeOutcome::from_env(&Some("command-fail".into())),
        FakeOutcome::CommandFail
    );
    assert_eq!(FakeOutcome::from_env(&Some("ci-fail".into())), FakeOutcome::CiFail);
}

#[test]
fn outcome_names_every_scenario() {
    assert_eq!(
        FakeOutcome::from_env(&Some("sha-mismatch".into())),
        FakeOutcome::ShaMismatch
    );
    assert_eq!(
        FakeOutcome::from_env(&Some("cleanup-divergent".into())),
        FakeOutcome::CleanupDivergent
    );
    assert_eq!(FakeOutcome::from_env(&Some("other".into())), FakeOutcome::Success);
}

#[test]
fn fake_upload_mismatches_only_when_asked() {
    let ok = FakeRemoteUpload::new(FakeOutcome::Success);
    assert_eq!(ok.remote_sha256(Some("abc".into())), "abc");
    assert_eq!(ok.remote_sha256(None), "a".repeat(64));
    let bad = FakeRemoteUpload::new(FakeOutcome::ShaMismatch);
    assert_eq!(bad.remote_sha256(Some("abc".into())), "0".repeat(64));
}

#[test]
fn fake_ci_fails_only_in_ci_failure() {
    assert!(matches!(
        FakeCiTracker::new(FakeOutcome::CiFail).check(),
        CiState::Failed { .. }
    ));
    assert!(matches!(
        FakeCiTracker::new(FakeOutcome::Success).check(),
        CiState::Passed { .. }
    ));
}

#[test]
fn fake_receipts_live_under_the_root() {
    let w = FakeReceiptWriter::new("receipts".into());
    assert_eq!(w.receipt_path("run-1", 2), "receipts/run-1/run-1-tab-02-deploy.json");
}
