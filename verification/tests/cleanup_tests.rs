use std::collections::VecDeque;

use jailgun::cleanup::{
    cleanup_remote_checkout, sanitize_ref_fragment, CleanupError, CleanupOutcome, CleanupPolicy,
    CleanupReceipt, CleanupRequest, RemoteGitBackend, RemoteSnapshot,
};
use jailgun::fake::{FakeOutcome, FakeRemoteGit};

#[derive(Debug)]
struct FakeRemote {
    snapshots: VecDeque<RemoteSnapshot>,
    refs: Vec<(String, String)>,
    reset_targets: Vec<String>,
    receipt_writes: usize,
    fail_ref: bool,
    fail_receipt: bool,
}

impl FakeRemote {
    fn new(snapshots: Vec<RemoteSnapshot>) -> Self {
        Self {
            snapshots: snapshots.into(),
            refs: Vec::new(),
            reset_targets: Vec::new(),
            receipt_writes: 0,
            fail_ref: false,
            fail_receipt: false,
        }
    }
}

impl RemoteGitBackend for FakeRemote {
    fn snapshot(&mut self, _remote_dir: &str) -> Result<RemoteSnapshot, CleanupError> {
        self.snapshots
            .pop_front()
            .or_else(|| self.snapshots.back().cloned())
            .ok_or_else(|| CleanupError::Backend("no fake snapshot".into()))
    }

    fn fetch_origin(&mut self, _remote_dir: &str) -> Result<(), CleanupError> {
        Ok(())
    }

    fn create_ref(&mut self, _remote_dir: &str, ref_name: &str, sha: &str) -> Result<(), CleanupError> {
        if self.fail_ref {
            return Err(CleanupError::Backend("ref rejected".into()));
        }
        self.refs.push((ref_name.into(), sha.into()));
        Ok(())
    }

    fn write_receipt(&mut self, receipt: &CleanupReceipt) -> Result<String, CleanupError> {
        if self.fail_receipt {
            return Err(CleanupError::Backend("disk full".into()));
        }
        self.receipt_writes += 1;
        Ok(receipt
            .receipt_path
            .clone()
            .unwrap_or_else(|| format!("receipt-{}.json", self.receipt_writes)))
    }

    fn reset_hard(&mut self, _remote_dir: &str, target: &str) -> Result<(), CleanupError> {
        self.reset_targets.push(target.into());
        Ok(())
    }
}

fn request(policy: CleanupPolicy) -> CleanupRequest {
    CleanupRequest {
        run_id: "run-one".into(),
        tab_id: Some(3),
        remote_host: "example-host".into(),
        remote_dir: "/srv/project".into(),
        policy,
        receipt_dir: "receipts".into(),
    }
}

const NOW: &str = "2026-06-01T10:20:30Z";

#[test]
fn block_policy_stops_clean_divergence() {
    let mut remote = FakeRemote::new(vec![RemoteSnapshot::clean("head-a", "origin-b")]);
    let error = cleanup_remote_checkout(&mut remote, request(CleanupPolicy::Block), NOW.into()).expect_err("blocked");
    assert!(matches!(error, CleanupError::DivergentBlocked { .. }));
    assert!(remote.refs.is_empty());
}

#[test]
fn preserve_reset_creates_ref_writes_receipt_and_resets() {
    let mut remote = FakeRemote::new(vec![
        RemoteSnapshot::clean("head-a", "origin-b"),
        RemoteSnapshot::clean("head-a", "origin-c"),
        RemoteSnapshot::clean("origin-c", "origin-c"),
    ]);
    let receipt = cleanup_remote_checkout(&mut remote, request(CleanupPolicy::PreserveReset), NOW.into())
        .expect("preserve reset");
    assert_eq!(receipt.outcome, CleanupOutcome::PreservedReset);
    assert_eq!(receipt.preserved_sha.as_deref(), Some("head-a"));
    assert_eq!(remote.refs.len(), 1);
    assert!(remote.refs[0].0.starts_with("refs/heads/jailgun-preserved/run-one-"));
    assert_eq!(remote.reset_targets, vec!["origin-c"]);
    assert_eq!(remote.receipt_writes, 2);
    assert!(receipt.receipt_path.as_ref().expect("receipt path").starts_with("receipts/run-one"));
}

#[test]
fn dirty_remote_stops_before_preserve() {
    let mut remote = FakeRemote::new(vec![RemoteSnapshot::dirty("head-a", "origin-b", " M src/lib.rs")]);
    let error = cleanup_remote_checkout(&mut remote, request(CleanupPolicy::PreserveReset), NOW.into()).expect_err("dirty");
    assert!(matches!(error, CleanupError::DirtyRemote { .. }));
    assert!(remote.refs.is_empty());
}

#[test]
fn receipt_failure_stops_before_reset() {
    let mut remote = FakeRemote::new(vec![RemoteSnapshot::clean("head-a", "origin-b")]);
    remote.fail_receipt = true;
    let error = cleanup_remote_checkout(&mut remote, request(CleanupPolicy::PreserveReset), NOW.into())
        .expect_err("receipt failed");
    assert!(matches!(error, CleanupError::Receipt(_)));
    assert_eq!(remote.refs.len(), 1);
    assert!(remote.reset_targets.is_empty());
}

#[test]
fn ref_failure_stops_before_receipt_and_reset() {
    let mut remote = FakeRemote::new(vec![RemoteSnapshot::clean("head-a", "origin-b")]);
    remote.fail_ref = true;
    let error = cleanup_remote_checkout(&mut remote, request(CleanupPolicy::PreserveReset), NOW.into())
        .expect_err("ref failed");
    assert!(matches!(error, CleanupError::PreserveRef(_)));
    assert_eq!(remote.receipt_writes, 0);
    assert!(remote.reset_targets.is_empty());
}

#[test]
fn synced_remote_is_left_alone() {
    let mut remote = FakeRemote::new(vec![RemoteSnapshot::clean("abc", "abc")]);
    let receipt = cleanup_remote_checkout(&mut remote, request(CleanupPolicy::Block), NOW.into()).expect("synced");
    assert_eq!(receipt.outcome, CleanupOutcome::AlreadySynced);
    assert_eq!(receipt.run_id, "run-one");
    assert_eq!(receipt.tab_id, Some(3));
    assert!(remote.refs.is_empty());
    assert!(remote.reset_targets.is_empty());
    assert_eq!(remote.receipt_writes, 1);
}

#[test]
fn adopt_policy_keeps_divergent_head() {
    let mut remote = FakeRemote::new(vec![RemoteSnapshot::clean("head-a", "origin-b")]);
    let receipt = cleanup_remote_checkout(&mut remote, request(CleanupPolicy::Adopt), NOW.into()).expect("adopted");
    assert_eq!(receipt.outcome, CleanupOutcome::Adopted);
    assert!(remote.refs.is_empty());
    assert!(remote.reset_targets.is_empty());
}

#[test]
fn missing_head_and_origin_are_refused() {
    let snap = RemoteSnapshot { head: None, origin_main: Some("o".into()), status_short: String::new() };
    let mut remote = FakeRemote::new(vec![snap]);
    let error = cleanup_remote_checkout(&mut remote, request(CleanupPolicy::Adopt), NOW.into()).unwrap_err();
    assert_eq!(error, CleanupError::MissingHead);
    let snap = RemoteSnapshot { head: Some("h".into()), origin_main: None, status_short: String::new() };
    let mut remote = FakeRemote::new(vec![snap]);
    let error = cleanup_remote_checkout(&mut remote, request(CleanupPolicy::Adopt), NOW.into()).unwrap_err();
    assert_eq!(error, CleanupError::MissingOriginMain);
}

#[test]
fn fake_remote_git_divergent_scenario_resets_then_syncs() {
    let mut remote = FakeRemoteGit::new(FakeOutcome::CleanupDivergent);
    let receipt = cleanup_remote_checkout(&mut remote, request(CleanupPolicy::PreserveReset), NOW.into())
        .expect("fake divergent cleanup");
    assert_eq!(receipt.outcome, CleanupOutcome::PreservedReset);
    assert_eq!(receipt.reset_to.as_deref(), Some("head-fake-b"));
    assert_eq!(receipt.final_head.as_deref(), Some("head-fake-b"));
}

#[test]
fn fake_remote_git_success_scenario_is_synced() {
    let mut remote = FakeRemoteGit::new(FakeOutcome::Success);
    let receipt = cleanup_remote_checkout(&mut remote, request(CleanupPolicy::Block), NOW.into()).expect("synced");
    assert_eq!(receipt.outcome, CleanupOutcome::AlreadySynced);
}

#[test]
fn ref_fragments_are_sanitized() {
    assert_eq!(sanitize_ref_fragment("run one/two"), "run-one-two");
    assert_eq!(sanitize_ref_fragment("///"), "unknown");
}

#[test]
fn cleanup_policy_defaults_to_preserve_reset() {
    assert_eq!(CleanupPolicy::default(), CleanupPolicy::PreserveReset);
}
