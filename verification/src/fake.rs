//! Fake remote backends for end-to-end runs without a remote host: each
//! answers a deploy or cleanup step the same way every time, picked by a
//! named outcome.
use std::collections::VecDeque;
use vstd::prelude::*;
use crate::cleanup::{CleanupError, CleanupReceipt, RemoteGitBackend, RemoteSnapshot};
use crate::deploy::{CiState, JobHandle, JobPhase, JobSpec, JobStatus};
use crate::text::{decimal, decimal_pad2, opt_view, owned, push_pad2, push_str, str_eq};

verus! {

/// The scenario the fake backends play.
#[derive(Debug, Clone, Copy, PartialEq, Eq, Structural)]
pub enum FakeOutcome {
    Success,
    ShaMismatch,
    CommandFail,
    CiFail,
    CleanupDivergent,
}

/// The scenario a setting names; anything else is a success.
pub open spec fn fake_outcome_spec(value: Option<Seq<char>>) -> FakeOutcome {
    match value {
        Some(v) => if v == "sha-mismatch"@ {
            FakeOutcome::ShaMismatch
        } else if v == "command-fail"@ {
            FakeOutcome::CommandFail
        } else if v == "ci-fail"@ {
            FakeOutcome::CiFail
        } else if v == "cleanup-divergent"@ {
            FakeOutcome::CleanupDivergent
        } else {
            FakeOutcome::Success
        },
        None => FakeOutcome::Success,
    }
}

impl FakeOutcome {
    /// The scenario named by the `JAILGUN_FAKE_REMOTE_RESULT` setting
    /// (given as read from the environment).
    pub fn from_env(value: &Option<String>) -> (o: FakeOutcome)
        ensures
            o == fake_outcome_spec(opt_view(*value)),
    {
        match value {
            Some(v) => {
                let v = v.as_str();
                if str_eq(v, "sha-mismatch") {
                    FakeOutcome::ShaMismatch
                } else if str_eq(v, "command-fail") {
                    FakeOutcome::CommandFail
                } else if str_eq(v, "ci-fail") {
                    FakeOutcome::CiFail
                } else if str_eq(v, "cleanup-divergent") {
                    FakeOutcome::CleanupDivergent
                } else {
                    FakeOutcome::Success
                }
            },
            None => FakeOutcome::Success,
        }
    }
}

/// The scenario shared by the fake backends of a run.
#[derive(Debug)]
pub struct FakeBus {
    pub outcome: FakeOutcome,
}

impl FakeBus {
    /// The bus of the scenario the setting names.
    pub fn from_env(value: &Option<String>) -> (b: FakeBus)
        ensures
            b.outcome == fake_outcome_spec(opt_view(*value)),
    {
        FakeBus { outcome: FakeOutcome::from_env(value) }
    }
}

/// A snapshot of a clean checkout.
pub open spec fn clean_at(s: RemoteSnapshot, head: Seq<char>, origin_main: Seq<char>) -> bool {
    opt_view(s.head) == Some(head) && opt_view(s.origin_main) == Some(origin_main) && s.status_short@.len() == 0
}

/// A fake remote checkout: the snapshots it will show, in order.
pub struct FakeRemoteGit {
    pub outcome: FakeOutcome,
    pub snapshots: VecDeque<RemoteSnapshot>,
}

impl FakeRemoteGit {
    /// A checkout in sync with origin, or (for a divergent cleanup) one
    /// whose head differs twice before it matches.
    pub fn new(outcome: FakeOutcome) -> (g: FakeRemoteGit)
        ensures
            g.outcome == outcome,
            outcome == FakeOutcome::CleanupDivergent ==> g.snapshots@.len() == 3
                && clean_at(g.snapshots@[0], "head-fake-a"@, "head-fake-b"@)
                && clean_at(g.snapshots@[1], "head-fake-a"@, "head-fake-b"@)
                && clean_at(g.snapshots@[2], "head-fake-b"@, "head-fake-b"@),
            outcome != FakeOutcome::CleanupDivergent ==> g.snapshots@.len() == 1
                && clean_at(g.snapshots@[0], "head-fake-a"@, "head-fake-a"@),
    {
        let mut snapshots: VecDeque<RemoteSnapshot> = VecDeque::new();
        match outcome {
            FakeOutcome::CleanupDivergent => {
                snapshots.push_back(RemoteSnapshot::clean("head-fake-a", "head-fake-b"));
                snapshots.push_back(RemoteSnapshot::clean("head-fake-a", "head-fake-b"));
                snapshots.push_back(RemoteSnapshot::clean("head-fake-b", "head-fake-b"));
            },
            _ => {
                snapshots.push_back(RemoteSnapshot::clean("head-fake-a", "head-fake-a"));
            },
        }
        FakeRemoteGit { outcome, snapshots }
    }
}

impl RemoteGitBackend for FakeRemoteGit {
    /// The next snapshot, or an error once none is left.
    fn snapshot(&mut self, remote_dir: &str) -> (r: Result<RemoteSnapshot, CleanupError>)
        ensures
            final(self).outcome == old(self).outcome,
            old(self).snapshots@.len() > 0 ==> r == Ok::<RemoteSnapshot, CleanupError>(old(self).snapshots@[0])
                && final(self).snapshots@ == old(self).snapshots@.drop_first(),
            old(self).snapshots@.len() == 0 ==> (r matches Err(CleanupError::Backend(m)) && m@ == "no fake snapshot"@)
                && final(self).snapshots@ == old(self).snapshots@,
    {
        match self.snapshots.pop_front() {
            Some(s) => Ok(s),
            None => Err(CleanupError::Backend(owned("no fake snapshot"))),
        }
    }

    /// Fetching always succeeds.
    fn fetch_origin(&mut self, remote_dir: &str) -> (r: Result<(), CleanupError>)
        ensures
            r is Ok,
            final(self).outcome == old(self).outcome,
            final(self).snapshots@ == old(self).snapshots@,
    {
        Ok(())
    }

    /// Creating a ref always succeeds.
    fn create_ref(&mut self, remote_dir: &str, ref_name: &str, sha: &str) -> (r: Result<(), CleanupError>)
        ensures
            r is Ok,
            final(self).outcome == old(self).outcome,
            final(self).snapshots@ == old(self).snapshots@,
    {
        Ok(())
    }

    /// The path a cleanup receipt is reported written to: its own, or a
    /// fixed name.
    fn write_receipt(&mut self, receipt: &CleanupReceipt) -> (r: Result<String, CleanupError>)
        ensures
            final(self).outcome == old(self).outcome,
            final(self).snapshots@ == old(self).snapshots@,
            r matches Ok(p) && p@ == match receipt.receipt_path {
                Some(q) => q@,
                None => "fake-cleanup-receipt.json"@,
            },
    {
        match &receipt.receipt_path {
            Some(p) => Ok(p.clone()),
            None => Ok(owned("fake-cleanup-receipt.json")),
        }
    }

    /// A hard reset: in the divergent scenario the checkout is then in
    /// sync; otherwise nothing changes.
    fn reset_hard(&mut self, remote_dir: &str, target: &str) -> (r: Result<(), CleanupError>)
        ensures
            r is Ok,
            final(self).outcome == old(self).outcome,
            old(self).outcome == FakeOutcome::CleanupDivergent ==> final(self).snapshots@.len() == 1
                && clean_at(final(self).snapshots@[0], "head-fake-b"@, "head-fake-b"@),
            old(self).outcome != FakeOutcome::CleanupDivergent ==> final(self).snapshots@ == old(self).snapshots@,
    {
        if self.outcome == FakeOutcome::CleanupDivergent {
            let mut snapshots: VecDeque<RemoteSnapshot> = VecDeque::new();
            snapshots.push_back(RemoteSnapshot::clean("head-fake-b", "head-fake-b"));
            self.snapshots = snapshots;
        }
        Ok(())
    }
}

/// `n` copies of a character.
pub open spec fn repeat_char(c: char, n: nat) -> Seq<char> {
    Seq::new(n, |i: int| c)
}

fn repeat(c: char, n: usize) -> (r: String)
    ensures
        r@ == repeat_char(c, n as nat),
{
    let mut r = String::new();
    let mut i: usize = 0;
    while i < n
        invariant
            i <= n,
            r@ == repeat_char(c, i as nat),
        decreases n - i,
    {
        crate::text::push_char(&mut r, c);
        assert(r@ =~= repeat_char(c, (i + 1) as nat));
        i += 1;
    }
    r
}

/// A fake upload.
pub struct FakeRemoteUpload {
    pub outcome: FakeOutcome,
}

impl FakeRemoteUpload {
    /// A fake upload playing `outcome`.
    pub fn new(outcome: FakeOutcome) -> (u: FakeRemoteUpload)
        ensures
            u.outcome == outcome,
    {
        FakeRemoteUpload { outcome }
    }

    /// The digest of the uploaded archive: 64 zeros when the scenario is a
    /// mismatch, else the local digest (given as `JAILGUN_FAKE_LOCAL_SHA`)
    /// or 64 `a`s.
    pub fn remote_sha256(&self, local_sha: Option<String>) -> (r: String)
        ensures
            self.outcome == FakeOutcome::ShaMismatch ==> r@ == repeat_char('0', 64),
            self.outcome != FakeOutcome::ShaMismatch ==> r@ == match local_sha {
                Some(s) => s@,
                None => repeat_char('a', 64),
            },
    {
        if self.outcome == FakeOutcome::ShaMismatch {
            repeat('0', 64)
        } else {
            match local_sha {
                Some(s) => s,
                None => repeat('a', 64),
            }
        }
    }
}

/// `<run>-tab-<NN>`, the name of a fake job.
pub open spec fn fake_job_id(run_id: Seq<char>, tab_id: u16) -> Seq<char> {
    run_id + "-tab-"@ + decimal_pad2(tab_id as nat)
}

/// A fake job launcher.
pub struct FakeRemoteJob {
    pub outcome: FakeOutcome,
}

impl FakeRemoteJob {
    /// A fake job launcher playing `outcome`.
    pub fn new(outcome: FakeOutcome) -> (j: FakeRemoteJob)
        ensures
            j.outcome == outcome,
    {
        FakeRemoteJob { outcome }
    }

    /// The files of the fake job under `/tmp/jailgun-runs/<job>`.
    pub fn install_launcher(&self, spec: &JobSpec) -> (h: JobHandle)
        ensures
            h.job_id@ == fake_job_id(spec.run_id@, spec.tab_id),
            h.launcher_dir@ == "/tmp/jailgun-runs/"@ + h.job_id@,
            h.launcher_path@ == "/tmp/jailgun-runs/"@ + h.job_id@ + "/launch.sh"@,
            h.status_path@ == "/tmp/jailgun-runs/"@ + h.job_id@ + "/status.json"@,
            h.log_path@ == "/tmp/jailgun-runs/"@ + h.job_id@ + "/launch.log"@,
            h.failure_marker_path@ == "/tmp/jailgun-runs/"@ + h.job_id@ + "/deploy.failed"@,
    {
        let mut job_id = spec.run_id.clone();
        push_str(&mut job_id, "-tab-");
        push_pad2(&mut job_id, spec.tab_id as u64);
        let mut dir = owned("/tmp/jailgun-runs/");
        push_str(&mut dir, job_id.as_str());
        let mut launcher_path = dir.clone();
        push_str(&mut launcher_path, "/launch.sh");
        let mut status_path = dir.clone();
        push_str(&mut status_path, "/status.json");
        let mut log_path = dir.clone();
        push_str(&mut log_path, "/launch.log");
        let mut failure_marker_path = dir.clone();
        push_str(&mut failure_marker_path, "/deploy.failed");
        JobHandle { job_id, launcher_dir: dir, launcher_path, status_path, log_path, failure_marker_path }
    }

    /// The status of the fake job: failed and preserved in the command
    /// failure scenario, done with a small change otherwise.
    pub fn fetch_status(&self) -> (s: JobStatus)
        ensures
            self.outcome == FakeOutcome::CommandFail ==> {
                &&& s.phase == JobPhase::FailedPreserved
                &&& s.exit_code == Some(23i32)
                &&& opt_view(s.pre_head) == Some("head-fake-a"@)
                &&& opt_view(s.post_head) == Some("head-fake-b"@)
                &&& opt_view(s.preserved_ref) == Some("jailgun-failed/fake-tab-01"@)
                &&& opt_view(s.preserved_stash_ref) == Some("jailgun-failed/fake-tab-01-stash"@)
                &&& opt_view(s.failure_reason) == Some("remote-command-failed"@)
                &&& s.reset_ok == Some(true)
                &&& s.log_tail is None
                &&& s.files_changed is None && s.additions is None && s.deletions is None
                &&& s.top_paths@.len() == 0
            },
            self.outcome != FakeOutcome::CommandFail ==> {
                &&& s.phase == JobPhase::Done
                &&& s.exit_code == Some(0i32)
                &&& opt_view(s.pre_head) == Some("head-fake-a"@)
                &&& opt_view(s.post_head) == Some("head-fake-c"@)
                &&& s.preserved_ref is None && s.preserved_stash_ref is None
                &&& s.failure_reason is None && s.reset_ok is None && s.log_tail is None
                &&& s.files_changed == Some(3u32) && s.additions == Some(15u32) && s.deletions == Some(2u32)
                &&& crate::text::views(s.top_paths@) == seq!["README.md"@, "src/lib.rs"@]
            },
    {
        if self.outcome == FakeOutcome::CommandFail {
            JobStatus {
                phase: JobPhase::FailedPreserved,
                exit_code: Some(23),
                pre_head: Some(owned("head-fake-a")),
                post_head: Some(owned("head-fake-b")),
                preserved_ref: Some(owned("jailgun-failed/fake-tab-01")),
                preserved_stash_ref: Some(owned("jailgun-failed/fake-tab-01-stash")),
                failure_reason: Some(owned("remote-command-failed")),
                reset_ok: Some(true),
                log_tail: None,
                files_changed: None,
                additions: None,
                deletions: None,
                top_paths: Vec::new(),
            }
        } else {
            let mut top_paths: Vec<String> = Vec::new();
            top_paths.push(owned("README.md"));
            top_paths.push(owned("src/lib.rs"));
            assert(crate::text::views(top_paths@) =~= seq!["README.md"@, "src/lib.rs"@]);
            JobStatus {
                phase: JobPhase::Done,
                exit_code: Some(0),
                pre_head: Some(owned("head-fake-a")),
                post_head: Some(owned("head-fake-c")),
                preserved_ref: None,
                preserved_stash_ref: None,
                failure_reason: None,
                reset_ok: None,
                log_tail: None,
                files_changed: Some(3),
                additions: Some(15),
                deletions: Some(2),
                top_paths,
            }
        }
    }

    /// The fake job's log.
    pub fn fetch_log_tail(&self) -> (r: String)
        ensures
            r@ == "fake remote log\nbuild ok\n"@,
    {
        owned("fake remote log\nbuild ok\n")
    }
}

/// A fake CI tracker.
pub struct FakeCiTracker {
    pub outcome: FakeOutcome,
}

impl FakeCiTracker {
    /// A fake CI tracker playing `outcome`.
    pub fn new(outcome: FakeOutcome) -> (t: FakeCiTracker)
        ensures
            t.outcome == outcome,
    {
        FakeCiTracker { outcome }
    }

    /// The CI state it reports: run 100 failed when the outcome is a CI
    /// failure, run 101 passed otherwise.
    pub fn check(&self) -> (s: CiState)
        ensures
            self.outcome == FakeOutcome::CiFail ==> (s matches CiState::Failed { run_id, run_url, conclusion, log_excerpt }
                && run_id@ == "100"@ && run_url@ == "https://example.invalid/actions/runs/100"@
                && conclusion@ == "failure"@ && log_excerpt is None),
            self.outcome != FakeOutcome::CiFail ==> (s matches CiState::Passed { run_id, run_url, conclusion }
                && run_id@ == "101"@ && run_url@ == "https://example.invalid/actions/runs/101"@
                && conclusion@ == "success"@),
    {
        if self.outcome == FakeOutcome::CiFail {
            CiState::Failed {
                run_id: owned("100"),
                run_url: owned("https://example.invalid/actions/runs/100"),
                conclusion: owned("failure"),
                log_excerpt: None,
            }
        } else {
            CiState::Passed {
                run_id: owned("101"),
                run_url: owned("https://example.invalid/actions/runs/101"),
                conclusion: owned("success"),
            }
        }
    }

    /// The fake failure log.
    pub fn capture_failure_log(&self) -> (r: String)
        ensures
            r@ == "--- fake failure log excerpt ---"@,
    {
        owned("--- fake failure log excerpt ---")
    }
}

/// Writes deploy receipts under a root directory.
pub struct FakeReceiptWriter {
    pub root: String,
}

impl FakeReceiptWriter {
    /// A writer of receipts under `root`.
    pub fn new(root: String) -> (w: FakeReceiptWriter)
        ensures
            w.root == root,
    {
        FakeReceiptWriter { root }
    }

    /// Where a deploy receipt goes: `<root>/<run>/<run>-tab-<NN>-deploy.json`.
    pub fn receipt_path(&self, run_id: &str, tab_id: u16) -> (r: String)
        ensures
            r@ == crate::text::path_join(
                crate::text::path_join(self.root@, run_id@),
                run_id@ + "-tab-"@ + decimal_pad2(tab_id as nat) + "-deploy.json"@,
            ),
    {
        let dir = crate::text::join_path(self.root.as_str(), run_id);
        let mut name = owned(run_id);
        push_str(&mut name, "-tab-");
        push_pad2(&mut name, tab_id as u64);
        push_str(&mut name, "-deploy.json");
        crate::text::join_path(dir.as_str(), name.as_str())
    }
}

} // verus!
