//! Remote deploy: the data of a deploy, the decisions that classify its
//! outcome, and the machine that drives one deploy through upload,
//! launcher, status polling, CI tracking and the final receipt.
use vstd::prelude::*;
use crate::cleanup::{sanitize_ref_fragment, sanitize_spec, CleanupError, CleanupPolicy};
use crate::cleanup::cleanup_error_message;
use crate::event::{EventKind, JailgunEvent, Severity};
use crate::text::{
    clone_opt, decimal, decimal_pad2, decimal_string, is_blank, opt_view, owned, push_decimal,
    push_pad2, push_str, str_eq, trim_seq,
};

verus! {

// ---------------------------------------------------------------------
// Job and CI data
// ---------------------------------------------------------------------

/// Where the remote launcher says the job is.
#[derive(Debug, Clone, Copy, PartialEq, Eq)]
pub enum JobPhase {
    Queued,
    Uploading,
    UploadVerified,
    Running,
    Unpacking,
    CommandRunning,
    Done,
    FailedPreserved,
    Failed,
    MissingStatus,
}

impl JobPhase {
    pub open spec fn is_terminal_spec(self) -> bool {
        self == JobPhase::Done || self == JobPhase::FailedPreserved || self == JobPhase::Failed
    }

    /// Done, preserved failure and hard failure end a job.
    pub fn is_terminal(&self) -> (r: bool)
        ensures
            r == self.is_terminal_spec(),
    {
        match self {
            JobPhase::Done | JobPhase::FailedPreserved | JobPhase::Failed => true,
            _ => false,
        }
    }
}

/// The status file a launcher writes.
#[derive(Debug, Clone, PartialEq, Eq)]
pub struct JobStatus {
    pub phase: JobPhase,
    pub exit_code: Option<i32>,
    pub pre_head: Option<String>,
    pub post_head: Option<String>,
    pub preserved_ref: Option<String>,
    pub preserved_stash_ref: Option<String>,
    pub failure_reason: Option<String>,
    pub reset_ok: Option<bool>,
    pub log_tail: Option<String>,
    pub files_changed: Option<u32>,
    pub additions: Option<u32>,
    pub deletions: Option<u32>,
    pub top_paths: Vec<String>,
}

impl JobStatus {
    /// The status of a job that has not reported yet.
    pub fn missing() -> (s: JobStatus)
        ensures
            s.phase == JobPhase::MissingStatus,
            s.exit_code.is_none(),
            s.pre_head.is_none(),
            s.post_head.is_none(),
            s.preserved_ref.is_none(),
            s.preserved_stash_ref.is_none(),
            s.failure_reason.is_none(),
            s.reset_ok.is_none(),
            s.log_tail.is_none(),
            s.top_paths@.len() == 0,
    {
        JobStatus {
            phase: JobPhase::MissingStatus,
            exit_code: None,
            pre_head: None,
            post_head: None,
            preserved_ref: None,
            preserved_stash_ref: None,
            failure_reason: None,
            reset_ok: None,
            log_tail: None,
            files_changed: None,
            additions: None,
            deletions: None,
            top_paths: Vec::new(),
        }
    }

    /// A field-by-field copy.
    pub fn clone_status(&self) -> (r: JobStatus)
        ensures
            r.phase == self.phase,
            r.exit_code == self.exit_code,
            r.pre_head == self.pre_head,
            r.post_head == self.post_head,
            r.preserved_ref == self.preserved_ref,
            r.preserved_stash_ref == self.preserved_stash_ref,
            r.failure_reason == self.failure_reason,
            r.reset_ok == self.reset_ok,
            r.log_tail == self.log_tail,
            r.files_changed == self.files_changed,
            r.additions == self.additions,
            r.deletions == self.deletions,
            r.top_paths@ == self.top_paths@,
    {
        let mut paths: Vec<String> = Vec::new();
        let mut i: usize = 0;
        while i < self.top_paths.len()
            invariant
                i <= self.top_paths.len(),
                paths@ == self.top_paths@.take(i as int),
            decreases self.top_paths.len() - i,
        {
            paths.push(self.top_paths[i].clone());
            assert(self.top_paths@.take(i + 1) == self.top_paths@.take(i as int).push(
                self.top_paths@[i as int],
            ));
            i += 1;
        }
        assert(self.top_paths@.take(self.top_paths@.len() as int) == self.top_paths@);
        JobStatus {
            phase: self.phase,
            exit_code: self.exit_code,
            pre_head: clone_opt(&self.pre_head),
            post_head: clone_opt(&self.post_head),
            preserved_ref: clone_opt(&self.preserved_ref),
            preserved_stash_ref: clone_opt(&self.preserved_stash_ref),
            failure_reason: clone_opt(&self.failure_reason),
            reset_ok: self.reset_ok,
            log_tail: clone_opt(&self.log_tail),
            files_changed: self.files_changed,
            additions: self.additions,
            deletions: self.deletions,
            top_paths: paths,
        }
    }
}

/// The remote files of one launched job.
#[derive(Debug, Clone, PartialEq, Eq)]
pub struct JobHandle {
    pub job_id: String,
    pub launcher_dir: String,
    pub launcher_path: String,
    pub status_path: String,
    pub log_path: String,
    pub failure_marker_path: String,
}

/// What the launcher is asked to run.
#[derive(Debug, Clone, PartialEq, Eq)]
pub struct JobSpec {
    pub run_id: String,
    pub tab_id: u16,
    pub remote_dir: String,
    pub remote_archive_path: String,
    pub remote_command: String,
    pub strip_components: u16,
    pub local_sha256: String,
    pub remote_sha256: String,
    pub stash_on_failure: bool,
}

/// What the CI tracker last saw for a commit.
#[derive(Debug, Clone, PartialEq, Eq)]
pub enum CiState {
    Pending { run_id: Option<String> },
    Passed { run_id: String, run_url: String, conclusion: String },
    Failed { run_id: String, run_url: String, conclusion: String, log_excerpt: Option<String> },
    Skipped { reason: String },
    Unknown,
}

impl CiState {
    pub open spec fn is_terminal_spec(&self) -> bool {
        self is Passed || self is Failed || self is Skipped
    }

    /// Passed, failed and skipped are final CI states.
    pub fn is_terminal(&self) -> (r: bool)
        ensures
            r == self.is_terminal_spec(),
    {
        match self {
            CiState::Passed { .. } | CiState::Failed { .. } | CiState::Skipped { .. } => true,
            _ => false,
        }
    }
}

// ---------------------------------------------------------------------
// Requests, receipts, outcomes, errors
// ---------------------------------------------------------------------

/// One deploy of one archive.
#[derive(Debug, Clone, PartialEq, Eq)]
pub struct DeployRequest {
    pub run_id: String,
    pub tab_id: u16,
    pub remote_host: String,
    pub remote_dir: String,
    pub remote_command: String,
    pub remote_archive_basename: String,
    pub local_archive_path: String,
    pub strip_components: u16,
    pub cleanup_policy: CleanupPolicy,
    pub receipt_dir: String,
    pub status_poll_seconds: u16,
    pub status_max_minutes: u16,
    pub ci_tracker_enabled: bool,
    pub ci_branch: String,
    pub ci_max_attempts: u32,
    pub ci_poll_seconds: u16,
    pub stash_on_failure: bool,
    pub dry_run: bool,
}

/// How a deploy ended.
#[derive(Debug, Clone, Copy, PartialEq, Eq)]
pub enum DeployOutcome {
    Succeeded,
    SucceededCiFailed,
    SucceededCiSkipped,
    FailedPreserved,
    FailedHard,
    UploadShaMismatch,
    TimedOut,
    DryRunStaged,
}

/// The durable record of a deploy.
#[derive(Debug, Clone, PartialEq, Eq)]
pub struct DeployReceipt {
    pub run_id: String,
    pub tab_id: u16,
    pub remote_host: String,
    pub remote_dir: String,
    pub started_at: String,
    pub finished_at: String,
    pub local_archive_path: String,
    pub local_sha256: String,
    pub remote_sha256: String,
    pub remote_archive_path: String,
    pub job_handle: JobHandle,
    pub final_status: JobStatus,
    pub ci_state: CiState,
    pub log_tail: String,
    pub outcome: DeployOutcome,
    pub receipt_path: Option<String>,
}

/// Why a deploy stopped.
#[derive(Debug, Clone, PartialEq, Eq)]
pub enum DeployError {
    Ssh(String),
    Scp(String),
    ShaMismatch { local: String, remote: String },
    RemoteDirPrep(String),
    LauncherInstall(String),
    LauncherStart(String),
    StatusFetch(String),
    StatusParse(String),
    LogFetch(String),
    Timeout(u16),
    CiTracker(String),
    Receipt(String),
    Io(String),
    Serde(String),
    Cleanup(CleanupError),
    Sha256(String),
}

/// The human-readable message of a deploy error.
pub open spec fn deploy_error_message(e: DeployError) -> Seq<char> {
    match e {
        DeployError::Ssh(s) => "ssh transport failure: "@ + s@,
        DeployError::Scp(s) => "scp transport failure: "@ + s@,
        DeployError::ShaMismatch { local, remote } => "remote sha256 mismatch: local="@ + local@
            + " remote="@ + remote@,
        DeployError::RemoteDirPrep(s) => "remote dir preparation failed: "@ + s@,
        DeployError::LauncherInstall(s) => "launcher install failed: "@ + s@,
        DeployError::LauncherStart(s) => "launcher start failed: "@ + s@,
        DeployError::StatusFetch(s) => "status fetch failed: "@ + s@,
        DeployError::StatusParse(s) => "status parse failed: "@ + s@,
        DeployError::LogFetch(s) => "log fetch failed: "@ + s@,
        DeployError::Timeout(m) => "deploy timed out after "@ + decimal(m as nat) + " minute(s)"@,
        DeployError::CiTracker(s) => "CI tracker error: "@ + s@,
        DeployError::Receipt(s) => "receipt write failed: "@ + s@,
        DeployError::Io(s) => "io error: "@ + s@,
        DeployError::Serde(s) => "serde error: "@ + s@,
        DeployError::Cleanup(c) => "cleanup error: "@ + cleanup_error_message(c),
        DeployError::Sha256(s) => "sha256 error: "@ + s@,
    }
}

impl DeployError {
    /// The message a user sees for this error.
    pub fn message(&self) -> (s: String)
        ensures
            s@ == deploy_error_message(*self),
    {
        let mut s = String::new();
        match self {
            DeployError::Ssh(m) => {
                push_str(&mut s, "ssh transport failure: ");
                push_str(&mut s, m.as_str());
            },
            DeployError::Scp(m) => {
                push_str(&mut s, "scp transport failure: ");
                push_str(&mut s, m.as_str());
            },
            DeployError::ShaMismatch { local, remote } => {
                push_str(&mut s, "remote sha256 mismatch: local=");
                push_str(&mut s, local.as_str());
                push_str(&mut s, " remote=");
                push_str(&mut s, remote.as_str());
            },
            DeployError::RemoteDirPrep(m) => {
                push_str(&mut s, "remote dir preparation failed: ");
                push_str(&mut s, m.as_str());
            },
            DeployError::LauncherInstall(m) => {
                push_str(&mut s, "launcher install failed: ");
                push_str(&mut s, m.as_str());
            },
            DeployError::LauncherStart(m) => {
                push_str(&mut s, "launcher start failed: ");
                push_str(&mut s, m.as_str());
            },
            DeployError::StatusFetch(m) => {
                push_str(&mut s, "status fetch failed: ");
                push_str(&mut s, m.as_str());
            },
            DeployError::StatusParse(m) => {
                push_str(&mut s, "status parse failed: ");
                push_str(&mut s, m.as_str());
            },
            DeployError::LogFetch(m) => {
                push_str(&mut s, "log fetch failed: ");
                push_str(&mut s, m.as_str());
            },
            DeployError::Timeout(m) => {
                push_str(&mut s, "deploy timed out after ");
                push_decimal(&mut s, *m as u64);
                push_str(&mut s, " minute(s)");
            },
            DeployError::CiTracker(m) => {
                push_str(&mut s, "CI tracker error: ");
                push_str(&mut s, m.as_str());
            },
            DeployError::Receipt(m) => {
                push_str(&mut s, "receipt write failed: ");
                push_str(&mut s, m.as_str());
            },
            DeployError::Io(m) => {
                push_str(&mut s, "io error: ");
                push_str(&mut s, m.as_str());
            },
            DeployError::Serde(m) => {
                push_str(&mut s, "serde error: ");
                push_str(&mut s, m.as_str());
            },
            DeployError::Cleanup(c) => {
                push_str(&mut s, "cleanup error: ");
                let m = c.message();
                push_str(&mut s, m.as_str());
            },
            DeployError::Sha256(m) => {
                push_str(&mut s, "sha256 error: ");
                push_str(&mut s, m.as_str());
            },
        }
        s
    }
}

// ---------------------------------------------------------------------
// Labels and classification
// ---------------------------------------------------------------------

/// The wire label of a job phase.
pub open spec fn phase_label(phase: JobPhase) -> Seq<char> {
    match phase {
        JobPhase::Queued => "queued"@,
        JobPhase::Uploading => "uploading"@,
        JobPhase::UploadVerified => "upload-verified"@,
        JobPhase::Running => "running"@,
        JobPhase::Unpacking => "unpacking"@,
        JobPhase::CommandRunning => "command-running"@,
        JobPhase::Done => "done"@,
        JobPhase::FailedPreserved => "failed-preserved"@,
        JobPhase::Failed => "failed"@,
        JobPhase::MissingStatus => "missing-status"@,
    }
}

/// The wire label of a job phase.
pub fn phase_str(phase: &JobPhase) -> (s: &'static str)
    ensures
        s@ == phase_label(*phase),
{
    match phase {
        JobPhase::Queued => "queued",
        JobPhase::Uploading => "uploading",
        JobPhase::UploadVerified => "upload-verified",
        JobPhase::Running => "running",
        JobPhase::Unpacking => "unpacking",
        JobPhase::CommandRunning => "command-running",
        JobPhase::Done => "done",
        JobPhase::FailedPreserved => "failed-preserved",
        JobPhase::Failed => "failed",
        JobPhase::MissingStatus => "missing-status",
    }
}

/// The wire label of a deploy outcome.
pub open spec fn outcome_label(outcome: DeployOutcome) -> Seq<char> {
    match outcome {
        DeployOutcome::Succeeded => "succeeded"@,
        DeployOutcome::SucceededCiFailed => "succeeded-ci-failed"@,
        DeployOutcome::SucceededCiSkipped => "succeeded-ci-skipped"@,
        DeployOutcome::FailedPreserved => "failed-preserved"@,
        DeployOutcome::FailedHard => "failed-hard"@,
        DeployOutcome::UploadShaMismatch => "upload-sha-mismatch"@,
        DeployOutcome::TimedOut => "timed-out"@,
        DeployOutcome::DryRunStaged => "dry-run-staged"@,
    }
}

/// The wire label of a deploy outcome.
pub fn outcome_str(outcome: DeployOutcome) -> (s: &'static str)
    ensures
        s@ == outcome_label(outcome),
{
    match outcome {
        DeployOutcome::Succeeded => "succeeded",
        DeployOutcome::SucceededCiFailed => "succeeded-ci-failed",
        DeployOutcome::SucceededCiSkipped => "succeeded-ci-skipped",
        DeployOutcome::FailedPreserved => "failed-preserved",
        DeployOutcome::FailedHard => "failed-hard",
        DeployOutcome::UploadShaMismatch => "upload-sha-mismatch",
        DeployOutcome::TimedOut => "timed-out",
        DeployOutcome::DryRunStaged => "dry-run-staged",
    }
}

/// The label the run reports for a deploy outcome (the wire label).
pub fn deploy_outcome_label(outcome: DeployOutcome) -> (s: &'static str)
    ensures
        s@ == outcome_label(outcome),
{
    outcome_str(outcome)
}

/// The outcomes that count as a successful deploy.
pub open spec fn outcome_succeeded_spec(outcome: DeployOutcome) -> bool {
    outcome == DeployOutcome::Succeeded || outcome == DeployOutcome::SucceededCiSkipped || outcome
        == DeployOutcome::DryRunStaged
}

/// Whether a deploy outcome counts as a successful tab: succeeded,
/// succeeded with CI skipped, or staged by a dry run.  A preserved failure
/// and a CI failure are not successes.
pub fn deploy_outcome_succeeded(outcome: DeployOutcome) -> (r: bool)
    ensures
        r == outcome_succeeded_spec(outcome),
{
    match outcome {
        DeployOutcome::Succeeded | DeployOutcome::SucceededCiSkipped
        | DeployOutcome::DryRunStaged => true,
        _ => false,
    }
}

/// The outcome a terminal job phase gives before CI is considered.
pub open spec fn outcome_before_ci_spec(phase: JobPhase) -> DeployOutcome {
    match phase {
        JobPhase::Done => DeployOutcome::Succeeded,
        JobPhase::FailedPreserved => DeployOutcome::FailedPreserved,
        JobPhase::Failed => DeployOutcome::FailedHard,
        _ => DeployOutcome::TimedOut,
    }
}

/// Done succeeds, a preserved failure stays preserved, a failure is hard,
/// anything else counts as timed out.
pub fn outcome_before_ci(phase: JobPhase) -> (o: DeployOutcome)
    ensures
        o == outcome_before_ci_spec(phase),
{
    match phase {
        JobPhase::Done => DeployOutcome::Succeeded,
        JobPhase::FailedPreserved => DeployOutcome::FailedPreserved,
        JobPhase::Failed => DeployOutcome::FailedHard,
        _ => DeployOutcome::TimedOut,
    }
}

/// The outcome once the CI state is known.
pub open spec fn final_outcome_spec(pre: DeployOutcome, ci: CiState) -> DeployOutcome {
    if pre == DeployOutcome::Succeeded && ci is Failed {
        DeployOutcome::SucceededCiFailed
    } else if pre == DeployOutcome::Succeeded && ci is Skipped {
        DeployOutcome::SucceededCiSkipped
    } else {
        pre
    }
}

/// CI changes only the outcome of a job that succeeded: a failed CI run
/// never leaves it a plain success, but makes it a success with failed CI
/// (`succeeded-ci-failed`), which does not count as a successful deploy; a
/// skipped CI run makes it a success with CI skipped; every other outcome
/// stands whatever CI says.
pub proof fn lemma_final_outcome(pre: DeployOutcome, ci: CiState)
    ensures
        ci is Failed ==> final_outcome_spec(pre, ci) != DeployOutcome::Succeeded,
        pre == DeployOutcome::Succeeded && ci is Failed ==> final_outcome_spec(pre, ci)
            == DeployOutcome::SucceededCiFailed && !outcome_succeeded_spec(final_outcome_spec(pre, ci))
            && outcome_label(final_outcome_spec(pre, ci)) == "succeeded-ci-failed"@,
        pre == DeployOutcome::Succeeded && ci is Skipped ==> final_outcome_spec(pre, ci)
            == DeployOutcome::SucceededCiSkipped,
        pre == DeployOutcome::Succeeded && !(ci is Failed) && !(ci is Skipped) ==> final_outcome_spec(pre, ci)
            == DeployOutcome::Succeeded,
        pre != DeployOutcome::Succeeded ==> final_outcome_spec(pre, ci) == pre,
        outcome_succeeded_spec(final_outcome_spec(pre, ci)) ==> !(pre == DeployOutcome::Succeeded && ci is Failed),
{
}

/// A success with failed CI or skipped CI is reported as such; every other
/// outcome stands.
pub fn final_outcome(pre: DeployOutcome, ci: &CiState) -> (o: DeployOutcome)
    ensures
        o == final_outcome_spec(pre, *ci),
{
    match (pre, ci) {
        (DeployOutcome::Succeeded, CiState::Failed { .. }) => DeployOutcome::SucceededCiFailed,
        (DeployOutcome::Succeeded, CiState::Skipped { .. }) => DeployOutcome::SucceededCiSkipped,
        (other, _) => other,
    }
}

/// CI is tracked when the job succeeded, tracking is enabled, the job
/// reported a non-empty new head, and that head differs from the old one.
pub open spec fn should_track_ci_spec(pre: DeployOutcome, enabled: bool, status: JobStatus) -> bool {
    pre == DeployOutcome::Succeeded && enabled && match status.post_head {
        Some(h) => h@.len() > 0,
        None => false,
    } && opt_view(status.pre_head) != opt_view(status.post_head)
}

/// Whether CI should be tracked for a finished job.
pub fn should_track_ci(pre: DeployOutcome, enabled: bool, status: &JobStatus) -> (r: bool)
    ensures
        r == should_track_ci_spec(pre, enabled, *status),
{
    if !(matches!(pre, DeployOutcome::Succeeded) && enabled) {
        return false;
    }
    let nonempty = match &status.post_head {
        Some(h) => h.as_str().unicode_len() > 0,
        None => false,
    };
    if !nonempty {
        return false;
    }
    let same = match (&status.pre_head, &status.post_head) {
        (Some(a), Some(b)) => str_eq(a.as_str(), b.as_str()),
        (None, None) => true,
        _ => false,
    };
    !same
}

/// `<sanitized run>-tab-<NN>`, the name of a deploy job.
pub open spec fn job_id_spec(run_id: Seq<char>, tab_id: u16) -> Seq<char> {
    sanitize_spec(run_id) + "-tab-"@ + decimal_pad2(tab_id as nat)
}

/// The job id of a deploy.
pub fn job_id(run_id: &str, tab_id: u16) -> (s: String)
    ensures
        s@ == job_id_spec(run_id@, tab_id),
{
    let mut s = sanitize_ref_fragment(run_id);
    push_str(&mut s, "-tab-");
    push_pad2(&mut s, tab_id as u64);
    s
}

/// `/tmp/jailgun-runs/<job>/uploads`, where archives are uploaded.
pub open spec fn upload_dir_spec(run_id: Seq<char>, tab_id: u16) -> Seq<char> {
    "/tmp/jailgun-runs/"@ + job_id_spec(run_id, tab_id) + "/uploads"@
}

/// The upload directory of a deploy.
pub fn upload_dir(run_id: &str, tab_id: u16) -> (s: String)
    ensures
        s@ == upload_dir_spec(run_id@, tab_id),
{
    let mut s = owned("/tmp/jailgun-runs/");
    let j = job_id(run_id, tab_id);
    push_str(&mut s, j.as_str());
    push_str(&mut s, "/uploads");
    s
}

/// The remote path of the uploaded archive.
pub fn remote_archive_path(upload_dir: &str, basename: &str) -> (s: String)
    ensures
        s@ == upload_dir@ + "/"@ + basename@,
{
    let mut s = owned(upload_dir);
    push_str(&mut s, "/");
    push_str(&mut s, basename);
    s
}

} // verus!
