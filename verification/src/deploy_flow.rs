//! The course of one remote deploy, as a machine: the caller performs each
//! action (hashing input, SSH, polling, CI queries, receipt writing) and
//! hands back what came of it; the machine decides the next action and the
//! events the run publishes on the way.
use vstd::prelude::*;
use crate::clock::timestamp_now;
use crate::deploy::{
    deploy_error_message, final_outcome, final_outcome_spec, outcome_before_ci,
    outcome_before_ci_spec, outcome_label, outcome_str, phase_label, phase_str, should_track_ci,
    should_track_ci_spec, upload_dir, upload_dir_spec, CiState, DeployError, DeployOutcome,
    DeployReceipt, DeployRequest, JobHandle, JobPhase, JobSpec, JobStatus,
};
use crate::digest::{hex_spec, sha256_hex, sha256_spec};
use crate::event::{EventKind, JailgunEvent, Severity};
use crate::text::{
    clone_opt, decimal, log_tail_spec, owned, push_decimal, push_signed, push_str,
    signed_decimal, str_eq, truncate_log_tail,
};

verus! {

// ---------------------------------------------------------------------
// Events published during a deploy
// ---------------------------------------------------------------------

/// `m` with `k` bound to the view of `o`, when `o` holds a value.
pub open spec fn opt_insert(
    m: Map<Seq<char>, Seq<char>>,
    k: Seq<char>,
    o: Option<String>,
) -> Map<Seq<char>, Seq<char>> {
    match o {
        Some(v) => m.insert(k, v@),
        None => m,
    }
}

/// `e` is an event of the deploy's run and tab with this kind, message,
/// severity and fields.
pub open spec fn tab_event_is(
    e: JailgunEvent,
    req: DeployRequest,
    kind: EventKind,
    message: Seq<char>,
    severity: Severity,
    fields: Map<Seq<char>, Seq<char>>,
) -> bool {
    &&& e.wf()
    &&& e.run_id@ == req.run_id@
    &&& e.tab_id == Some(req.tab_id)
    &&& e.kind == kind
    &&& e.message@ == message
    &&& e.severity == severity
    &&& e.fields@ == fields
}

/// Two events agree on everything but their fields.
pub open spec fn same_header(a: JailgunEvent, b: JailgunEvent) -> bool {
    &&& a.run_id == b.run_id
    &&& a.kind == b.kind
    &&& a.message == b.message
    &&& a.tab_id == b.tab_id
    &&& a.severity == b.severity
}

fn tab_event(req: &DeployRequest, kind: EventKind, message: &str, severity: Severity) -> (e:
    JailgunEvent)
    ensures
        tab_event_is(e, *req, kind, message@, severity, Map::empty()),
{
    JailgunEvent::new(req.run_id.as_str(), kind, message).with_tab(req.tab_id).with_severity(
        severity,
    )
}

fn with_opt(e: JailgunEvent, key: &str, v: &Option<String>) -> (r: JailgunEvent)
    requires
        e.wf(),
    ensures
        r.wf(),
        same_header(r, e),
        r.fields@ == opt_insert(e.fields@, key@, *v),
{
    match v {
        Some(s) => e.with_field(key, s.as_str()),
        None => e,
    }
}

/// The fields of the queued event.
pub open spec fn queued_fields(req: DeployRequest, local_sha: Seq<char>) -> Map<
    Seq<char>,
    Seq<char>,
> {
    Map::empty().insert("local_sha256"@, local_sha).insert(
        "local_archive_path"@,
        req.local_archive_path@,
    ).insert("remote_host"@, req.remote_host@).insert("remote_dir"@, req.remote_dir@)
}

/// Announces a deploy once the local archive is hashed.
pub fn queued_event(req: &DeployRequest, local_sha: &str) -> (e: JailgunEvent)
    ensures
        tab_event_is(
            e,
            *req,
            EventKind::DeployQueued,
            "deploy queued"@,
            Severity::Info,
            queued_fields(*req, local_sha@),
        ),
{
    tab_event(req, EventKind::DeployQueued, "deploy queued", Severity::Info).with_field(
        "local_sha256",
        local_sha,
    ).with_field("local_archive_path", req.local_archive_path.as_str()).with_field(
        "remote_host",
        req.remote_host.as_str(),
    ).with_field("remote_dir", req.remote_dir.as_str())
}

/// `deploy step <step> failed`.
pub open spec fn step_error_message(step: Seq<char>) -> Seq<char> {
    "deploy step "@ + step + " failed"@
}

/// The fields of a failed step: the step and the error's message.
pub open spec fn step_error_fields(step: Seq<char>, err: DeployError) -> Map<Seq<char>, Seq<char>> {
    Map::empty().insert("phase"@, step).insert("error"@, deploy_error_message(err))
}

/// Reports a deploy step that failed.
pub fn step_error_event(req: &DeployRequest, step: &str, err: &DeployError) -> (e: JailgunEvent)
    ensures
        tab_event_is(
            e,
            *req,
            EventKind::Error,
            step_error_message(step@),
            Severity::Error,
            step_error_fields(step@, *err),
        ),
{
    let mut m = owned("deploy step ");
    push_str(&mut m, step);
    push_str(&mut m, " failed");
    let msg = err.message();
    tab_event(req, EventKind::Error, m.as_str(), Severity::Error).with_field("phase", step).with_field(
        "error",
        msg.as_str(),
    )
}

/// The fields of the checksum mismatch event.
pub open spec fn mismatch_fields(local: Seq<char>, remote: Seq<char>) -> Map<Seq<char>, Seq<char>> {
    Map::empty().insert("local_sha256"@, local).insert("remote_sha256"@, remote).insert(
        "outcome"@,
        "upload-sha-mismatch"@,
    )
}

/// Reports an upload whose remote checksum differs from the local one.
pub fn mismatch_event(req: &DeployRequest, local: &str, remote: &str) -> (e: JailgunEvent)
    ensures
        tab_event_is(
            e,
            *req,
            EventKind::DeployFinished,
            "remote sha mismatch"@,
            Severity::Error,
            mismatch_fields(local@, remote@),
        ),
{
    tab_event(req, EventKind::DeployFinished, "remote sha mismatch", Severity::Error).with_field(
        "local_sha256",
        local,
    ).with_field("remote_sha256", remote).with_field("outcome", "upload-sha-mismatch")
}

/// The fields of the upload-verified event.
pub open spec fn verified_fields(remote: Seq<char>) -> Map<Seq<char>, Seq<char>> {
    Map::empty().insert("phase"@, "upload-verified"@).insert("remote_sha256"@, remote)
}

/// Reports an upload whose checksum matched.
pub fn verified_event(req: &DeployRequest, remote: &str) -> (e: JailgunEvent)
    ensures
        tab_event_is(
            e,
            *req,
            EventKind::RemoteSafety,
            "upload verified"@,
            Severity::Info,
            verified_fields(remote@),
        ),
{
    tab_event(req, EventKind::RemoteSafety, "upload verified", Severity::Info).with_field(
        "phase",
        "upload-verified",
    ).with_field("remote_sha256", remote)
}

/// The fields of a progress event: the phase, and each reported value.
pub open spec fn status_fields(st: JobStatus) -> Map<Seq<char>, Seq<char>> {
    let base = Map::empty().insert("phase"@, phase_label(st.phase));
    let with_exit = match st.exit_code {
        Some(x) => base.insert("exit_code"@, signed_decimal(x as int)),
        None => base,
    };
    opt_insert(
        opt_insert(
            opt_insert(
                opt_insert(
                    opt_insert(opt_insert(with_exit, "pre_head"@, st.pre_head), "post_head"@, st.post_head),
                    "preserved_ref"@,
                    st.preserved_ref,
                ),
                "preserved_stash_ref"@,
                st.preserved_stash_ref,
            ),
            "log_tail"@,
            st.log_tail,
        ),
        "failure_reason"@,
        st.failure_reason,
    )
}

/// Reports a status the launcher wrote.
pub fn status_progress_event(req: &DeployRequest, st: &JobStatus) -> (e: JailgunEvent)
    ensures
        tab_event_is(
            e,
            *req,
            EventKind::RemoteSafety,
            "deploy progress"@,
            Severity::Info,
            status_fields(*st),
        ),
{
    let mut e = tab_event(req, EventKind::RemoteSafety, "deploy progress", Severity::Info).with_field(
        "phase",
        phase_str(&st.phase),
    );
    match st.exit_code {
        Some(x) => {
            let mut v = String::new();
            push_signed(&mut v, x as i64);
            e = e.with_field("exit_code", v.as_str());
        },
        None => {},
    }
    e = with_opt(e, "pre_head", &st.pre_head);
    e = with_opt(e, "post_head", &st.post_head);
    e = with_opt(e, "preserved_ref", &st.preserved_ref);
    e = with_opt(e, "preserved_stash_ref", &st.preserved_stash_ref);
    e = with_opt(e, "log_tail", &st.log_tail);
    e = with_opt(e, "failure_reason", &st.failure_reason);
    e
}

/// The fields of a failed status fetch.
pub open spec fn status_error_fields(attempts: u8, last: JobPhase) -> Map<Seq<char>, Seq<char>> {
    Map::empty().insert("phase"@, "status-fetch-error"@).insert(
        "attempts"@,
        decimal(attempts as nat),
    ).insert("last_phase"@, phase_label(last))
}

/// Reports a status fetch that failed.
pub fn status_error_event(req: &DeployRequest, attempts: u8, last: JobPhase) -> (e: JailgunEvent)
    ensures
        tab_event_is(
            e,
            *req,
            EventKind::RemoteSafety,
            "status fetch error"@,
            Severity::Warn,
            status_error_fields(attempts, last),
        ),
{
    let mut n = String::new();
    push_decimal(&mut n, attempts as u64);
    tab_event(req, EventKind::RemoteSafety, "status fetch error", Severity::Warn).with_field(
        "phase",
        "status-fetch-error",
    ).with_field("attempts", n.as_str()).with_field("last_phase", phase_str(&last))
}

/// The fields of the timeout event.
pub open spec fn timeout_fields() -> Map<Seq<char>, Seq<char>> {
    Map::empty().insert("outcome"@, "timed-out"@).insert(
        "reason"@,
        "status_max_minutes exceeded"@,
    )
}

/// Reports a deploy that ran out of time.
pub fn timeout_event(req: &DeployRequest) -> (e: JailgunEvent)
    ensures
        tab_event_is(
            e,
            *req,
            EventKind::DeployFinished,
            "deploy timeout"@,
            Severity::Error,
            timeout_fields(),
        ),
{
    tab_event(req, EventKind::DeployFinished, "deploy timeout", Severity::Error).with_field(
        "outcome",
        "timed-out",
    ).with_field("reason", "status_max_minutes exceeded")
}

/// The label of a CI state.
pub open spec fn ci_label(state: CiState) -> Seq<char> {
    match state {
        CiState::Pending { .. } => "ci-pending"@,
        CiState::Passed { .. } => "ci-passed"@,
        CiState::Failed { .. } => "ci-failed"@,
        CiState::Skipped { .. } => "ci-skipped"@,
        CiState::Unknown => "ci-unknown"@,
    }
}

/// A failed CI run is an error; every other state is information.
pub open spec fn ci_severity(state: CiState) -> Severity {
    if state is Failed {
        Severity::Error
    } else {
        Severity::Info
    }
}

/// The fields of a CI progress event: the label, the attempt, and the run
/// URL of a passed or failed run.
pub open spec fn ci_fields(state: CiState, attempt: u32) -> Map<Seq<char>, Seq<char>> {
    let base = Map::empty().insert("phase"@, ci_label(state)).insert(
        "attempt"@,
        decimal(attempt as nat),
    );
    match state {
        CiState::Passed { run_url, .. } => base.insert("ci_run_url"@, run_url@),
        CiState::Failed { run_url, .. } => base.insert("ci_run_url"@, run_url@),
        _ => base,
    }
}

/// Reports what CI said at one attempt.
pub fn ci_progress_event(req: &DeployRequest, state: &CiState, attempt: u32) -> (e: JailgunEvent)
    ensures
        tab_event_is(
            e,
            *req,
            EventKind::RemoteSafety,
            "ci state"@,
            ci_severity(*state),
            ci_fields(*state, attempt),
        ),
{
    let (label, severity) = match state {
        CiState::Pending { .. } => ("ci-pending", Severity::Info),
        CiState::Passed { .. } => ("ci-passed", Severity::Info),
        CiState::Failed { .. } => ("ci-failed", Severity::Error),
        CiState::Skipped { .. } => ("ci-skipped", Severity::Info),
        CiState::Unknown => ("ci-unknown", Severity::Info),
    };
    let mut n = String::new();
    push_decimal(&mut n, attempt as u64);
    let mut e = tab_event(req, EventKind::RemoteSafety, "ci state", severity).with_field(
        "phase",
        label,
    ).with_field("attempt", n.as_str());
    match state {
        CiState::Passed { run_url, .. } => {
            e = e.with_field("ci_run_url", run_url.as_str());
        },
        CiState::Failed { run_url, .. } => {
            e = e.with_field("ci_run_url", run_url.as_str());
        },
        _ => {},
    }
    e
}

/// The fields of a transient CI error.
pub open spec fn ci_error_fields(attempt: u32) -> Map<Seq<char>, Seq<char>> {
    Map::empty().insert("phase"@, "ci-error"@).insert("attempt"@, decimal(attempt as nat))
}

/// Reports a CI query that failed.
pub fn ci_error_event(req: &DeployRequest, attempt: u32) -> (e: JailgunEvent)
    ensures
        tab_event_is(
            e,
            *req,
            EventKind::RemoteSafety,
            "ci tracker transient error"@,
            Severity::Warn,
            ci_error_fields(attempt),
        ),
{
    let mut n = String::new();
    push_decimal(&mut n, attempt as u64);
    tab_event(req, EventKind::RemoteSafety, "ci tracker transient error", Severity::Warn).with_field(
        "phase",
        "ci-error",
    ).with_field("attempt", n.as_str())
}

/// Successes and staged dry runs are information; every other outcome is
/// an error.
pub open spec fn finished_severity(outcome: DeployOutcome) -> Severity {
    if outcome == DeployOutcome::Succeeded || outcome == DeployOutcome::SucceededCiSkipped
        || outcome == DeployOutcome::DryRunStaged {
        Severity::Info
    } else {
        Severity::Error
    }
}

/// The fields of the finished event.
pub open spec fn finished_fields(r: DeployReceipt) -> Map<Seq<char>, Seq<char>> {
    let base = Map::empty().insert("outcome"@, outcome_label(r.outcome)).insert(
        "local_sha256"@,
        r.local_sha256@,
    ).insert("remote_sha256"@, r.remote_sha256@);
    opt_insert(
        opt_insert(
            opt_insert(
                opt_insert(opt_insert(base, "post_head"@, r.final_status.post_head), "failure_reason"@,
                r.final_status.failure_reason),
                "preserved_ref"@,
                r.final_status.preserved_ref,
            ),
            "preserved_stash_ref"@,
            r.final_status.preserved_stash_ref,
        ),
        "receipt_path"@,
        r.receipt_path,
    )
}

/// Reports a deploy that ended with a receipt.
pub fn finished_event(req: &DeployRequest, r: &DeployReceipt) -> (e: JailgunEvent)
    ensures
        tab_event_is(
            e,
            *req,
            EventKind::DeployFinished,
            "deploy finished"@,
            finished_severity(r.outcome),
            finished_fields(*r),
        ),
{
    let severity = match r.outcome {
        DeployOutcome::Succeeded | DeployOutcome::SucceededCiSkipped => Severity::Info,
        DeployOutcome::DryRunStaged => Severity::Info,
        _ => Severity::Error,
    };
    let mut e = tab_event(req, EventKind::DeployFinished, "deploy finished", severity).with_field(
        "outcome",
        outcome_str(r.outcome),
    ).with_field("local_sha256", r.local_sha256.as_str()).with_field(
        "remote_sha256",
        r.remote_sha256.as_str(),
    );
    e = with_opt(e, "post_head", &r.final_status.post_head);
    e = with_opt(e, "failure_reason", &r.final_status.failure_reason);
    e = with_opt(e, "preserved_ref", &r.final_status.preserved_ref);
    e = with_opt(e, "preserved_stash_ref", &r.final_status.preserved_stash_ref);
    e = with_opt(e, "receipt_path", &r.receipt_path);
    e
}

// ---------------------------------------------------------------------
// The machine
// ---------------------------------------------------------------------

/// What the deploy waits for.
#[derive(Debug, Clone, Copy, PartialEq, Eq)]
pub enum DeployPhase {
    ReadArchive,
    EnsureDir,
    Upload,
    RemoteSha,
    RemoveMismatch,
    Install,
    StartJob,
    Deadline,
    Status,
    LogTail,
    Ci,
    FailureLog,
    CiSleep,
    WriteReceipt,
    Finished,
}

/// The next thing the caller does for the deploy.
#[derive(Debug)]
pub enum DeployAction {
    /// Read the bytes of the local archive.
    ReadLocalArchive { path: String },
    /// Create the remote upload directory.
    EnsureRemoteDir { dir: String },
    /// Copy the archive to the remote host.
    UploadArchive { local_path: String, remote_path: String },
    /// Ask for the SHA-256 of the uploaded archive.
    FetchRemoteSha { remote_path: String },
    /// Remove an upload whose checksum did not match.
    RemoveRemoteFile { remote_path: String },
    /// Install the remote launcher.
    InstallLauncher { spec: JobSpec },
    /// Start the installed job.
    StartJob { spec: JobSpec, handle: JobHandle },
    /// Report the milliseconds since the polling began (restarting that
    /// clock first when asked).
    CheckDeadline { restart_clock: bool },
    /// Sleep, then read the job's status file.
    SleepThenFetchStatus { seconds: u16, handle: JobHandle },
    /// Read the last lines of the job's log.
    FetchLogTail { handle: JobHandle, lines: usize },
    /// Ask CI about a commit.
    CheckCi { commit: String, branch: String },
    /// Fetch an excerpt of a failed CI run's log.
    CaptureFailureLog { ci_run_id: String, max_bytes: usize },
    /// Sleep before the next CI attempt.
    SleepBeforeNextCi { seconds: u16 },
    /// Write the machine's pending receipt.
    WriteReceipt,
    /// The deploy is over.
    Finish { result: Result<DeployReceipt, DeployError> },
}

/// What came of the last action.
#[derive(Debug)]
pub enum DeployEvent {
    LocalArchive(Result<Vec<u8>, DeployError>),
    RemoteDirReady(Result<(), DeployError>),
    Uploaded(Result<(), DeployError>),
    RemoteSha(Result<String, DeployError>),
    RemoteFileRemoved,
    LauncherInstalled(Result<JobHandle, DeployError>),
    JobStarted(Result<(), DeployError>),
    Elapsed { millis: u64 },
    StatusFetched(Result<JobStatus, DeployError>),
    LogTail(Result<String, DeployError>),
    CiChecked(Result<CiState, DeployError>),
    FailureLog(Result<String, DeployError>),
    CiSlept,
    ReceiptWritten(Result<String, DeployError>),
}

/// How many lines of the job log are fetched.
pub const LOG_TAIL_LINES: usize = 40;

/// The bound on a CI failure log excerpt.
pub const CI_LOG_MAX_BYTES: usize = 16384;

/// Consecutive status fetch failures that end a deploy.
pub const MAX_STATUS_ERRORS: u8 = 5;

/// One deploy in progress.
pub struct DeployMachine {
    pub req: DeployRequest,
    pub phase: DeployPhase,
    /// The bytes of the local archive, once read.
    pub archive: Ghost<Seq<u8>>,
    pub started_at: String,
    pub local_sha256: String,
    pub remote_sha256: String,
    pub remote_archive_path: String,
    pub spec: JobSpec,
    pub handle: JobHandle,
    pub consecutive_errors: u8,
    pub last_seen: JobPhase,
    pub status: JobStatus,
    pub log_tail: String,
    pub ci_attempt: u32,
    pub last_ci: CiState,
    pub pending_ci: CiState,
    pub pending_receipt: Option<DeployReceipt>,
}

/// The job spec of a deploy whose upload was verified.
pub open spec fn job_spec_is(s: JobSpec, m: DeployMachine) -> bool {
    &&& s.run_id == m.req.run_id
    &&& s.tab_id == m.req.tab_id
    &&& s.remote_dir == m.req.remote_dir
    &&& s.remote_archive_path == m.remote_archive_path
    &&& s.remote_command == m.req.remote_command
    &&& s.strip_components == m.req.strip_components
    &&& s.local_sha256 == m.local_sha256
    &&& s.remote_sha256 == m.remote_sha256
    &&& s.stash_on_failure == m.req.stash_on_failure
}

/// The parts of a receipt that come from the request and the upload.
pub open spec fn receipt_base(r: DeployReceipt, m: DeployMachine) -> bool {
    &&& r.run_id == m.req.run_id
    &&& r.tab_id == m.req.tab_id
    &&& r.remote_host == m.req.remote_host
    &&& r.remote_dir == m.req.remote_dir
    &&& r.started_at == m.started_at
    &&& r.local_archive_path == m.req.local_archive_path
    &&& r.local_sha256 == m.local_sha256
    &&& r.remote_sha256 == m.remote_sha256
    &&& r.remote_archive_path == m.remote_archive_path
    &&& r.job_handle == m.handle
    &&& r.receipt_path.is_none()
}

/// The receipt of a dry run: the job is queued, CI is skipped, no log.
pub open spec fn dry_run_receipt(r: DeployReceipt, m: DeployMachine) -> bool {
    &&& receipt_base(r, m)
    &&& r.final_status.phase == JobPhase::Queued
    &&& r.final_status.exit_code.is_none()
    &&& r.final_status.pre_head.is_none()
    &&& r.final_status.post_head.is_none()
    &&& r.final_status.preserved_ref.is_none()
    &&& r.final_status.preserved_stash_ref.is_none()
    &&& r.final_status.failure_reason.is_none()
    &&& r.final_status.reset_ok.is_none()
    &&& r.final_status.log_tail.is_none()
    &&& r.final_status.top_paths@.len() == 0
    &&& (r.ci_state matches CiState::Skipped { reason } && reason@ == "dry-run"@)
    &&& r.log_tail@.len() == 0
    &&& r.outcome == DeployOutcome::DryRunStaged
}

/// The receipt of a job that ran: its outcome follows from the job's final
/// phase and the CI state.
pub open spec fn run_receipt(r: DeployReceipt, m: DeployMachine, status: JobStatus, ci: CiState) -> bool {
    &&& receipt_base(r, m)
    &&& r.final_status == status
    &&& r.ci_state == ci
    &&& r.final_status.log_tail == Some(r.log_tail)
    &&& r.outcome == final_outcome_spec(outcome_before_ci_spec(status.phase), ci)
}

/// A failed CI state with its log excerpt replaced.
pub open spec fn with_excerpt(state: CiState, excerpt: Option<String>) -> CiState {
    match state {
        CiState::Failed { run_id, run_url, conclusion, .. } => CiState::Failed {
            run_id,
            run_url,
            conclusion,
            log_excerpt: excerpt,
        },
        other => other,
    }
}

/// The phases in which the job was started (never in a dry run).
pub open spec fn job_started(p: DeployPhase) -> bool {
    p == DeployPhase::Deadline || p == DeployPhase::Status || p == DeployPhase::LogTail || p
        == DeployPhase::Ci || p == DeployPhase::FailureLog || p == DeployPhase::CiSleep
}

/// The phases in which CI is being tracked.
pub open spec fn tracking_ci(p: DeployPhase) -> bool {
    p == DeployPhase::Ci || p == DeployPhase::FailureLog || p == DeployPhase::CiSleep
}

/// The CI state recorded for a job that ran: unknown for a job that did
/// not succeed; skipped for a job that succeeded with CI not tracked.
pub open spec fn ci_recorded(status: JobStatus, ci: CiState, enabled: bool) -> bool {
    &&& status.phase != JobPhase::Done ==> ci == CiState::Unknown
    &&& (status.phase == JobPhase::Done && !should_track_ci_spec(DeployOutcome::Succeeded, enabled, status))
        ==> ci is Skipped
}

/// The phases that come after the archive was read.
pub open spec fn archive_read(p: DeployPhase) -> bool {
    p == DeployPhase::EnsureDir || p == DeployPhase::Upload || p == DeployPhase::RemoteSha || p
        == DeployPhase::RemoveMismatch || upload_verified(p)
}

/// The lowercase hex SHA-256 of some bytes.
pub open spec fn sha256_hex_of(bytes: Seq<u8>) -> Seq<char> {
    hex_spec(sha256_spec(bytes))
}

/// The phases that come after a verified upload.
pub open spec fn upload_verified(p: DeployPhase) -> bool {
    p == DeployPhase::Install || p == DeployPhase::StartJob || job_started(p) || p
        == DeployPhase::WriteReceipt
}

impl DeployMachine {
    /// The machine's invariant.
    pub open spec fn wf(&self) -> bool {
        &&& archive_read(self.phase) ==> self.local_sha256@ == sha256_hex_of(self.archive@)
        &&& upload_verified(self.phase) ==> self.remote_sha256@ == self.local_sha256@
        &&& self.phase == DeployPhase::RemoveMismatch ==> self.remote_sha256@ != self.local_sha256@
        &&& upload_verified(self.phase) ==> job_spec_is(
            self.spec,
            *self,
        )
        &&& (self.phase == DeployPhase::StartJob || job_started(self.phase)) ==> !self.req.dry_run
        &&& (self.phase == DeployPhase::Deadline || self.phase == DeployPhase::Status)
            ==> self.consecutive_errors < MAX_STATUS_ERRORS
        &&& (self.phase == DeployPhase::LogTail || tracking_ci(self.phase))
            ==> self.status.phase.is_terminal_spec()
        &&& tracking_ci(self.phase) ==> {
            &&& should_track_ci_spec(
                outcome_before_ci_spec(self.status.phase),
                self.req.ci_tracker_enabled,
                self.status,
            )
            &&& 1 <= self.ci_attempt <= self.req.ci_max_attempts
            &&& self.status.log_tail == Some(self.log_tail)
        }
        &&& self.phase == DeployPhase::FailureLog ==> self.pending_ci is Failed
        &&& self.phase == DeployPhase::WriteReceipt ==> match self.pending_receipt {
            Some(r) => if self.req.dry_run {
                dry_run_receipt(r, *self)
            } else {
                receipt_base(r, *self) && r.final_status.phase.is_terminal_spec()
                    && r.outcome == final_outcome_spec(
                    outcome_before_ci_spec(r.final_status.phase),
                    r.ci_state,
                ) && ci_recorded(r.final_status, r.ci_state, self.req.ci_tracker_enabled)
            },
            None => false,
        }
    }

    /// Whether the machine waits for this kind of event.
    pub open spec fn expects(&self, ev: &DeployEvent) -> bool {
        match ev {
            DeployEvent::LocalArchive(_) => self.phase == DeployPhase::ReadArchive,
            DeployEvent::RemoteDirReady(_) => self.phase == DeployPhase::EnsureDir,
            DeployEvent::Uploaded(_) => self.phase == DeployPhase::Upload,
            DeployEvent::RemoteSha(_) => self.phase == DeployPhase::RemoteSha,
            DeployEvent::RemoteFileRemoved => self.phase == DeployPhase::RemoveMismatch,
            DeployEvent::LauncherInstalled(_) => self.phase == DeployPhase::Install,
            DeployEvent::JobStarted(_) => self.phase == DeployPhase::StartJob,
            DeployEvent::Elapsed { .. } => self.phase == DeployPhase::Deadline,
            DeployEvent::StatusFetched(_) => self.phase == DeployPhase::Status,
            DeployEvent::LogTail(_) => self.phase == DeployPhase::LogTail,
            DeployEvent::CiChecked(_) => self.phase == DeployPhase::Ci,
            DeployEvent::FailureLog(_) => self.phase == DeployPhase::FailureLog,
            DeployEvent::CiSlept => self.phase == DeployPhase::CiSleep,
            DeployEvent::ReceiptWritten(_) => self.phase == DeployPhase::WriteReceipt,
        }
    }
}

fn copy_handle(h: &JobHandle) -> (r: JobHandle)
    ensures
        r == *h,
{
    JobHandle {
        job_id: h.job_id.clone(),
        launcher_dir: h.launcher_dir.clone(),
        launcher_path: h.launcher_path.clone(),
        status_path: h.status_path.clone(),
        log_path: h.log_path.clone(),
        failure_marker_path: h.failure_marker_path.clone(),
    }
}

fn copy_spec(s: &JobSpec) -> (r: JobSpec)
    ensures
        r == *s,
{
    JobSpec {
        run_id: s.run_id.clone(),
        tab_id: s.tab_id,
        remote_dir: s.remote_dir.clone(),
        remote_archive_path: s.remote_archive_path.clone(),
        remote_command: s.remote_command.clone(),
        strip_components: s.strip_components,
        local_sha256: s.local_sha256.clone(),
        remote_sha256: s.remote_sha256.clone(),
        stash_on_failure: s.stash_on_failure,
    }
}

/// The handle of a job not launched yet: every path empty.
fn empty_handle() -> (h: JobHandle)
    ensures
        h.job_id@.len() == 0,
        h.launcher_dir@.len() == 0,
        h.launcher_path@.len() == 0,
        h.status_path@.len() == 0,
        h.log_path@.len() == 0,
        h.failure_marker_path@.len() == 0,
{
    JobHandle {
        job_id: String::new(),
        launcher_dir: String::new(),
        launcher_path: String::new(),
        status_path: String::new(),
        log_path: String::new(),
        failure_marker_path: String::new(),
    }
}

/// The job spec of a deploy before its upload: the request's run, tab,
/// directory, command, strip count and stash choice, with no archive path
/// and no digests yet.
fn empty_spec(req: &DeployRequest) -> (s: JobSpec)
    ensures
        s.run_id == req.run_id,
        s.tab_id == req.tab_id,
        s.remote_dir == req.remote_dir,
        s.remote_archive_path@.len() == 0,
        s.remote_command == req.remote_command,
        s.strip_components == req.strip_components,
        s.local_sha256@.len() == 0,
        s.remote_sha256@.len() == 0,
        s.stash_on_failure == req.stash_on_failure,
{
    JobSpec {
        run_id: req.run_id.clone(),
        tab_id: req.tab_id,
        remote_dir: req.remote_dir.clone(),
        remote_archive_path: String::new(),
        remote_command: req.remote_command.clone(),
        strip_components: req.strip_components,
        local_sha256: String::new(),
        remote_sha256: String::new(),
        stash_on_failure: req.stash_on_failure,
    }
}

/// A receipt without a path, from the request and what the deploy found.
fn build_receipt(
    m: &DeployMachine,
    final_status: JobStatus,
    ci_state: CiState,
    log_tail: String,
    outcome: DeployOutcome,
) -> (r: DeployReceipt)
    ensures
        receipt_base(r, *m),
        r.final_status == final_status,
        r.ci_state == ci_state,
        r.log_tail == log_tail,
        r.outcome == outcome,
{
    DeployReceipt {
        run_id: m.req.run_id.clone(),
        tab_id: m.req.tab_id,
        remote_host: m.req.remote_host.clone(),
        remote_dir: m.req.remote_dir.clone(),
        started_at: m.started_at.clone(),
        finished_at: timestamp_now(),
        local_archive_path: m.req.local_archive_path.clone(),
        local_sha256: m.local_sha256.clone(),
        remote_sha256: m.remote_sha256.clone(),
        remote_archive_path: m.remote_archive_path.clone(),
        job_handle: copy_handle(&m.handle),
        final_status,
        ci_state,
        log_tail,
        outcome,
        receipt_path: None,
    }
}

// ---------------------------------------------------------------------
// Transitions
// ---------------------------------------------------------------------

/// A step that ends the deploy with `e` and publishes nothing.
pub open spec fn ends_with_error(
    m0: DeployMachine,
    m1: DeployMachine,
    act: DeployAction,
    e: DeployError,
    out: Seq<JailgunEvent>,
) -> bool {
    &&& m1 == (DeployMachine { phase: DeployPhase::Finished, ..m0 })
    &&& act == DeployAction::Finish { result: Err(e) }
    &&& out.len() == 0
}

/// A step that ends the deploy with `e` after reporting the failed step.
pub open spec fn ends_with_step_error(
    m0: DeployMachine,
    m1: DeployMachine,
    act: DeployAction,
    step: Seq<char>,
    e: DeployError,
    out: Seq<JailgunEvent>,
) -> bool {
    &&& m1 == (DeployMachine { phase: DeployPhase::Finished, ..m0 })
    &&& act == DeployAction::Finish { result: Err(e) }
    &&& out.len() == 1
    &&& tab_event_is(
        out[0],
        m0.req,
        EventKind::Error,
        step_error_message(step),
        Severity::Error,
        step_error_fields(step, e),
    )
}

/// The transition out of the archive read.
pub open spec fn read_archive_rel(
    m0: DeployMachine,
    ev: DeployEvent,
    m1: DeployMachine,
    act: DeployAction,
    out: Seq<JailgunEvent>,
) -> bool {
    match ev {
        DeployEvent::LocalArchive(Err(e)) => ends_with_error(m0, m1, act, e, out),
        DeployEvent::LocalArchive(Ok(bytes)) => {
            let dir = upload_dir_spec(m0.req.run_id@, m0.req.tab_id);
            &&& m1 == (DeployMachine {
                phase: DeployPhase::EnsureDir,
                archive: Ghost(bytes@),
                local_sha256: m1.local_sha256,
                remote_archive_path: m1.remote_archive_path,
                ..m0
            })
            &&& m1.local_sha256@ == hex_spec(sha256_spec(bytes@))
            &&& m1.remote_archive_path@ == dir + "/"@ + m0.req.remote_archive_basename@
            &&& (act matches DeployAction::EnsureRemoteDir { dir: d } && d@ == dir)
            &&& out.len() == 1
            &&& tab_event_is(
                out[0],
                m0.req,
                EventKind::DeployQueued,
                "deploy queued"@,
                Severity::Info,
                queued_fields(m0.req, m1.local_sha256@),
            )
        },
        _ => true,
    }
}

/// The transition out of the upload directory preparation.
pub open spec fn ensure_dir_rel(
    m0: DeployMachine,
    ev: DeployEvent,
    m1: DeployMachine,
    act: DeployAction,
    out: Seq<JailgunEvent>,
) -> bool {
    match ev {
        DeployEvent::RemoteDirReady(Err(e)) => ends_with_step_error(
            m0,
            m1,
            act,
            "ensure_remote_dir"@,
            e,
            out,
        ),
        DeployEvent::RemoteDirReady(Ok(())) => {
            &&& m1 == (DeployMachine { phase: DeployPhase::Upload, ..m0 })
            &&& (act matches DeployAction::UploadArchive { local_path, remote_path } && local_path
                == m0.req.local_archive_path && remote_path == m0.remote_archive_path)
            &&& out.len() == 0
        },
        _ => true,
    }
}

/// The transition out of the upload.
pub open spec fn upload_rel(
    m0: DeployMachine,
    ev: DeployEvent,
    m1: DeployMachine,
    act: DeployAction,
    out: Seq<JailgunEvent>,
) -> bool {
    match ev {
        DeployEvent::Uploaded(Err(e)) => ends_with_step_error(m0, m1, act, "upload_archive"@, e, out),
        DeployEvent::Uploaded(Ok(())) => {
            &&& m1 == (DeployMachine { phase: DeployPhase::RemoteSha, ..m0 })
            &&& (act matches DeployAction::FetchRemoteSha { remote_path } && remote_path
                == m0.remote_archive_path)
            &&& out.len() == 0
        },
        _ => true,
    }
}

/// The transition out of the remote checksum: a match installs the
/// launcher, a mismatch removes the upload.
pub open spec fn remote_sha_rel(
    m0: DeployMachine,
    ev: DeployEvent,
    m1: DeployMachine,
    act: DeployAction,
    out: Seq<JailgunEvent>,
) -> bool {
    match ev {
        DeployEvent::RemoteSha(Err(e)) => ends_with_error(m0, m1, act, e, out),
        DeployEvent::RemoteSha(Ok(sha)) => {
            &&& m1.remote_sha256 == sha
            &&& if sha@ == m0.local_sha256@ {
                &&& m1 == (DeployMachine {
                    phase: DeployPhase::Install,
                    remote_sha256: sha,
                    spec: m1.spec,
                    ..m0
                })
                &&& job_spec_is(m1.spec, m1)
                &&& act == DeployAction::InstallLauncher { spec: m1.spec }
                &&& out.len() == 1
                &&& tab_event_is(
                    out[0],
                    m0.req,
                    EventKind::RemoteSafety,
                    "upload verified"@,
                    Severity::Info,
                    verified_fields(sha@),
                )
            } else {
                &&& m1 == (DeployMachine {
                    phase: DeployPhase::RemoveMismatch,
                    remote_sha256: sha,
                    ..m0
                })
                &&& (act matches DeployAction::RemoveRemoteFile { remote_path } && remote_path
                    == m0.remote_archive_path)
                &&& out.len() == 0
            }
        },
        _ => true,
    }
}

/// The transition after a mismatched upload was removed.
pub open spec fn remove_mismatch_rel(
    m0: DeployMachine,
    ev: DeployEvent,
    m1: DeployMachine,
    act: DeployAction,
    out: Seq<JailgunEvent>,
) -> bool {
    &&& m1 == (DeployMachine { phase: DeployPhase::Finished, ..m0 })
    &&& act == DeployAction::Finish {
        result: Err(DeployError::ShaMismatch { local: m0.local_sha256, remote: m0.remote_sha256 }),
    }
    &&& out.len() == 1
    &&& tab_event_is(
        out[0],
        m0.req,
        EventKind::DeployFinished,
        "remote sha mismatch"@,
        Severity::Error,
        mismatch_fields(m0.local_sha256@, m0.remote_sha256@),
    )
}

/// The transition out of the launcher install: a dry run stops at a
/// receipt, a real deploy starts the job.
pub open spec fn install_rel(
    m0: DeployMachine,
    ev: DeployEvent,
    m1: DeployMachine,
    act: DeployAction,
    out: Seq<JailgunEvent>,
) -> bool {
    match ev {
        DeployEvent::LauncherInstalled(Err(e)) => ends_with_step_error(
            m0,
            m1,
            act,
            "install_launcher"@,
            e,
            out,
        ),
        DeployEvent::LauncherInstalled(Ok(h)) => {
            &&& m1.handle == h
            &&& out.len() == 0
            &&& if m0.req.dry_run {
                &&& m1 == (DeployMachine {
                    phase: DeployPhase::WriteReceipt,
                    handle: h,
                    pending_receipt: m1.pending_receipt,
                    ..m0
                })
                &&& act == DeployAction::WriteReceipt
                &&& (m1.pending_receipt matches Some(r) && dry_run_receipt(r, m1))
            } else {
                &&& m1 == (DeployMachine { phase: DeployPhase::StartJob, handle: h, ..m0 })
                &&& act == DeployAction::StartJob { spec: m0.spec, handle: h }
            }
        },
        _ => true,
    }
}

/// The transition out of the job start.
pub open spec fn start_job_rel(
    m0: DeployMachine,
    ev: DeployEvent,
    m1: DeployMachine,
    act: DeployAction,
    out: Seq<JailgunEvent>,
) -> bool {
    match ev {
        DeployEvent::JobStarted(Err(e)) => ends_with_step_error(m0, m1, act, "start_job"@, e, out),
        DeployEvent::JobStarted(Ok(())) => {
            &&& m1 == (DeployMachine {
                phase: DeployPhase::Deadline,
                consecutive_errors: 0,
                last_seen: JobPhase::MissingStatus,
                ..m0
            })
            &&& act == DeployAction::CheckDeadline { restart_clock: true }
            &&& out.len() == 0
        },
        _ => true,
    }
}

/// The transition out of the deadline check: past the deadline the
/// deploy times out, otherwise the status is polled.
pub open spec fn deadline_rel(
    m0: DeployMachine,
    ev: DeployEvent,
    m1: DeployMachine,
    act: DeployAction,
    out: Seq<JailgunEvent>,
) -> bool {
    match ev {
        DeployEvent::Elapsed { millis } => if millis >= m0.req.status_max_minutes as int * 60000 {
            &&& m1 == (DeployMachine { phase: DeployPhase::Finished, ..m0 })
            &&& act == DeployAction::Finish {
                result: Err(DeployError::Timeout(m0.req.status_max_minutes)),
            }
            &&& out.len() == 1
            &&& tab_event_is(
                out[0],
                m0.req,
                EventKind::DeployFinished,
                "deploy timeout"@,
                Severity::Error,
                timeout_fields(),
            )
        } else {
            &&& m1 == (DeployMachine { phase: DeployPhase::Status, ..m0 })
            &&& act == DeployAction::SleepThenFetchStatus {
                seconds: m0.req.status_poll_seconds,
                handle: m0.handle,
            }
            &&& out.len() == 0
        },
        _ => true,
    }
}

/// The transition out of a status fetch: a terminal status ends the
/// polling, five failures in a row end the deploy.
pub open spec fn status_rel(
    m0: DeployMachine,
    ev: DeployEvent,
    m1: DeployMachine,
    act: DeployAction,
    out: Seq<JailgunEvent>,
) -> bool {
    match ev {
        DeployEvent::StatusFetched(Ok(st)) => {
            &&& m1.consecutive_errors == 0
            &&& out.len() == 1
            &&& tab_event_is(
                out[0],
                m0.req,
                EventKind::RemoteSafety,
                "deploy progress"@,
                Severity::Info,
                status_fields(st),
            )
            &&& if st.phase.is_terminal_spec() {
                &&& m1 == (DeployMachine {
                    phase: DeployPhase::LogTail,
                    consecutive_errors: 0,
                    status: st,
                    ..m0
                })
                &&& act == DeployAction::FetchLogTail { handle: m0.handle, lines: LOG_TAIL_LINES }
            } else {
                &&& m1 == (DeployMachine {
                    phase: DeployPhase::Deadline,
                    consecutive_errors: 0,
                    last_seen: st.phase,
                    ..m0
                })
                &&& act == DeployAction::CheckDeadline { restart_clock: false }
            }
        },
        DeployEvent::StatusFetched(Err(e)) => {
            let n = m0.consecutive_errors + 1;
            &&& out.len() == 1
            &&& tab_event_is(
                out[0],
                m0.req,
                EventKind::RemoteSafety,
                "status fetch error"@,
                Severity::Warn,
                status_error_fields(n as u8, m0.last_seen),
            )
            &&& if n >= MAX_STATUS_ERRORS {
                &&& m1 == (DeployMachine { phase: DeployPhase::Finished, ..m0 })
                &&& act == DeployAction::Finish { result: Err(e) }
            } else {
                &&& m1 == (DeployMachine {
                    phase: DeployPhase::Deadline,
                    consecutive_errors: n as u8,
                    ..m0
                })
                &&& act == DeployAction::CheckDeadline { restart_clock: false }
            }
        },
        _ => true,
    }
}

/// A step into the receipt write: the status, the CI states and the log
/// tail go into the pending receipt, and every other part of the deploy is
/// kept.
pub open spec fn moves_to_receipt(m0: DeployMachine, m1: DeployMachine) -> bool {
    m1 == (DeployMachine {
        phase: DeployPhase::WriteReceipt,
        status: m1.status,
        log_tail: m1.log_tail,
        last_ci: m1.last_ci,
        pending_ci: m1.pending_ci,
        pending_receipt: m1.pending_receipt,
        ..m0
    })
}

/// The step that writes the receipt of a job that ran.
pub open spec fn writes_run_receipt(
    m0: DeployMachine,
    m1: DeployMachine,
    act: DeployAction,
    status: JobStatus,
    ci: CiState,
    out: Seq<JailgunEvent>,
) -> bool {
    &&& moves_to_receipt(m0, m1)
    &&& act == DeployAction::WriteReceipt
    &&& out.len() == 0
    &&& (m1.pending_receipt matches Some(r) && run_receipt(r, m1, status, ci))
}

/// The CI state of a job whose CI is not tracked.
pub open spec fn untracked_ci(pre: DeployOutcome, ci: CiState) -> bool {
    if pre == DeployOutcome::Succeeded {
        ci matches CiState::Skipped { reason } && reason@ == "no-commit-change-or-disabled"@
    } else {
        ci == CiState::Unknown
    }
}

/// The transition out of the log fetch: the tail is bounded, then CI is
/// tracked when it should be, and otherwise the receipt is written.
pub open spec fn log_tail_rel(
    m0: DeployMachine,
    ev: DeployEvent,
    m1: DeployMachine,
    act: DeployAction,
    out: Seq<JailgunEvent>,
) -> bool {
    match ev {
        DeployEvent::LogTail(res) => {
            let raw = match res {
                Ok(t) => t@,
                Err(_) => Seq::empty(),
            };
            let pre = outcome_before_ci_spec(m0.status.phase);
            let st = JobStatus { log_tail: Some(m1.log_tail), ..m0.status };
            &&& m1.log_tail@ == log_tail_spec(raw, 20, 4096)
            &&& if should_track_ci_spec(pre, m0.req.ci_tracker_enabled, m0.status) {
                if m0.req.ci_max_attempts >= 1 {
                    &&& m1 == (DeployMachine {
                        phase: DeployPhase::Ci,
                        status: st,
                        log_tail: m1.log_tail,
                        ci_attempt: 1,
                        last_ci: CiState::Unknown,
                        ..m0
                    })
                    &&& (act matches DeployAction::CheckCi { commit, branch } && Some(commit)
                        == m0.status.post_head && branch == m0.req.ci_branch)
                    &&& out.len() == 0
                } else {
                    writes_run_receipt(m0, m1, act, st, CiState::Unknown, out)
                }
            } else {
                &&& moves_to_receipt(m0, m1)
                &&& act == DeployAction::WriteReceipt
                &&& out.len() == 0
                &&& (m1.pending_receipt matches Some(r) && run_receipt(r, m1, st, r.ci_state)
                    && untracked_ci(pre, r.ci_state))
            }
        },
        _ => true,
    }
}

/// The transition out of a CI query.
pub open spec fn ci_rel(
    m0: DeployMachine,
    ev: DeployEvent,
    m1: DeployMachine,
    act: DeployAction,
    out: Seq<JailgunEvent>,
) -> bool {
    match ev {
        DeployEvent::CiChecked(Ok(state)) => {
            &&& out.len() >= 1
            &&& tab_event_is(
                out[0],
                m0.req,
                EventKind::RemoteSafety,
                "ci state"@,
                ci_severity(state),
                ci_fields(state, m0.ci_attempt),
            )
            &&& if state is Failed {
                &&& m1 == (DeployMachine { phase: DeployPhase::FailureLog, pending_ci: state, ..m0 })
                &&& (act matches DeployAction::CaptureFailureLog { ci_run_id, max_bytes }
                    && state matches CiState::Failed { run_id, .. } && ci_run_id == run_id
                    && max_bytes == CI_LOG_MAX_BYTES)
                &&& out.len() == 1
            } else if state.is_terminal_spec() {
                writes_run_receipt(m0, m1, act, m0.status, state, out.drop_first())
            } else {
                &&& m1 == (DeployMachine { phase: DeployPhase::CiSleep, last_ci: state, ..m0 })
                &&& act == DeployAction::SleepBeforeNextCi { seconds: m0.req.ci_poll_seconds }
                &&& out.len() == 1
            }
        },
        DeployEvent::CiChecked(Err(_)) => {
            &&& m1 == (DeployMachine { phase: DeployPhase::CiSleep, ..m0 })
            &&& act == DeployAction::SleepBeforeNextCi { seconds: m0.req.ci_poll_seconds }
            &&& out.len() == 1
            &&& tab_event_is(
                out[0],
                m0.req,
                EventKind::RemoteSafety,
                "ci tracker transient error"@,
                Severity::Warn,
                ci_error_fields(m0.ci_attempt),
            )
        },
        _ => true,
    }
}

/// The transition out of the failure log capture: the excerpt, when one
/// came, is kept in the failed CI state.
pub open spec fn failure_log_rel(
    m0: DeployMachine,
    ev: DeployEvent,
    m1: DeployMachine,
    act: DeployAction,
    out: Seq<JailgunEvent>,
) -> bool {
    match ev {
        DeployEvent::FailureLog(res) => {
            let excerpt = match res {
                Ok(t) => Some(t),
                Err(_) => None,
            };
            writes_run_receipt(m0, m1, act, m0.status, with_excerpt(m0.pending_ci, excerpt), out)
        },
        _ => true,
    }
}

/// The transition after the pause between CI attempts.
pub open spec fn ci_sleep_rel(
    m0: DeployMachine,
    m1: DeployMachine,
    act: DeployAction,
    out: Seq<JailgunEvent>,
) -> bool {
    if m0.ci_attempt < m0.req.ci_max_attempts {
        &&& m1 == (DeployMachine {
            phase: DeployPhase::Ci,
            ci_attempt: (m0.ci_attempt + 1) as u32,
            ..m0
        })
        &&& (act matches DeployAction::CheckCi { commit, branch } && Some(commit)
            == m0.status.post_head && branch == m0.req.ci_branch)
        &&& out.len() == 0
    } else {
        writes_run_receipt(m0, m1, act, m0.status, m0.last_ci, out)
    }
}

/// The transition out of the receipt write.
pub open spec fn write_receipt_rel(
    m0: DeployMachine,
    ev: DeployEvent,
    m1: DeployMachine,
    act: DeployAction,
    out: Seq<JailgunEvent>,
) -> bool {
    match ev {
        DeployEvent::ReceiptWritten(Err(e)) => ends_with_error(m0, m1, act, e, out),
        DeployEvent::ReceiptWritten(Ok(path)) => {
            &&& m1 == (DeployMachine { phase: DeployPhase::Finished, pending_receipt: None, ..m0 })
            &&& (act matches DeployAction::Finish { result: Ok(r) } && (m0.pending_receipt matches Some(
                r0,
            ) && r == (DeployReceipt { receipt_path: Some(path), ..r0 })) && out.len() == 1
                && tab_event_is(
                out[0],
                m0.req,
                EventKind::DeployFinished,
                "deploy finished"@,
                finished_severity(r.outcome),
                finished_fields(r),
            ))
        },
        _ => true,
    }
}

/// A step keeps the request and the start time.
pub open spec fn keeps(m0: DeployMachine, m1: DeployMachine) -> bool {
    m1.req == m0.req && m1.started_at == m0.started_at
}

fn one(e: JailgunEvent) -> (v: Vec<JailgunEvent>)
    ensures
        v@ == seq![e],
{
    let mut v = Vec::new();
    v.push(e);
    v
}

impl DeployMachine {
    /// A deploy of `req`, stamped with the current time, that first reads
    /// the local archive.
    pub fn start(req: DeployRequest) -> (r: (DeployMachine, DeployAction))
        ensures
            r.0.wf(),
            r.0.phase == DeployPhase::ReadArchive,
            r.0.req == req,
            r.1 matches DeployAction::ReadLocalArchive { path } && path == req.local_archive_path,
    {
        let path = req.local_archive_path.clone();
        let spec = empty_spec(&req);
        (
            DeployMachine {
                req,
                phase: DeployPhase::ReadArchive,
                archive: Ghost(Seq::empty()),
                started_at: timestamp_now(),
                local_sha256: String::new(),
                remote_sha256: String::new(),
                remote_archive_path: String::new(),
                spec,
                handle: empty_handle(),
                consecutive_errors: 0,
                last_seen: JobPhase::MissingStatus,
                status: JobStatus::missing(),
                log_tail: String::new(),
                ci_attempt: 0,
                last_ci: CiState::Unknown,
                pending_ci: CiState::Unknown,
                pending_receipt: None,
            },
            DeployAction::ReadLocalArchive { path },
        )
    }

    fn finish_err(self, e: DeployError) -> (r: (DeployMachine, DeployAction, Vec<JailgunEvent>))
        ensures
            ends_with_error(self, r.0, r.1, e, r.2@),
            keeps(self, r.0),
            r.0.wf(),
    {
        (
            DeployMachine { phase: DeployPhase::Finished, ..self },
            DeployAction::Finish { result: Err(e) },
            Vec::new(),
        )
    }

    fn finish_step_err(self, step: &str, e: DeployError) -> (r: (
        DeployMachine,
        DeployAction,
        Vec<JailgunEvent>,
    ))
        ensures
            ends_with_step_error(self, r.0, r.1, step@, e, r.2@),
            keeps(self, r.0),
            r.0.wf(),
    {
        let ev = step_error_event(&self.req, step, &e);
        (
            DeployMachine { phase: DeployPhase::Finished, ..self },
            DeployAction::Finish { result: Err(e) },
            one(ev),
        )
    }

    fn write_run_receipt(self, status: JobStatus, ci: CiState, log_tail: String) -> (r: (
        DeployMachine,
        DeployAction,
        Vec<JailgunEvent>,
    ))
        requires
            !self.req.dry_run,
            self.local_sha256@ == sha256_hex_of(self.archive@),
            self.remote_sha256@ == self.local_sha256@,
            job_spec_is(self.spec, self),
            status.phase.is_terminal_spec(),
            status.log_tail == Some(log_tail),
            ci_recorded(status, ci, self.req.ci_tracker_enabled),
        ensures
            writes_run_receipt(self, r.0, r.1, status, ci, r.2@),
            keeps(self, r.0),
            r.0.log_tail == self.log_tail,
            r.0.wf(),
    {
        let pre = outcome_before_ci(status.phase);
        let outcome = final_outcome(pre, &ci);
        let receipt = build_receipt(&self, status, ci, log_tail, outcome);
        (
            DeployMachine {
                phase: DeployPhase::WriteReceipt,
                pending_receipt: Some(receipt),
                ..self
            },
            DeployAction::WriteReceipt,
            Vec::new(),
        )
    }

    fn on_read_archive(self, ev: DeployEvent) -> (r: (DeployMachine, DeployAction, Vec<JailgunEvent>))
        requires
            self.wf(),
            self.phase == DeployPhase::ReadArchive,
            ev is LocalArchive,
        ensures
            read_archive_rel(self, ev, r.0, r.1, r.2@),
            keeps(self, r.0),
            r.0.wf(),
    {
        match ev {
            DeployEvent::LocalArchive(Ok(bytes)) => {
                let sha = sha256_hex(bytes.as_slice());
                let dir = upload_dir(self.req.run_id.as_str(), self.req.tab_id);
                let mut path = dir.clone();
                push_str(&mut path, "/");
                push_str(&mut path, self.req.remote_archive_basename.as_str());
                let e = queued_event(&self.req, sha.as_str());
                (
                    DeployMachine {
                        phase: DeployPhase::EnsureDir,
                        archive: Ghost(bytes@),
                        local_sha256: sha,
                        remote_archive_path: path,
                        ..self
                    },
                    DeployAction::EnsureRemoteDir { dir },
                    one(e),
                )
            },
            DeployEvent::LocalArchive(Err(e)) => self.finish_err(e),
            _ => {
                proof {
                    assert(false);
                }
                (self, DeployAction::WriteReceipt, Vec::new())
            },
        }
    }

    fn on_ensure_dir(self, ev: DeployEvent) -> (r: (DeployMachine, DeployAction, Vec<JailgunEvent>))
        requires
            self.wf(),
            self.phase == DeployPhase::EnsureDir,
            ev is RemoteDirReady,
        ensures
            ensure_dir_rel(self, ev, r.0, r.1, r.2@),
            keeps(self, r.0),
            r.0.wf(),
    {
        match ev {
            DeployEvent::RemoteDirReady(Ok(())) => {
                let local_path = self.req.local_archive_path.clone();
                let remote_path = self.remote_archive_path.clone();
                (
                    DeployMachine { phase: DeployPhase::Upload, ..self },
                    DeployAction::UploadArchive { local_path, remote_path },
                    Vec::new(),
                )
            },
            DeployEvent::RemoteDirReady(Err(e)) => self.finish_step_err("ensure_remote_dir", e),
            _ => {
                proof {
                    assert(false);
                }
                (self, DeployAction::WriteReceipt, Vec::new())
            },
        }
    }

    fn on_upload(self, ev: DeployEvent) -> (r: (DeployMachine, DeployAction, Vec<JailgunEvent>))
        requires
            self.wf(),
            self.phase == DeployPhase::Upload,
            ev is Uploaded,
        ensures
            upload_rel(self, ev, r.0, r.1, r.2@),
            keeps(self, r.0),
            r.0.wf(),
    {
        match ev {
            DeployEvent::Uploaded(Ok(())) => {
                let remote_path = self.remote_archive_path.clone();
                (
                    DeployMachine { phase: DeployPhase::RemoteSha, ..self },
                    DeployAction::FetchRemoteSha { remote_path },
                    Vec::new(),
                )
            },
            DeployEvent::Uploaded(Err(e)) => self.finish_step_err("upload_archive", e),
            _ => {
                proof {
                    assert(false);
                }
                (self, DeployAction::WriteReceipt, Vec::new())
            },
        }
    }

    fn on_remote_sha(self, ev: DeployEvent) -> (r: (DeployMachine, DeployAction, Vec<JailgunEvent>))
        requires
            self.wf(),
            self.phase == DeployPhase::RemoteSha,
            ev is RemoteSha,
        ensures
            remote_sha_rel(self, ev, r.0, r.1, r.2@),
            keeps(self, r.0),
            r.0.wf(),
    {
        match ev {
            DeployEvent::RemoteSha(Ok(sha)) => {
                if str_eq(sha.as_str(), self.local_sha256.as_str()) {
                    let e = verified_event(&self.req, sha.as_str());
                    let spec = JobSpec {
                        run_id: self.req.run_id.clone(),
                        tab_id: self.req.tab_id,
                        remote_dir: self.req.remote_dir.clone(),
                        remote_archive_path: self.remote_archive_path.clone(),
                        remote_command: self.req.remote_command.clone(),
                        strip_components: self.req.strip_components,
                        local_sha256: self.local_sha256.clone(),
                        remote_sha256: sha.clone(),
                        stash_on_failure: self.req.stash_on_failure,
                    };
                    let sent = copy_spec(&spec);
                    (
                        DeployMachine {
                            phase: DeployPhase::Install,
                            remote_sha256: sha,
                            spec,
                            ..self
                        },
                        DeployAction::InstallLauncher { spec: sent },
                        one(e),
                    )
                } else {
                    let remote_path = self.remote_archive_path.clone();
                    (
                        DeployMachine {
                            phase: DeployPhase::RemoveMismatch,
                            remote_sha256: sha,
                            ..self
                        },
                        DeployAction::RemoveRemoteFile { remote_path },
                        Vec::new(),
                    )
                }
            },
            DeployEvent::RemoteSha(Err(e)) => self.finish_err(e),
            _ => {
                proof {
                    assert(false);
                }
                (self, DeployAction::WriteReceipt, Vec::new())
            },
        }
    }

    fn on_remove_mismatch(self) -> (r: (DeployMachine, DeployAction, Vec<JailgunEvent>))
        requires
            self.wf(),
            self.phase == DeployPhase::RemoveMismatch,
        ensures
            remove_mismatch_rel(self, DeployEvent::RemoteFileRemoved, r.0, r.1, r.2@),
            keeps(self, r.0),
            r.0.wf(),
    {
        let local = self.local_sha256.clone();
        let remote = self.remote_sha256.clone();
        let e = mismatch_event(&self.req, local.as_str(), remote.as_str());
        (
            DeployMachine { phase: DeployPhase::Finished, ..self },
            DeployAction::Finish { result: Err(DeployError::ShaMismatch { local, remote }) },
            one(e),
        )
    }

    fn on_install(self, ev: DeployEvent) -> (r: (DeployMachine, DeployAction, Vec<JailgunEvent>))
        requires
            self.wf(),
            self.phase == DeployPhase::Install,
            job_spec_is(self.spec, self),
            ev is LauncherInstalled,
        ensures
            install_rel(self, ev, r.0, r.1, r.2@),
            keeps(self, r.0),
            r.0.wf(),
    {
        match ev {
            DeployEvent::LauncherInstalled(Ok(h)) => {
                if self.req.dry_run {
                    let m = DeployMachine { handle: h, ..self };
                    let status = JobStatus {
                        phase: JobPhase::Queued,
                        exit_code: None,
                        pre_head: None,
                        post_head: None,
                        preserved_ref: None,
                        preserved_stash_ref: None,
                        failure_reason: None,
                        reset_ok: None,
                        log_tail: None,
                        files_changed: None,
                        additions: None,
                        deletions: None,
                        top_paths: Vec::new(),
                    };
                    let receipt = build_receipt(
                        &m,
                        status,
                        CiState::Skipped { reason: owned("dry-run") },
                        String::new(),
                        DeployOutcome::DryRunStaged,
                    );
                    (
                        DeployMachine {
                            phase: DeployPhase::WriteReceipt,
                            pending_receipt: Some(receipt),
                            ..m
                        },
                        DeployAction::WriteReceipt,
                        Vec::new(),
                    )
                } else {
                    let spec = copy_spec(&self.spec);
                    let sent = copy_handle(&h);
                    (
                        DeployMachine { phase: DeployPhase::StartJob, handle: h, ..self },
                        DeployAction::StartJob { spec, handle: sent },
                        Vec::new(),
                    )
                }
            },
            DeployEvent::LauncherInstalled(Err(e)) => self.finish_step_err("install_launcher", e),
            _ => {
                proof {
                    assert(false);
                }
                (self, DeployAction::WriteReceipt, Vec::new())
            },
        }
    }

    fn on_start_job(self, ev: DeployEvent) -> (r: (DeployMachine, DeployAction, Vec<JailgunEvent>))
        requires
            self.wf(),
            self.phase == DeployPhase::StartJob,
            ev is JobStarted,
        ensures
            start_job_rel(self, ev, r.0, r.1, r.2@),
            keeps(self, r.0),
            r.0.wf(),
    {
        match ev {
            DeployEvent::JobStarted(Ok(())) => (
                DeployMachine {
                    phase: DeployPhase::Deadline,
                    consecutive_errors: 0,
                    last_seen: JobPhase::MissingStatus,
                    ..self
                },
                DeployAction::CheckDeadline { restart_clock: true },
                Vec::new(),
            ),
            DeployEvent::JobStarted(Err(e)) => self.finish_step_err("start_job", e),
            _ => {
                proof {
                    assert(false);
                }
                (self, DeployAction::WriteReceipt, Vec::new())
            },
        }
    }

    fn on_deadline(self, millis: u64) -> (r: (DeployMachine, DeployAction, Vec<JailgunEvent>))
        requires
            self.wf(),
            self.phase == DeployPhase::Deadline,
        ensures
            deadline_rel(self, DeployEvent::Elapsed { millis }, r.0, r.1, r.2@),
            keeps(self, r.0),
            r.0.wf(),
    {
        let limit: u64 = self.req.status_max_minutes as u64 * 60000;
        if millis >= limit {
            let e = timeout_event(&self.req);
            let minutes = self.req.status_max_minutes;
            (
                DeployMachine { phase: DeployPhase::Finished, ..self },
                DeployAction::Finish { result: Err(DeployError::Timeout(minutes)) },
                one(e),
            )
        } else {
            let handle = copy_handle(&self.handle);
            let seconds = self.req.status_poll_seconds;
            (
                DeployMachine { phase: DeployPhase::Status, ..self },
                DeployAction::SleepThenFetchStatus { seconds, handle },
                Vec::new(),
            )
        }
    }

    fn on_status(self, ev: DeployEvent) -> (r: (DeployMachine, DeployAction, Vec<JailgunEvent>))
        requires
            self.wf(),
            self.phase == DeployPhase::Status,
            ev is StatusFetched,
        ensures
            status_rel(self, ev, r.0, r.1, r.2@),
            keeps(self, r.0),
            r.0.wf(),
    {
        match ev {
            DeployEvent::StatusFetched(Ok(st)) => {
                let e = status_progress_event(&self.req, &st);
                if st.phase.is_terminal() {
                    let handle = copy_handle(&self.handle);
                    (
                        DeployMachine {
                            phase: DeployPhase::LogTail,
                            consecutive_errors: 0,
                            status: st,
                            ..self
                        },
                        DeployAction::FetchLogTail { handle, lines: LOG_TAIL_LINES },
                        one(e),
                    )
                } else {
                    let seen = st.phase;
                    (
                        DeployMachine {
                            phase: DeployPhase::Deadline,
                            consecutive_errors: 0,
                            last_seen: seen,
                            ..self
                        },
                        DeployAction::CheckDeadline { restart_clock: false },
                        one(e),
                    )
                }
            },
            DeployEvent::StatusFetched(Err(err)) => {
                let n: u8 = self.consecutive_errors + 1;
                let e = status_error_event(&self.req, n, self.last_seen);
                if n >= MAX_STATUS_ERRORS {
                    (
                        DeployMachine { phase: DeployPhase::Finished, ..self },
                        DeployAction::Finish { result: Err(err) },
                        one(e),
                    )
                } else {
                    (
                        DeployMachine {
                            phase: DeployPhase::Deadline,
                            consecutive_errors: n,
                            ..self
                        },
                        DeployAction::CheckDeadline { restart_clock: false },
                        one(e),
                    )
                }
            },
            _ => {
                proof {
                    assert(false);
                }
                (self, DeployAction::WriteReceipt, Vec::new())
            },
        }
    }

    fn on_log_tail(self, ev: DeployEvent) -> (r: (DeployMachine, DeployAction, Vec<JailgunEvent>))
        requires
            self.wf(),
            self.phase == DeployPhase::LogTail,
            ev is LogTail,
        ensures
            log_tail_rel(self, ev, r.0, r.1, r.2@),
            keeps(self, r.0),
            r.0.wf(),
    {
        let ghost m0 = self;
        let raw = match ev {
            DeployEvent::LogTail(Ok(t)) => t,
            _ => String::new(),
        };
        let tail = truncate_log_tail(raw.as_str(), 20, 4096);
        let pre = outcome_before_ci(self.status.phase);
        let track = should_track_ci(pre, self.req.ci_tracker_enabled, &self.status);
        let mut me = self;
        let mut st = JobStatus::missing();
        std::mem::swap(&mut st, &mut me.status);
        st.log_tail = Some(tail.clone());
        if track {
            if me.req.ci_max_attempts >= 1 {
                let commit = match &st.post_head {
                    Some(c) => c.clone(),
                    None => String::new(),
                };
                let branch = me.req.ci_branch.clone();
                (
                    DeployMachine {
                        phase: DeployPhase::Ci,
                        status: st,
                        log_tail: tail,
                        ci_attempt: 1,
                        last_ci: CiState::Unknown,
                        ..me
                    },
                    DeployAction::CheckCi { commit, branch },
                    Vec::new(),
                )
            } else {
                let m = DeployMachine { log_tail: tail.clone(), ..me };
                m.write_run_receipt(st, CiState::Unknown, tail)
            }
        } else {
            let ci = match pre {
                DeployOutcome::Succeeded => CiState::Skipped {
                    reason: owned("no-commit-change-or-disabled"),
                },
                _ => CiState::Unknown,
            };
            let m = DeployMachine { log_tail: tail.clone(), ..me };
            m.write_run_receipt(st, ci, tail)
        }
    }

    fn on_ci(self, ev: DeployEvent) -> (r: (DeployMachine, DeployAction, Vec<JailgunEvent>))
        requires
            self.wf(),
            self.phase == DeployPhase::Ci,
            ev is CiChecked,
        ensures
            ci_rel(self, ev, r.0, r.1, r.2@),
            keeps(self, r.0),
            r.0.wf(),
    {
        match ev {
            DeployEvent::CiChecked(Ok(state)) => {
                let e = ci_progress_event(&self.req, &state, self.ci_attempt);
                if let CiState::Failed { run_id, .. } = &state {
                    let ci_run_id = run_id.clone();
                    (
                        DeployMachine { phase: DeployPhase::FailureLog, pending_ci: state, ..self },
                        DeployAction::CaptureFailureLog { ci_run_id, max_bytes: CI_LOG_MAX_BYTES },
                        one(e),
                    )
                } else if state.is_terminal() {
                    let mut me = self;
                    let mut st = JobStatus::missing();
                    std::mem::swap(&mut st, &mut me.status);
                    let tail = me.log_tail.clone();
                    let (m, a, _) = me.write_run_receipt(st, state, tail);
                    (m, a, one(e))
                } else {
                    let seconds = self.req.ci_poll_seconds;
                    (
                        DeployMachine { phase: DeployPhase::CiSleep, last_ci: state, ..self },
                        DeployAction::SleepBeforeNextCi { seconds },
                        one(e),
                    )
                }
            },
            DeployEvent::CiChecked(Err(_)) => {
                let e = ci_error_event(&self.req, self.ci_attempt);
                let seconds = self.req.ci_poll_seconds;
                (
                    DeployMachine { phase: DeployPhase::CiSleep, ..self },
                    DeployAction::SleepBeforeNextCi { seconds },
                    one(e),
                )
            },
            _ => {
                proof {
                    assert(false);
                }
                (self, DeployAction::WriteReceipt, Vec::new())
            },
        }
    }

    fn on_failure_log(self, ev: DeployEvent) -> (r: (DeployMachine, DeployAction, Vec<JailgunEvent>))
        requires
            self.wf(),
            self.phase == DeployPhase::FailureLog,
            ev is FailureLog,
        ensures
            failure_log_rel(self, ev, r.0, r.1, r.2@),
            keeps(self, r.0),
            r.0.wf(),
    {
        let excerpt = match ev {
            DeployEvent::FailureLog(Ok(t)) => Some(t),
            _ => None,
        };
        let mut me = self;
        let mut pending = CiState::Unknown;
        std::mem::swap(&mut pending, &mut me.pending_ci);
        let ci = match pending {
            CiState::Failed { run_id, run_url, conclusion, .. } => CiState::Failed {
                run_id,
                run_url,
                conclusion,
                log_excerpt: excerpt,
            },
            other => other,
        };
        let mut st = JobStatus::missing();
        std::mem::swap(&mut st, &mut me.status);
        let tail = me.log_tail.clone();
        me.write_run_receipt(st, ci, tail)
    }

    fn on_ci_sleep(self) -> (r: (DeployMachine, DeployAction, Vec<JailgunEvent>))
        requires
            self.wf(),
            self.phase == DeployPhase::CiSleep,
        ensures
            ci_sleep_rel(self, r.0, r.1, r.2@),
            keeps(self, r.0),
            r.0.wf(),
    {
        if self.ci_attempt < self.req.ci_max_attempts {
            let commit = match &self.status.post_head {
                Some(c) => c.clone(),
                None => String::new(),
            };
            let branch = self.req.ci_branch.clone();
            let next = self.ci_attempt + 1;
            (
                DeployMachine { phase: DeployPhase::Ci, ci_attempt: next, ..self },
                DeployAction::CheckCi { commit, branch },
                Vec::new(),
            )
        } else {
            let mut me = self;
            let mut last = CiState::Unknown;
            std::mem::swap(&mut last, &mut me.last_ci);
            let mut st = JobStatus::missing();
            std::mem::swap(&mut st, &mut me.status);
            let tail = me.log_tail.clone();
            me.write_run_receipt(st, last, tail)
        }
    }

    fn on_receipt_written(self, ev: DeployEvent) -> (r: (
        DeployMachine,
        DeployAction,
        Vec<JailgunEvent>,
    ))
        requires
            self.wf(),
            self.phase == DeployPhase::WriteReceipt,
            ev is ReceiptWritten,
        ensures
            write_receipt_rel(self, ev, r.0, r.1, r.2@),
            keeps(self, r.0),
            r.0.wf(),
    {
        match ev {
            DeployEvent::ReceiptWritten(Ok(path)) => {
                let mut me = self;
                let mut pending: Option<DeployReceipt> = None;
                std::mem::swap(&mut pending, &mut me.pending_receipt);
                match pending {
                    Some(r0) => {
                        let receipt = DeployReceipt { receipt_path: Some(path), ..r0 };
                        let e = finished_event(&me.req, &receipt);
                        (
                            DeployMachine { phase: DeployPhase::Finished, ..me },
                            DeployAction::Finish { result: Ok(receipt) },
                            one(e),
                        )
                    },
                    None => {
                        proof {
                            assert(false);
                        }
                        (me, DeployAction::WriteReceipt, Vec::new())
                    },
                }
            },
            DeployEvent::ReceiptWritten(Err(e)) => self.finish_err(e),
            _ => {
                proof {
                    assert(false);
                }
                (self, DeployAction::WriteReceipt, Vec::new())
            },
        }
    }
}

/// A receipt is handed back only once written; its upload was verified,
/// and its outcome follows from the job's final phase and the CI state
/// (or is the staged outcome of a dry run).
pub open spec fn finished_receipt_law(dry_run: bool, act: DeployAction) -> bool {
    match act {
        DeployAction::Finish { result: Ok(rc) } => {
            &&& rc.receipt_path.is_some()
            &&& rc.remote_sha256@ == rc.local_sha256@
            &&& if dry_run {
                rc.outcome == DeployOutcome::DryRunStaged
            } else {
                rc.outcome == final_outcome_spec(
                    outcome_before_ci_spec(rc.final_status.phase),
                    rc.ci_state,
                )
            }
        },
        _ => true,
    }
}

/// One step of a deploy from `m0` with what came of its last action,
/// `ev`, to the state, action and published events `r`: each phase's
/// transition by its relation, then the safety laws of a deploy.
pub open spec fn deploy_step(m0: DeployMachine, ev: DeployEvent, r: (DeployMachine, DeployAction, Vec<JailgunEvent>)) -> bool {
    &&& (r.0.wf())
    &&& (keeps(m0, r.0))
    &&& (m0.phase == DeployPhase::ReadArchive ==> read_archive_rel(m0, ev, r.0, r.1, r.2@))
    &&& (m0.phase == DeployPhase::EnsureDir ==> ensure_dir_rel(m0, ev, r.0, r.1, r.2@))
    &&& (m0.phase == DeployPhase::Upload ==> upload_rel(m0, ev, r.0, r.1, r.2@))
    &&& (m0.phase == DeployPhase::RemoteSha ==> remote_sha_rel(m0, ev, r.0, r.1, r.2@))
    &&& (m0.phase == DeployPhase::RemoveMismatch ==> remove_mismatch_rel(
                m0,
                ev,
                r.0,
                r.1,
                r.2@,
            ))
    &&& (m0.phase == DeployPhase::Install ==> install_rel(m0, ev, r.0, r.1, r.2@))
    &&& (m0.phase == DeployPhase::StartJob ==> start_job_rel(m0, ev, r.0, r.1, r.2@))
    &&& (m0.phase == DeployPhase::Deadline ==> deadline_rel(m0, ev, r.0, r.1, r.2@))
    &&& (m0.phase == DeployPhase::Status ==> status_rel(m0, ev, r.0, r.1, r.2@))
    &&& (m0.phase == DeployPhase::LogTail ==> log_tail_rel(m0, ev, r.0, r.1, r.2@))
    &&& (m0.phase == DeployPhase::Ci ==> ci_rel(m0, ev, r.0, r.1, r.2@))
    &&& (m0.phase == DeployPhase::FailureLog ==> failure_log_rel(m0, ev, r.0, r.1, r.2@))
    &&& (m0.phase == DeployPhase::CiSleep ==> ci_sleep_rel(m0, r.0, r.1, r.2@))
    &&& (m0.phase == DeployPhase::WriteReceipt ==> write_receipt_rel(m0, ev, r.0, r.1, r.2@))
    // a dry run never starts the job
    &&& (r.1 is StartJob ==> !m0.req.dry_run)
    // the launcher is installed only over an upload whose remote
    // checksum is that of the archive that was read
    &&& (r.1 is InstallLauncher ==> r.0.remote_sha256@ == r.0.local_sha256@
                && r.0.local_sha256@ == sha256_hex_of(r.0.archive@))
    // a receipt handed back names the checksum of the archive read,
    // on both sides
    &&& (r.1 matches DeployAction::Finish { result: Ok(rc) } ==> rc.local_sha256@ == sha256_hex_of(
                r.0.archive@,
            ) && rc.remote_sha256@ == sha256_hex_of(r.0.archive@))
    // a removed mismatched upload ends the deploy with the archive's
    // checksum and the different remote one
    &&& (m0.phase == DeployPhase::RemoveMismatch ==> (r.1 matches DeployAction::Finish {
                result: Err(DeployError::ShaMismatch { local, remote }),
            } && local@ == sha256_hex_of(r.0.archive@) && remote@ != local@))
    // CI is queried only for a job that succeeded with a new head
    &&& (r.1 is CheckCi ==> should_track_ci_spec(
                outcome_before_ci_spec(r.0.status.phase),
                m0.req.ci_tracker_enabled,
                r.0.status,
            ))
    // a receipt is handed back only once written, with its outcome
    // following from the job's final phase and the CI state
    &&& (finished_receipt_law(m0.req.dry_run, r.1))
}

impl DeployMachine {
    /// Advances the deploy with what came of its last action, and returns
    /// the next action with the events to publish before it.
    ///
    /// Each phase's transition is stated by its relation; the last clauses
    /// are the safety laws of a deploy.
    pub fn step(self, ev: DeployEvent) -> (r: (DeployMachine, DeployAction, Vec<JailgunEvent>))
        requires
            self.wf(),
            self.expects(&ev),
        ensures
            deploy_step(self, ev, r),
    {
        match self.phase {
            DeployPhase::ReadArchive => self.on_read_archive(ev),
            DeployPhase::EnsureDir => self.on_ensure_dir(ev),
            DeployPhase::Upload => self.on_upload(ev),
            DeployPhase::RemoteSha => self.on_remote_sha(ev),
            DeployPhase::RemoveMismatch => self.on_remove_mismatch(),
            DeployPhase::Install => self.on_install(ev),
            DeployPhase::StartJob => self.on_start_job(ev),
            DeployPhase::Deadline => {
                let millis = match ev {
                    DeployEvent::Elapsed { millis } => millis,
                    _ => 0,
                };
                self.on_deadline(millis)
            },
            DeployPhase::Status => self.on_status(ev),
            DeployPhase::LogTail => self.on_log_tail(ev),
            DeployPhase::Ci => self.on_ci(ev),
            DeployPhase::FailureLog => self.on_failure_log(ev),
            DeployPhase::CiSleep => self.on_ci_sleep(),
            DeployPhase::WriteReceipt => self.on_receipt_written(ev),
            DeployPhase::Finished => {
                proof {
                    assert(false);
                }
                (self, DeployAction::WriteReceipt, Vec::new())
            },
        }
    }
}

// ---------------------------------------------------------------------
// Whole deploys
// ---------------------------------------------------------------------

/// A run of a deploy: `ms[0]` is a started deploy that asked to read its
/// archive (`acts[0]`), and each `ms[i + 1]` with `acts[i + 1]` and the
/// published `outs[i + 1]` is a step of `ms[i]` with the answer `evs[i]`
/// it waited for.
pub open spec fn deploy_run(
    ms: Seq<DeployMachine>,
    evs: Seq<DeployEvent>,
    acts: Seq<DeployAction>,
    outs: Seq<Vec<JailgunEvent>>,
) -> bool {
    &&& ms.len() == evs.len() + 1
    &&& acts.len() == ms.len()
    &&& outs.len() == ms.len()
    &&& ms[0].wf()
    &&& ms[0].phase == DeployPhase::ReadArchive
    &&& acts[0] is ReadLocalArchive
    &&& forall|i: int|
        #![trigger evs[i]]
        0 <= i < evs.len() ==> ms[i].expects(&evs[i]) && deploy_step(ms[i], evs[i], (ms[i + 1], acts[i + 1], outs[i + 1]))
}

proof fn lemma_run_keeps_request(
    ms: Seq<DeployMachine>,
    evs: Seq<DeployEvent>,
    acts: Seq<DeployAction>,
    outs: Seq<Vec<JailgunEvent>>,
    i: int,
)
    requires
        deploy_run(ms, evs, acts, outs),
        0 <= i < ms.len(),
    ensures
        ms[i].req == ms[0].req,
        ms[i].wf(),
    decreases i,
{
    if i > 0 {
        lemma_run_keeps_request(ms, evs, acts, outs, i - 1);
        assert(deploy_step(ms[i - 1], evs[i - 1], (ms[i], acts[i], outs[i])));
    }
}

proof fn lemma_run_ends_when_finished(
    ms: Seq<DeployMachine>,
    evs: Seq<DeployEvent>,
    acts: Seq<DeployAction>,
    outs: Seq<Vec<JailgunEvent>>,
    i: int,
)
    requires
        deploy_run(ms, evs, acts, outs),
        0 <= i < ms.len(),
        ms[i].phase == DeployPhase::Finished,
    ensures
        i == evs.len(),
{
    if i < evs.len() {
        assert(ms[i].expects(&evs[i]));
    }
}

/// The phases before the remote checksum is known.
pub open spec fn before_checksum(p: DeployPhase) -> bool {
    p == DeployPhase::ReadArchive || p == DeployPhase::EnsureDir || p == DeployPhase::Upload || p
        == DeployPhase::RemoteSha
}

proof fn lemma_no_way_back(
    ms: Seq<DeployMachine>,
    evs: Seq<DeployEvent>,
    acts: Seq<DeployAction>,
    outs: Seq<Vec<JailgunEvent>>,
    i: int,
    k: int,
)
    requires
        deploy_run(ms, evs, acts, outs),
        0 <= i <= k < ms.len(),
        !before_checksum(ms[i].phase),
    ensures
        !before_checksum(ms[k].phase),
    decreases k - i,
{
    if i < k {
        assert(deploy_step(ms[i], evs[i], (ms[i + 1], acts[i + 1], outs[i + 1])));
        lemma_no_way_back(ms, evs, acts, outs, i + 1, k);
    }
}

proof fn lemma_early_phases(
    ms: Seq<DeployMachine>,
    evs: Seq<DeployEvent>,
    acts: Seq<DeployAction>,
    outs: Seq<Vec<JailgunEvent>>,
    j: int,
    i: int,
)
    requires
        deploy_run(ms, evs, acts, outs),
        0 <= i <= j < evs.len(),
        ms[j].phase == DeployPhase::RemoteSha,
    ensures
        i <= 3,
        i == 0 ==> ms[i].phase == DeployPhase::ReadArchive && acts[i] is ReadLocalArchive,
        i == 1 ==> (ms[i].phase == DeployPhase::EnsureDir && acts[i] is EnsureRemoteDir
            && (evs[0] matches DeployEvent::LocalArchive(Ok(bytes)) && ms[i].local_sha256@ == sha256_hex_of(bytes@))),
        i == 2 ==> ms[i].phase == DeployPhase::Upload && acts[i] is UploadArchive
            && ms[i].local_sha256 == ms[1].local_sha256,
        i == 3 ==> ms[i].phase == DeployPhase::RemoteSha && acts[i] is FetchRemoteSha
            && ms[i].local_sha256 == ms[1].local_sha256,
    decreases i,
{
    if before_checksum(ms[i].phase) {
    } else {
        lemma_no_way_back(ms, evs, acts, outs, i, j);
    }
    if i > 0 {
        lemma_early_phases(ms, evs, acts, outs, j, i - 1);
        assert(deploy_step(ms[i - 1], evs[i - 1], (ms[i], acts[i], outs[i])));
        if ms[i].phase == DeployPhase::Finished {
            lemma_run_ends_when_finished(ms, evs, acts, outs, i);
        }
    }
}

/// A remote checksum that differs from the archive's ends the deploy: the
/// archive was read, its directory prepared and the upload made, then the
/// upload is removed and the deploy ends with `ShaMismatch`, naming the
/// checksum of the bytes read and the remote one, with one error event of
/// the `upload-sha-mismatch` outcome; the launcher is never installed, the
/// job never started and no receipt written.
pub proof fn lemma_sha_mismatch_ends_deploy(
    ms: Seq<DeployMachine>,
    evs: Seq<DeployEvent>,
    acts: Seq<DeployAction>,
    outs: Seq<Vec<JailgunEvent>>,
    j: int,
)
    requires
        deploy_run(ms, evs, acts, outs),
        0 <= j < evs.len(),
        ms[j].phase == DeployPhase::RemoteSha,
        evs[j] matches DeployEvent::RemoteSha(Ok(r)) && r@ != ms[j].local_sha256@,
    ensures
        j == 3,
        evs.len() <= 5,
        acts[0] is ReadLocalArchive,
        acts[1] is EnsureRemoteDir,
        acts[2] is UploadArchive,
        acts[3] is FetchRemoteSha,
        acts[4] matches DeployAction::RemoveRemoteFile { remote_path } && remote_path == ms[3].remote_archive_path,
        evs.len() == 5 ==> ({
            &&& acts[5] matches DeployAction::Finish { result: Err(DeployError::ShaMismatch { local, remote }) }
            &&& evs[0] matches DeployEvent::LocalArchive(Ok(bytes))
            &&& evs[3] matches DeployEvent::RemoteSha(Ok(r))
            &&& local@ == sha256_hex_of(bytes@)
            &&& remote == r
            &&& outs[5]@.len() == 1
            &&& tab_event_is(
                outs[5]@[0],
                ms[0].req,
                EventKind::DeployFinished,
                "remote sha mismatch"@,
                Severity::Error,
                mismatch_fields(local@, remote@),
            )
        }),
        forall|i: int|
            0 <= i < acts.len() ==> !(#[trigger] acts[i] is InstallLauncher) && !(acts[i] is StartJob) && !(
            acts[i] is WriteReceipt),
{
    lemma_early_phases(ms, evs, acts, outs, j, j);
    lemma_early_phases(ms, evs, acts, outs, j, 0);
    lemma_early_phases(ms, evs, acts, outs, j, 1);
    lemma_early_phases(ms, evs, acts, outs, j, 2);
    lemma_early_phases(ms, evs, acts, outs, j, 3);
    assert(deploy_step(ms[3], evs[3], (ms[4], acts[4], outs[4])));
    assert(ms[4].phase == DeployPhase::RemoveMismatch);
    if evs.len() > 4 {
        assert(deploy_step(ms[4], evs[4], (ms[5], acts[5], outs[5])));
        lemma_run_ends_when_finished(ms, evs, acts, outs, 5);
        lemma_run_keeps_request(ms, evs, acts, outs, 4);
    }
}

/// A dry run never starts the job, polls its status, reads its log or
/// asks CI; when it hands a receipt back, the receipt is written, staged
/// and records CI as skipped for the dry run.
pub proof fn lemma_dry_run_stages(
    ms: Seq<DeployMachine>,
    evs: Seq<DeployEvent>,
    acts: Seq<DeployAction>,
    outs: Seq<Vec<JailgunEvent>>,
)
    requires
        deploy_run(ms, evs, acts, outs),
        ms[0].req.dry_run,
    ensures
        forall|i: int|
            0 <= i < acts.len() ==> !(#[trigger] acts[i] is StartJob) && !(acts[i] is SleepThenFetchStatus) && !(
            acts[i] is FetchLogTail) && !(acts[i] is CheckCi),
        forall|i: int|
            0 <= i < acts.len() ==> (#[trigger] acts[i] matches DeployAction::Finish { result: Ok(rc) } ==> {
                &&& rc.outcome == DeployOutcome::DryRunStaged
                &&& rc.ci_state matches CiState::Skipped { reason } && reason@ == "dry-run"@
                &&& rc.receipt_path is Some
                &&& rc.final_status.phase == JobPhase::Queued
            }),
{
    assert forall|i: int| 0 <= i < acts.len() implies ({
        &&& !(#[trigger] acts[i] is StartJob) && !(acts[i] is SleepThenFetchStatus) && !(acts[i] is FetchLogTail)
            && !(acts[i] is CheckCi)
        &&& acts[i] matches DeployAction::Finish { result: Ok(rc) } ==> {
            &&& rc.outcome == DeployOutcome::DryRunStaged
            &&& rc.ci_state matches CiState::Skipped { reason } && reason@ == "dry-run"@
            &&& rc.receipt_path is Some
            &&& rc.final_status.phase == JobPhase::Queued
        }
    }) by {
        if i > 0 {
            lemma_run_keeps_request(ms, evs, acts, outs, i - 1);
            assert(deploy_step(ms[i - 1], evs[i - 1], (ms[i], acts[i], outs[i])));
        }
    }
}

/// A deploy that ran its job hands back a written receipt whose outcome
/// follows from the job's final phase and the CI state: a job that did
/// not succeed records CI as unknown, and a job that succeeded with CI
/// not tracked records it as skipped.
pub proof fn lemma_run_outcome(
    ms: Seq<DeployMachine>,
    evs: Seq<DeployEvent>,
    acts: Seq<DeployAction>,
    outs: Seq<Vec<JailgunEvent>>,
)
    requires
        deploy_run(ms, evs, acts, outs),
        !ms[0].req.dry_run,
    ensures
        forall|i: int|
            0 <= i < acts.len() ==> (#[trigger] acts[i] matches DeployAction::Finish { result: Ok(rc) } ==> {
                &&& rc.receipt_path is Some
                &&& rc.final_status.phase.is_terminal_spec()
                &&& rc.outcome == final_outcome_spec(outcome_before_ci_spec(rc.final_status.phase), rc.ci_state)
                &&& ci_recorded(rc.final_status, rc.ci_state, ms[0].req.ci_tracker_enabled)
            }),
{
    assert forall|i: int| 0 <= i < acts.len() implies (#[trigger] acts[i] matches DeployAction::Finish {
        result: Ok(rc),
    } ==> {
        &&& rc.receipt_path is Some
        &&& rc.final_status.phase.is_terminal_spec()
        &&& rc.outcome == final_outcome_spec(outcome_before_ci_spec(rc.final_status.phase), rc.ci_state)
        &&& ci_recorded(rc.final_status, rc.ci_state, ms[0].req.ci_tracker_enabled)
    }) by {
        if i > 0 {
            lemma_run_keeps_request(ms, evs, acts, outs, i - 1);
            assert(deploy_step(ms[i - 1], evs[i - 1], (ms[i], acts[i], outs[i])));
        }
    }
}

} // verus!
