//! Remote checkout cleanup before a deploy.
//!
//! The decisions of the cleanup live in [`CleanupMachine`]: it is started
//! with a request and the current time, names the next remote operation to
//! perform ([`CleanupAction`]) and is fed the outcome of each operation
//! ([`CleanupEvent`]).  The caller performs the operations (SSH, files) and
//! stops when the machine answers [`CleanupAction::Finish`].
use vstd::prelude::*;
use crate::text::{
    chars_of, clone_opt, is_ascii_alnum, is_blank, join_path, opt_view, owned, push_char,
    push_pad2, push_str, str_eq, string_of_range, trim_seq,
};
use crate::text::{decimal, path_join};

verus! {

// ---------------------------------------------------------------------
// Data
// ---------------------------------------------------------------------

/// What to do when the remote HEAD differs from `origin/main`.
#[derive(Debug, Clone, Copy, PartialEq, Eq)]
pub enum CleanupPolicy {
    Block,
    Adopt,
    PreserveReset,
}

impl Default for CleanupPolicy {
    /// A divergent checkout is preserved under a ref, then reset.
    fn default() -> (r: CleanupPolicy)
        ensures
            r == CleanupPolicy::PreserveReset,
    {
        CleanupPolicy::PreserveReset
    }
}

/// What the remote checkout looks like.
#[derive(Debug, Clone, PartialEq, Eq)]
pub struct RemoteSnapshot {
    pub head: Option<String>,
    pub origin_main: Option<String>,
    pub status_short: String,
}

impl RemoteSnapshot {
    /// A snapshot with no local modifications.
    pub fn clean(head: &str, origin_main: &str) -> (s: RemoteSnapshot)
        ensures
            opt_view(s.head) == Some(head@),
            opt_view(s.origin_main) == Some(origin_main@),
            s.status_short@.len() == 0,
    {
        RemoteSnapshot {
            head: Some(owned(head)),
            origin_main: Some(owned(origin_main)),
            status_short: String::new(),
        }
    }

    /// A snapshot whose `git status --short` reported `status_short`.
    pub fn dirty(head: &str, origin_main: &str, status_short: &str) -> (s: RemoteSnapshot)
        ensures
            opt_view(s.head) == Some(head@),
            opt_view(s.origin_main) == Some(origin_main@),
            s.status_short@ == status_short@,
    {
        RemoteSnapshot {
            head: Some(owned(head)),
            origin_main: Some(owned(origin_main)),
            status_short: owned(status_short),
        }
    }

    pub open spec fn is_clean_spec(&self) -> bool {
        trim_seq(self.status_short@).len() == 0
    }

    /// Clean when the status output is blank.
    pub fn is_clean(&self) -> (r: bool)
        ensures
            r == self.is_clean_spec(),
    {
        is_blank(self.status_short.as_str())
    }
}

/// How the cleanup ended.
#[derive(Debug, Clone, Copy, PartialEq, Eq)]
pub enum CleanupOutcome {
    AlreadySynced,
    BlockedDivergent,
    PreservedReset,
    Adopted,
}

/// A request to bring a remote checkout to `origin/main`.
#[derive(Debug, Clone, PartialEq, Eq)]
pub struct CleanupRequest {
    pub run_id: String,
    pub tab_id: Option<u16>,
    pub remote_host: String,
    pub remote_dir: String,
    pub policy: CleanupPolicy,
    pub receipt_dir: String,
}

/// The durable record of a cleanup.
#[derive(Debug, Clone, PartialEq, Eq)]
pub struct CleanupReceipt {
    pub run_id: String,
    pub tab_id: Option<u16>,
    pub remote_host: String,
    pub remote_dir: String,
    pub policy: CleanupPolicy,
    pub outcome: CleanupOutcome,
    pub timestamp: String,
    pub initial_head: Option<String>,
    pub initial_origin_main: Option<String>,
    pub preserved_ref: Option<String>,
    pub preserved_sha: Option<String>,
    pub reset_to: Option<String>,
    pub final_head: Option<String>,
    pub final_status_short: String,
    pub receipt_path: Option<String>,
}

/// Why a cleanup stopped.
#[derive(Debug, Clone, PartialEq, Eq)]
pub enum CleanupError {
    DirtyRemote { status_short: String },
    MissingOriginMain,
    MissingHead,
    DivergentBlocked { head: String, origin_main: String },
    PreserveRef(String),
    Receipt(String),
    Reset(String),
    Fetch(String),
    Backend(String),
}

/// The human-readable message of a cleanup error.
pub open spec fn cleanup_error_message(e: CleanupError) -> Seq<char> {
    match e {
        CleanupError::DirtyRemote { .. } => "remote checkout is dirty; refusing cleanup"@,
        CleanupError::MissingOriginMain => "remote origin/main is missing"@,
        CleanupError::MissingHead => "remote HEAD is missing"@,
        CleanupError::DivergentBlocked { .. } =>
            "remote HEAD differs from origin/main and policy is block"@,
        CleanupError::PreserveRef(s) => "preservation ref creation failed: "@ + s@,
        CleanupError::Receipt(s) => "preservation receipt write failed: "@ + s@,
        CleanupError::Reset(s) => "remote reset failed: "@ + s@,
        CleanupError::Fetch(s) => "remote fetch failed: "@ + s@,
        CleanupError::Backend(s) => "backend error: "@ + s@,
    }
}

impl CleanupError {
    /// The message a user sees for this error.
    pub fn message(&self) -> (s: String)
        ensures
            s@ == cleanup_error_message(*self),
    {
        let mut s = String::new();
        match self {
            CleanupError::DirtyRemote { .. } => push_str(
                &mut s,
                "remote checkout is dirty; refusing cleanup",
            ),
            CleanupError::MissingOriginMain => push_str(&mut s, "remote origin/main is missing"),
            CleanupError::MissingHead => push_str(&mut s, "remote HEAD is missing"),
            CleanupError::DivergentBlocked { .. } => push_str(
                &mut s,
                "remote HEAD differs from origin/main and policy is block",
            ),
            CleanupError::PreserveRef(m) => {
                push_str(&mut s, "preservation ref creation failed: ");
                push_str(&mut s, m.as_str());
            },
            CleanupError::Receipt(m) => {
                push_str(&mut s, "preservation receipt write failed: ");
                push_str(&mut s, m.as_str());
            },
            CleanupError::Reset(m) => {
                push_str(&mut s, "remote reset failed: ");
                push_str(&mut s, m.as_str());
            },
            CleanupError::Fetch(m) => {
                push_str(&mut s, "remote fetch failed: ");
                push_str(&mut s, m.as_str());
            },
            CleanupError::Backend(m) => {
                push_str(&mut s, "backend error: ");
                push_str(&mut s, m.as_str());
            },
        }
        s
    }
}

// ---------------------------------------------------------------------
// Names and paths
// ---------------------------------------------------------------------

/// A character kept in a ref name; others become `-`.
pub open spec fn ref_char(c: char) -> char {
    if is_ascii_alnum(c) || c == '-' || c == '_' {
        c
    } else {
        '-'
    }
}

/// `s` without leading dashes.
pub open spec fn trim_dashes_start(s: Seq<char>) -> Seq<char>
    decreases s.len(),
{
    if s.len() > 0 && s[0] == '-' {
        trim_dashes_start(s.drop_first())
    } else {
        s
    }
}

/// `s` without trailing dashes.
pub open spec fn trim_dashes_end(s: Seq<char>) -> Seq<char>
    decreases s.len(),
{
    if s.len() > 0 && s.last() == '-' {
        trim_dashes_end(s.drop_last())
    } else {
        s
    }
}

/// A string reduced to `[A-Za-z0-9_-]` (other characters become `-`),
/// with leading and trailing dashes removed, or `unknown` when nothing is
/// left.
pub open spec fn sanitize_spec(s: Seq<char>) -> Seq<char> {
    let mapped = s.map_values(|c: char| ref_char(c));
    let t = trim_dashes_end(trim_dashes_start(mapped));
    if t.len() == 0 {
        "unknown"@
    } else {
        t
    }
}

proof fn lemma_trim_dashes_start(s: Seq<char>)
    ensures
        trim_dashes_start(s).len() <= s.len(),
        trim_dashes_start(s) == s.skip(s.len() - trim_dashes_start(s).len()),
    decreases s.len(),
{
    if s.len() > 0 && s[0] == '-' {
        lemma_trim_dashes_start(s.drop_first());
        assert(s.drop_first().skip(s.drop_first().len() - trim_dashes_start(s).len()) == s.skip(
            s.len() - trim_dashes_start(s).len(),
        ));
    } else {
        assert(s.skip(0) == s);
    }
}

/// `sanitize_ref_fragment`: a string fit for a git ref or file name.
pub fn sanitize_ref_fragment(value: &str) -> (r: String)
    ensures
        r@ == sanitize_spec(value@),
{
    let v = chars_of(value);
    let mut mapped: Vec<char> = Vec::new();
    let mut i: usize = 0;
    while i < v.len()
        invariant
            v@ == value@,
            i <= v.len(),
            mapped@ == v@.take(i as int).map_values(|c: char| ref_char(c)),
        decreases v.len() - i,
    {
        let c = v[i];
        let m = if ('0' <= c && c <= '9') || ('a' <= c && c <= 'z') || ('A' <= c && c <= 'Z')
            || c == '-' || c == '_' {
            c
        } else {
            '-'
        };
        mapped.push(m);
        assert(v@.take(i + 1).map_values(|c: char| ref_char(c)) == v@.take(i as int).map_values(
            |c: char| ref_char(c),
        ).push(ref_char(v@[i as int])));
        i += 1;
    }
    assert(v@.take(v@.len() as int) == v@);
    let ghost m = mapped@;
    let mut lo: usize = 0;
    assert(m.skip(0) == m);
    while lo < mapped.len() && mapped[lo] == '-'
        invariant
            mapped@ == m,
            lo <= mapped.len(),
            trim_dashes_start(m.skip(lo as int)) == trim_dashes_start(m),
        decreases mapped.len() - lo,
    {
        assert(m.skip(lo as int).drop_first() == m.skip(lo + 1));
        lo += 1;
    }
    let ghost ts = m.skip(lo as int);
    assert(trim_dashes_start(m) == ts);
    let mut hi: usize = mapped.len();
    assert(ts == m.subrange(lo as int, hi as int));
    while hi > lo && mapped[hi - 1] == '-'
        invariant
            mapped@ == m,
            lo <= hi <= mapped.len(),
            trim_dashes_end(m.subrange(lo as int, hi as int)) == trim_dashes_end(ts),
        decreases hi - lo,
    {
        assert(m.subrange(lo as int, hi as int).drop_last() == m.subrange(lo as int, hi - 1));
        hi -= 1;
    }
    if hi == lo {
        assert(trim_dashes_end(ts) == m.subrange(lo as int, hi as int));
        owned("unknown")
    } else {
        let r = string_of_range(&mapped, lo, hi);
        r
    }
}

/// A timestamp character as used in a ref name.
pub open spec fn stamp_char(c: char) -> char {
    if c == ':' || c == '.' {
        '-'
    } else {
        c
    }
}

/// The name of the ref that keeps a divergent HEAD.
pub open spec fn preserved_ref_name_spec(run_id: Seq<char>, timestamp: Seq<char>) -> Seq<char> {
    "refs/heads/jailgun-preserved/"@ + sanitize_spec(run_id) + "-"@ + timestamp.map_values(
        |c: char| stamp_char(c),
    )
}

proof fn lemma_trim_dashes_end(s: Seq<char>)
    ensures
        trim_dashes_end(s).len() <= s.len(),
        trim_dashes_end(s) == s.take(trim_dashes_end(s).len() as int),
    decreases s.len(),
{
    if s.len() > 0 && s.last() == '-' {
        lemma_trim_dashes_end(s.drop_last());
        assert(s.drop_last().take(trim_dashes_end(s).len() as int) == s.take(trim_dashes_end(s).len() as int));
    } else {
        assert(s.take(s.len() as int) == s);
    }
}

/// A sanitized name holds only ASCII letters, digits, `-` and `_`.
pub proof fn lemma_sanitized_chars(s: Seq<char>)
    ensures
        forall|i: int|
            0 <= i < sanitize_spec(s).len() ==> is_ascii_alnum(#[trigger] sanitize_spec(s)[i])
                || sanitize_spec(s)[i] == '-' || sanitize_spec(s)[i] == '_',
{
    reveal_strlit("unknown");
    let mapped = s.map_values(|c: char| ref_char(c));
    let a = trim_dashes_start(mapped);
    lemma_trim_dashes_start(mapped);
    lemma_trim_dashes_end(a);
    let t = trim_dashes_end(a);
    assert forall|i: int| 0 <= i < t.len() implies is_ascii_alnum(#[trigger] t[i]) || t[i] == '-' || t[i]
        == '_' by {
        assert(t[i] == a[i]);
        assert(a[i] == mapped[mapped.len() - a.len() + i]);
    }
}

/// The preserved ref is a name git accepts: it lies under
/// `refs/heads/jailgun-preserved/`, then the sanitized run id, a `-`, and
/// the timestamp with every `:` and `.` written as `-` and every other
/// character kept in place; so the name holds no `:` and no `.`.
pub proof fn lemma_preserved_ref_name(run_id: Seq<char>, timestamp: Seq<char>)
    ensures
        preserved_ref_name_spec(run_id, timestamp).len() == "refs/heads/jailgun-preserved/"@.len()
            + sanitize_spec(run_id).len() + 1 + timestamp.len(),
        crate::text::starts_with(preserved_ref_name_spec(run_id, timestamp), "refs/heads/jailgun-preserved/"@),
        forall|i: int|
            0 <= i < timestamp.len() ==> #[trigger] preserved_ref_name_spec(run_id, timestamp)[preserved_ref_name_spec(
                run_id,
                timestamp,
            ).len() - timestamp.len() + i] == if timestamp[i] == ':' || timestamp[i] == '.' {
                '-'
            } else {
                timestamp[i]
            },
        forall|i: int|
            0 <= i < preserved_ref_name_spec(run_id, timestamp).len() ==> #[trigger] preserved_ref_name_spec(
                run_id,
                timestamp,
            )[i] != ':' && preserved_ref_name_spec(run_id, timestamp)[i] != '.',
{
    reveal_strlit("refs/heads/jailgun-preserved/");
    reveal_strlit("-");
    let p = "refs/heads/jailgun-preserved/"@;
    let sa = sanitize_spec(run_id);
    let st = timestamp.map_values(|c: char| stamp_char(c));
    let r = preserved_ref_name_spec(run_id, timestamp);
    lemma_sanitized_chars(run_id);
    assert(r == p + sa + "-"@ + st);
    assert(r.take(p.len() as int) == p);
    assert forall|i: int| 0 <= i < timestamp.len() implies #[trigger] r[r.len() - timestamp.len() + i] == if timestamp[i] == ':' || timestamp[i] == '.' {
        '-'
    } else {
        timestamp[i]
    } by {
        assert(r[r.len() - timestamp.len() + i] == st[i]);
    }
    assert forall|i: int| 0 <= i < r.len() implies #[trigger] r[i] != ':' && r[i] != '.' by {
        if i < p.len() {
            assert(r[i] == p[i]);
        } else if i < p.len() + sa.len() {
            assert(r[i] == sa[i - p.len()]);
        } else if i == p.len() + sa.len() {
            assert(r[i] == '-');
        } else {
            assert(r[i] == st[i - p.len() - sa.len() - 1]);
        }
    }
}

/// `refs/heads/jailgun-preserved/<run>-<timestamp with : and . as ->`.
pub fn preserved_ref_name(run_id: &str, timestamp: &str) -> (r: String)
    ensures
        r@ == preserved_ref_name_spec(run_id@, timestamp@),
{
    let mut r = owned("refs/heads/jailgun-preserved/");
    let frag = sanitize_ref_fragment(run_id);
    push_str(&mut r, frag.as_str());
    push_char(&mut r, '-');
    proof {
        reveal_strlit("-");
    }
    let ghost base = r@;
    assert(base =~= "refs/heads/jailgun-preserved/"@ + sanitize_spec(run_id@) + "-"@);
    let v = chars_of(timestamp);
    let mut i: usize = 0;
    while i < v.len()
        invariant
            v@ == timestamp@,
            i <= v.len(),
            r@ == base + v@.take(i as int).map_values(|c: char| stamp_char(c)),
        decreases v.len() - i,
    {
        let c = v[i];
        push_char(
            &mut r,
            if c == ':' || c == '.' {
                '-'
            } else {
                c
            },
        );
        assert(v@.take(i + 1).map_values(|c: char| stamp_char(c)) == v@.take(i as int).map_values(
            |c: char| stamp_char(c),
        ).push(stamp_char(v@[i as int])));
        i += 1;
    }
    assert(v@.take(v@.len() as int) == v@);
    r
}

/// `tab-<id>` or `no-tab`.
pub open spec fn tab_label_spec(tab_id: Option<u16>) -> Seq<char> {
    match tab_id {
        Some(t) => "tab-"@ + decimal(t as nat),
        None => "no-tab"@,
    }
}

/// Where the receipt of a cleanup is written:
/// `<receipt_dir>/<run>/<run>-<tab>-<timestamp>-remote-cleanup.json`.
pub open spec fn cleanup_receipt_path_spec(
    receipt_dir: Seq<char>,
    run_id: Seq<char>,
    tab_id: Option<u16>,
    timestamp: Seq<char>,
) -> Seq<char> {
    let run = sanitize_spec(run_id);
    path_join(
        path_join(receipt_dir, run),
        run + "-"@ + tab_label_spec(tab_id) + "-"@ + sanitize_spec(timestamp)
            + "-remote-cleanup.json"@,
    )
}

/// The receipt path of a cleanup request at a given time.
pub fn cleanup_receipt_path(request: &CleanupRequest, timestamp: &str) -> (r: String)
    ensures
        r@ == cleanup_receipt_path_spec(
            request.receipt_dir@,
            request.run_id@,
            request.tab_id,
            timestamp@,
        ),
{
    let run = sanitize_ref_fragment(request.run_id.as_str());
    let dir = join_path(request.receipt_dir.as_str(), run.as_str());
    let mut name = run.clone();
    push_char(&mut name, '-');
    match request.tab_id {
        Some(t) => {
            push_str(&mut name, "tab-");
            crate::text::push_decimal(&mut name, t as u64);
        },
        None => push_str(&mut name, "no-tab"),
    }
    push_char(&mut name, '-');
    let ts = sanitize_ref_fragment(timestamp);
    push_str(&mut name, ts.as_str());
    push_str(&mut name, "-remote-cleanup.json");
    proof {
        reveal_strlit("-");
        assert(name@ =~= sanitize_spec(request.run_id@) + "-"@ + tab_label_spec(request.tab_id)
            + "-"@ + sanitize_spec(timestamp@) + "-remote-cleanup.json"@);
    }
    join_path(dir.as_str(), name.as_str())
}

/// The receipt of a cleanup that only looked at the checkout, stamped now.
pub fn base_receipt(request: &CleanupRequest, outcome: CleanupOutcome, initial: &RemoteSnapshot) -> (r: CleanupReceipt)
    ensures
        r.run_id == request.run_id,
        r.tab_id == request.tab_id,
        r.remote_host == request.remote_host,
        r.remote_dir == request.remote_dir,
        r.policy == request.policy,
        r.outcome == outcome,
        r.initial_head == initial.head,
        r.initial_origin_main == initial.origin_main,
        r.preserved_ref.is_none(),
        r.preserved_sha.is_none(),
        r.reset_to.is_none(),
        r.final_head.is_none(),
        r.final_status_short@.len() == 0,
{
    base_receipt_with_timestamp(request, outcome, initial, crate::clock::timestamp_now())
}

/// The receipt of a cleanup decision before any remote outcome is known.
pub fn base_receipt_with_timestamp(
    request: &CleanupRequest,
    outcome: CleanupOutcome,
    initial: &RemoteSnapshot,
    timestamp: String,
) -> (r: CleanupReceipt)
    ensures
        r.run_id == request.run_id,
        r.tab_id == request.tab_id,
        r.remote_host == request.remote_host,
        r.remote_dir == request.remote_dir,
        r.policy == request.policy,
        r.outcome == outcome,
        r.timestamp == timestamp,
        r.initial_head == initial.head,
        r.initial_origin_main == initial.origin_main,
        r.preserved_ref.is_none(),
        r.preserved_sha.is_none(),
        r.reset_to.is_none(),
        r.final_head.is_none(),
        r.final_status_short@.len() == 0,
        opt_view(r.receipt_path) == Some(
            cleanup_receipt_path_spec(
                request.receipt_dir@,
                request.run_id@,
                request.tab_id,
                timestamp@,
            ),
        ),
{
    let receipt_path = cleanup_receipt_path(request, timestamp.as_str());
    CleanupReceipt {
        run_id: request.run_id.clone(),
        tab_id: request.tab_id,
        remote_host: request.remote_host.clone(),
        remote_dir: request.remote_dir.clone(),
        policy: request.policy,
        outcome,
        timestamp,
        initial_head: clone_opt(&initial.head),
        initial_origin_main: clone_opt(&initial.origin_main),
        preserved_ref: None,
        preserved_sha: None,
        reset_to: None,
        final_head: None,
        final_status_short: String::new(),
        receipt_path: Some(receipt_path),
    }
}

// ---------------------------------------------------------------------
// The cleanup machine
// ---------------------------------------------------------------------

/// Where the cleanup stands.
#[derive(Debug, Clone, Copy, PartialEq, Eq)]
pub enum CleanupPhase {
    AwaitInitialSnapshot,
    AwaitSyncedReceipt,
    AwaitAdoptedReceipt,
    AwaitRef,
    AwaitPreserveReceipt,
    AwaitFetch,
    AwaitFetchedSnapshot,
    AwaitReset,
    AwaitFinalSnapshot,
    AwaitFinalReceipt,
    Finished,
}

/// The outcome of the remote operation the machine asked for.
#[derive(Debug)]
pub enum CleanupEvent {
    SnapshotTaken(Result<RemoteSnapshot, CleanupError>),
    RefCreated(Result<(), CleanupError>),
    ReceiptWritten(Result<String, CleanupError>),
    Fetched(Result<(), CleanupError>),
    ResetDone(Result<(), CleanupError>),
}

/// The next remote operation, or the end of the cleanup.
#[derive(Debug)]
pub enum CleanupAction {
    TakeSnapshot { remote_dir: String },
    CreateRef { remote_dir: String, ref_name: String, sha: String },
    WriteReceipt(CleanupReceipt),
    FetchOrigin { remote_dir: String },
    ResetHard { remote_dir: String, target: String },
    Finish(Result<CleanupReceipt, CleanupError>),
}

/// The state of one cleanup.
pub struct CleanupMachine {
    pub request: CleanupRequest,
    pub timestamp: String,
    pub phase: CleanupPhase,
    pub receipt: CleanupReceipt,
    pub reset_to: String,
    /// The divergent HEAD was kept under a ref (the ref operation succeeded).
    pub ref_preserved: Ghost<bool>,
    /// The receipt naming that ref was written.
    pub receipt_recorded: Ghost<bool>,
}

/// How far a cleanup is from its end: every step moves it closer.
pub open spec fn phase_rank(p: CleanupPhase) -> nat {
    match p {
        CleanupPhase::AwaitInitialSnapshot => 10,
        CleanupPhase::AwaitRef => 9,
        CleanupPhase::AwaitPreserveReceipt => 8,
        CleanupPhase::AwaitFetch => 7,
        CleanupPhase::AwaitFetchedSnapshot => 6,
        CleanupPhase::AwaitReset => 5,
        CleanupPhase::AwaitFinalSnapshot => 4,
        CleanupPhase::AwaitFinalReceipt => 3,
        CleanupPhase::AwaitSyncedReceipt => 2,
        CleanupPhase::AwaitAdoptedReceipt => 1,
        CleanupPhase::Finished => 0,
    }
}

/// The machine waits for the answer to the operation it asked for.
pub open spec fn awaits_answer(m: CleanupMachine, a: CleanupAction) -> bool {
    match a {
        CleanupAction::TakeSnapshot { .. } => m.expects(&CleanupEvent::SnapshotTaken(Err(CleanupError::MissingHead))),
        CleanupAction::CreateRef { .. } => m.phase == CleanupPhase::AwaitRef,
        CleanupAction::WriteReceipt(_) => m.expects(&CleanupEvent::ReceiptWritten(Err(CleanupError::MissingHead))),
        CleanupAction::FetchOrigin { .. } => m.phase == CleanupPhase::AwaitFetch,
        CleanupAction::ResetHard { .. } => m.phase == CleanupPhase::AwaitReset,
        CleanupAction::Finish(_) => true,
    }
}

/// A receipt that records the request's run, tab, host, directory and
/// policy.
pub open spec fn receipt_of(rc: CleanupReceipt, request: CleanupRequest) -> bool {
    &&& rc.run_id == request.run_id
    &&& rc.tab_id == request.tab_id
    &&& rc.remote_host == request.remote_host
    &&& rc.remote_dir == request.remote_dir
    &&& rc.policy == request.policy
}

/// A successful cleanup answers with a receipt of its request, written
/// (it names where it went).
pub open spec fn result_of(r: Result<CleanupReceipt, CleanupError>, request: CleanupRequest) -> bool {
    match r {
        Ok(rc) => receipt_of(rc, request) && rc.receipt_path is Some,
        Err(_) => true,
    }
}

/// An action that ends a cleanup successfully carries a receipt of its
/// request.
pub open spec fn finish_of(a: CleanupAction, request: CleanupRequest) -> bool {
    match a {
        CleanupAction::Finish(r) => result_of(r, request),
        _ => true,
    }
}

/// A receipt of the preserve-reset outcome that names the ref the
/// divergent HEAD was kept under, and that HEAD.
pub open spec fn names_preserved_head(rc: CleanupReceipt, request: CleanupRequest, timestamp: String) -> bool {
    &&& rc.outcome == CleanupOutcome::PreservedReset
    &&& rc.preserved_ref matches Some(name) && name@ == preserved_ref_name_spec(
        request.run_id@,
        timestamp@,
    )
    &&& rc.preserved_sha is Some
}

/// A successful preserve-reset cleanup answers with a receipt that names
/// the preserved ref and HEAD, and whose final HEAD is the reset target.
pub open spec fn preserved_result(
    r: Result<CleanupReceipt, CleanupError>,
    request: CleanupRequest,
    timestamp: String,
) -> bool {
    match r {
        Ok(rc) => rc.outcome == CleanupOutcome::PreservedReset ==> {
            &&& names_preserved_head(rc, request, timestamp)
            &&& rc.reset_to is Some
            &&& opt_view(rc.final_head) == opt_view(rc.reset_to)
        },
        Err(_) => true,
    }
}

/// Phases that come after the preservation ref and receipt succeeded.
pub open spec fn after_preservation(p: CleanupPhase) -> bool {
    p == CleanupPhase::AwaitFetch || p == CleanupPhase::AwaitFetchedSnapshot || p
        == CleanupPhase::AwaitReset || p == CleanupPhase::AwaitFinalSnapshot || p
        == CleanupPhase::AwaitFinalReceipt
}

/// One step of a cleanup from `m0` with the answer `event`, to the state
/// and action `r`: phase by phase, the next phase and the next operation,
/// then the safety laws of a cleanup.
pub open spec fn cleanup_step(m0: CleanupMachine, event: CleanupEvent, r: (CleanupMachine, CleanupAction)) -> bool {
    &&& (r.0.wf())
    &&& (r.0.request == m0.request)
    &&& (r.0.timestamp == m0.timestamp)
    &&& (phase_rank(r.0.phase) < phase_rank(m0.phase))
    &&& ((r.1 is Finish) == (r.0.phase == CleanupPhase::Finished))
    &&& (awaits_answer(r.0, r.1))
    // -- the first snapshot --
    &&& (m0.phase == CleanupPhase::AwaitInitialSnapshot ==> match event {
                CleanupEvent::SnapshotTaken(Err(e)) => r.0.phase == CleanupPhase::Finished
                    && (r.1 matches CleanupAction::Finish(Err(x)) && x == e),
                CleanupEvent::SnapshotTaken(Ok(snap)) => {
                    if !snap.is_clean_spec() {
                        r.1 matches CleanupAction::Finish(Err(CleanupError::DirtyRemote { status_short }))
                            && status_short == snap.status_short
                    } else if snap.head.is_none() {
                        r.1 matches CleanupAction::Finish(Err(CleanupError::MissingHead))
                    } else if snap.origin_main.is_none() {
                        r.1 matches CleanupAction::Finish(Err(CleanupError::MissingOriginMain))
                    } else if snap.head.unwrap()@ == snap.origin_main.unwrap()@ {
                        r.0.phase == CleanupPhase::AwaitSyncedReceipt && (r.1 matches CleanupAction::WriteReceipt(rc)
                            && rc == r.0.receipt && rc.outcome == CleanupOutcome::AlreadySynced
                            && rc.initial_head == snap.head && rc.initial_origin_main == snap.origin_main
                            && rc.final_head == snap.head && rc.final_status_short == snap.status_short
                            && rc.preserved_ref.is_none() && rc.reset_to.is_none())
                    } else if m0.request.policy == CleanupPolicy::Block {
                        r.1 matches CleanupAction::Finish(Err(CleanupError::DivergentBlocked { head, origin_main }))
                            && Some(head) == snap.head && Some(origin_main) == snap.origin_main
                    } else if m0.request.policy == CleanupPolicy::Adopt {
                        r.0.phase == CleanupPhase::AwaitAdoptedReceipt && (r.1 matches CleanupAction::WriteReceipt(rc)
                            && rc == r.0.receipt && rc.outcome == CleanupOutcome::Adopted
                            && rc.final_head == snap.head && rc.final_status_short == snap.status_short)
                    } else {
                        r.0.phase == CleanupPhase::AwaitRef && (r.1 matches CleanupAction::CreateRef { remote_dir, ref_name, sha }
                            && remote_dir == m0.request.remote_dir
                            && ref_name@ == preserved_ref_name_spec(m0.request.run_id@, m0.timestamp@)
                            && Some(sha) == snap.head
                            && r.0.receipt.outcome == CleanupOutcome::PreservedReset
                            && r.0.receipt.preserved_ref == Some(ref_name)
                            && r.0.receipt.preserved_sha == snap.head
                            && r.0.receipt.reset_to == snap.origin_main)
                    }
                },
                _ => true,
            })
    // -- receipts of the synced and adopted outcomes --
    &&& ((m0.phase == CleanupPhase::AwaitSyncedReceipt || m0.phase
                == CleanupPhase::AwaitAdoptedReceipt) ==> match event {
                CleanupEvent::ReceiptWritten(Ok(path)) => r.1 matches CleanupAction::Finish(Ok(rc))
                    && rc == (CleanupReceipt { receipt_path: Some(path), ..m0.receipt }),
                CleanupEvent::ReceiptWritten(Err(e)) => r.1 matches CleanupAction::Finish(Err(x))
                    && x == e,
                _ => true,
            })
    // -- preservation --
    &&& (m0.phase == CleanupPhase::AwaitRef ==> match event {
                CleanupEvent::RefCreated(Ok(())) => r.0.phase == CleanupPhase::AwaitPreserveReceipt
                    && r.0.receipt == m0.receipt && r.0.reset_to == m0.reset_to
                    && (r.1 matches CleanupAction::WriteReceipt(rc) && rc == m0.receipt),
                CleanupEvent::RefCreated(Err(e)) => r.1 matches CleanupAction::Finish(Err(CleanupError::PreserveRef(m)))
                    && m@ == cleanup_error_message(e),
                _ => true,
            })
    &&& (m0.phase == CleanupPhase::AwaitPreserveReceipt ==> match event {
                CleanupEvent::ReceiptWritten(Ok(path)) => r.0.phase == CleanupPhase::AwaitFetch
                    && r.0.receipt == (CleanupReceipt { receipt_path: Some(path), ..m0.receipt })
                    && r.0.reset_to == m0.reset_to
                    && (r.1 matches CleanupAction::FetchOrigin { remote_dir } && remote_dir
                    == m0.request.remote_dir),
                CleanupEvent::ReceiptWritten(Err(e)) => r.1 matches CleanupAction::Finish(Err(CleanupError::Receipt(m)))
                    && m@ == cleanup_error_message(e),
                _ => true,
            })
    &&& (m0.phase == CleanupPhase::AwaitFetch ==> match event {
                CleanupEvent::Fetched(Ok(())) => r.0.phase == CleanupPhase::AwaitFetchedSnapshot
                    && r.0.receipt == m0.receipt && r.0.reset_to == m0.reset_to
                    && (r.1 matches CleanupAction::TakeSnapshot { remote_dir } && remote_dir
                    == m0.request.remote_dir),
                CleanupEvent::Fetched(Err(e)) => r.1 matches CleanupAction::Finish(Err(CleanupError::Fetch(m)))
                    && m@ == cleanup_error_message(e),
                _ => true,
            })
    &&& (m0.phase == CleanupPhase::AwaitFetchedSnapshot ==> match event {
                CleanupEvent::SnapshotTaken(Ok(snap)) => match snap.origin_main {
                    Some(o) => r.0.phase == CleanupPhase::AwaitReset && r.0.reset_to == o
                        && r.0.receipt == (CleanupReceipt { reset_to: Some(o), ..m0.receipt })
                        && (r.1 matches CleanupAction::ResetHard { remote_dir, target }
                        && remote_dir == m0.request.remote_dir && target == o),
                    None => r.1 matches CleanupAction::Finish(Err(CleanupError::MissingOriginMain)),
                },
                CleanupEvent::SnapshotTaken(Err(e)) => r.1 matches CleanupAction::Finish(Err(x))
                    && x == e,
                _ => true,
            })
    &&& (m0.phase == CleanupPhase::AwaitReset ==> match event {
                CleanupEvent::ResetDone(Ok(())) => r.0.phase == CleanupPhase::AwaitFinalSnapshot
                    && r.0.receipt == m0.receipt && r.0.reset_to == m0.reset_to
                    && (r.1 matches CleanupAction::TakeSnapshot { remote_dir } && remote_dir
                    == m0.request.remote_dir),
                CleanupEvent::ResetDone(Err(e)) => r.1 matches CleanupAction::Finish(Err(CleanupError::Reset(m)))
                    && m@ == cleanup_error_message(e),
                _ => true,
            })
    &&& (m0.phase == CleanupPhase::AwaitFinalSnapshot ==> match event {
                CleanupEvent::SnapshotTaken(Ok(snap)) => {
                    if !snap.is_clean_spec() {
                        r.1 matches CleanupAction::Finish(Err(CleanupError::Reset(m)))
                            && m@ == "reset left checkout dirty"@
                    } else if opt_view(snap.head) != Some(m0.reset_to@) {
                        r.1 matches CleanupAction::Finish(Err(CleanupError::Reset(m)))
                            && m@ == "reset target was not checked out"@
                    } else {
                        r.0.phase == CleanupPhase::AwaitFinalReceipt && r.0.reset_to == m0.reset_to
                            && (r.1 matches CleanupAction::WriteReceipt(rc)
                            && rc == r.0.receipt && rc == (CleanupReceipt {
                            final_head: snap.head,
                            final_status_short: snap.status_short,
                            ..m0.receipt
                        }))
                    }
                },
                CleanupEvent::SnapshotTaken(Err(e)) => r.1 matches CleanupAction::Finish(Err(x))
                    && x == e,
                _ => true,
            })
    &&& (m0.phase == CleanupPhase::AwaitFinalReceipt ==> match event {
                CleanupEvent::ReceiptWritten(Ok(path)) => r.1 matches CleanupAction::Finish(Ok(rc))
                    && rc == (CleanupReceipt { receipt_path: Some(path), ..m0.receipt }),
                CleanupEvent::ReceiptWritten(Err(e)) => r.1 matches CleanupAction::Finish(Err(CleanupError::Receipt(m)))
                    && m@ == cleanup_error_message(e),
                _ => true,
            })
    // -- laws --
    // the receipt of a finished cleanup is the request's
    &&& (finish_of(r.1, m0.request))
    // a preserve-reset receipt names the preserved ref and HEAD
    &&& (r.1 matches CleanupAction::Finish(res) ==> preserved_result(res, m0.request, m0.timestamp))
    // a finished cleanup stays finished
    &&& (r.1 is Finish <==> r.0.phase == CleanupPhase::Finished)
    // the remote is reset only once the divergent HEAD was kept under a
    // ref and the receipt naming that ref was written
    &&& (r.1 is ResetHard ==> r.0.ref_preserved@ && r.0.receipt_recorded@)
    // the block policy never touches the remote
    &&& (m0.request.policy == CleanupPolicy::Block ==> !(r.1 is CreateRef) && !(r.1 is ResetHard)
                && !(r.1 is FetchOrigin))
    // only the preserve-reset policy resets the remote
    &&& (r.1 is ResetHard ==> m0.request.policy == CleanupPolicy::PreserveReset)
}

impl CleanupMachine {
    pub open spec fn wf(&self) -> bool {
        &&& self.receipt.run_id == self.request.run_id
        &&& self.receipt.tab_id == self.request.tab_id
        &&& self.receipt.remote_host == self.request.remote_host
        &&& self.receipt.remote_dir == self.request.remote_dir
        &&& self.receipt.policy == self.request.policy
        &&& (self.phase == CleanupPhase::AwaitRef || self.phase
            == CleanupPhase::AwaitPreserveReceipt || after_preservation(self.phase))
            ==> self.request.policy == CleanupPolicy::PreserveReset
        &&& self.phase == CleanupPhase::AwaitAdoptedReceipt ==> self.request.policy
            == CleanupPolicy::Adopt
        &&& after_preservation(self.phase) ==> self.ref_preserved@ && self.receipt_recorded@
        &&& self.phase == CleanupPhase::AwaitPreserveReceipt ==> self.ref_preserved@
        &&& (self.phase == CleanupPhase::AwaitReset || self.phase
            == CleanupPhase::AwaitFinalSnapshot || self.phase == CleanupPhase::AwaitFinalReceipt)
            ==> opt_view(self.receipt.reset_to) == Some(self.reset_to@)
        &&& self.phase == CleanupPhase::AwaitFinalReceipt ==> opt_view(self.receipt.final_head)
            == Some(self.reset_to@)
        &&& (self.phase == CleanupPhase::AwaitRef || self.phase
            == CleanupPhase::AwaitPreserveReceipt || after_preservation(self.phase))
            ==> names_preserved_head(self.receipt, self.request, self.timestamp)
        &&& self.phase == CleanupPhase::AwaitSyncedReceipt ==> self.receipt.outcome
            == CleanupOutcome::AlreadySynced
        &&& self.phase == CleanupPhase::AwaitAdoptedReceipt ==> self.receipt.outcome
            == CleanupOutcome::Adopted
    }

    /// Whether `event` answers the operation this machine asked for.
    pub open spec fn expects(&self, event: &CleanupEvent) -> bool {
        match event {
            CleanupEvent::SnapshotTaken(_) => self.phase == CleanupPhase::AwaitInitialSnapshot
                || self.phase == CleanupPhase::AwaitFetchedSnapshot || self.phase
                == CleanupPhase::AwaitFinalSnapshot,
            CleanupEvent::RefCreated(_) => self.phase == CleanupPhase::AwaitRef,
            CleanupEvent::ReceiptWritten(_) => self.phase == CleanupPhase::AwaitSyncedReceipt
                || self.phase == CleanupPhase::AwaitAdoptedReceipt || self.phase
                == CleanupPhase::AwaitPreserveReceipt || self.phase
                == CleanupPhase::AwaitFinalReceipt,
            CleanupEvent::Fetched(_) => self.phase == CleanupPhase::AwaitFetch,
            CleanupEvent::ResetDone(_) => self.phase == CleanupPhase::AwaitReset,
        }
    }

    /// Starts a cleanup at time `timestamp`: the first operation is a
    /// snapshot of the remote directory.
    pub fn start(request: CleanupRequest, timestamp: String) -> (r: (
        CleanupMachine,
        CleanupAction,
    ))
        ensures
            r.0.wf(),
            r.0.phase == CleanupPhase::AwaitInitialSnapshot,
            r.0.request == request,
            r.0.timestamp == timestamp,
            !r.0.ref_preserved@,
            !r.0.receipt_recorded@,
            r.1 matches CleanupAction::TakeSnapshot { remote_dir } && remote_dir
                == request.remote_dir,
            awaits_answer(r.0, r.1),
    {
        let dir = request.remote_dir.clone();
        let empty = RemoteSnapshot { head: None, origin_main: None, status_short: String::new() };
        let receipt = base_receipt_with_timestamp(
            &request,
            CleanupOutcome::AlreadySynced,
            &empty,
            timestamp.clone(),
        );
        (
            CleanupMachine {
                request,
                timestamp,
                phase: CleanupPhase::AwaitInitialSnapshot,
                receipt,
                reset_to: String::new(),
                ref_preserved: Ghost(false),
                receipt_recorded: Ghost(false),
            },
            CleanupAction::TakeSnapshot { remote_dir: dir },
        )
    }

    fn finish_err(self, e: CleanupError) -> (r: (CleanupMachine, CleanupAction))
        requires
            self.wf(),
        ensures
            r.0 == (CleanupMachine { phase: CleanupPhase::Finished, ..self }),
            r.0.wf(),
            r.1 matches CleanupAction::Finish(Err(x)) && x == e,
    {
        (CleanupMachine { phase: CleanupPhase::Finished, ..self }, CleanupAction::Finish(Err(e)))
    }

    /// Advances the cleanup with the outcome of the last operation.
    ///
    /// The ensures clauses state, phase by phase, the next phase and the
    /// next operation; the last group states the safety laws of a cleanup.
    pub fn step(self, event: CleanupEvent) -> (r: (CleanupMachine, CleanupAction))
        requires
            self.wf(),
            self.expects(&event),
        ensures
            cleanup_step(self, event, r),
    {
        let ghost pre = self;
        match self.phase {
            CleanupPhase::AwaitInitialSnapshot => {
                let snap = match event {
                    CleanupEvent::SnapshotTaken(Ok(snap)) => snap,
                    CleanupEvent::SnapshotTaken(Err(e)) => return self.finish_err(e),
                    _ => return self.finish_err(CleanupError::MissingHead),
                };
                if !snap.is_clean() {
                    return self.finish_err(
                        CleanupError::DirtyRemote { status_short: snap.status_short },
                    );
                }
                let head = match &snap.head {
                    Some(h) => h.clone(),
                    None => return self.finish_err(CleanupError::MissingHead),
                };
                let origin_main = match &snap.origin_main {
                    Some(o) => o.clone(),
                    None => return self.finish_err(CleanupError::MissingOriginMain),
                };
                if str_eq(head.as_str(), origin_main.as_str()) {
                    let mut rc = base_receipt_with_timestamp(
                        &self.request,
                        CleanupOutcome::AlreadySynced,
                        &snap,
                        self.timestamp.clone(),
                    );
                    rc.final_head = clone_opt(&snap.head);
                    rc.final_status_short = snap.status_short.clone();
                    let out = CleanupMachine {
                        phase: CleanupPhase::AwaitSyncedReceipt,
                        receipt: rc.clone_receipt(),
                        ..self
                    };
                    return (out, CleanupAction::WriteReceipt(rc));
                }
                match self.request.policy {
                    CleanupPolicy::Block => {
                        self.finish_err(CleanupError::DivergentBlocked { head, origin_main })
                    },
                    CleanupPolicy::Adopt => {
                        let mut rc = base_receipt_with_timestamp(
                            &self.request,
                            CleanupOutcome::Adopted,
                            &snap,
                            self.timestamp.clone(),
                        );
                        rc.final_head = clone_opt(&snap.head);
                        rc.final_status_short = snap.status_short.clone();
                        let out = CleanupMachine {
                            phase: CleanupPhase::AwaitAdoptedReceipt,
                            receipt: rc.clone_receipt(),
                            ..self
                        };
                        (out, CleanupAction::WriteReceipt(rc))
                    },
                    CleanupPolicy::PreserveReset => {
                        let ref_name = preserved_ref_name(
                            self.request.run_id.as_str(),
                            self.timestamp.as_str(),
                        );
                        let mut rc = base_receipt_with_timestamp(
                            &self.request,
                            CleanupOutcome::PreservedReset,
                            &snap,
                            self.timestamp.clone(),
                        );
                        rc.preserved_ref = Some(ref_name.clone());
                        rc.preserved_sha = Some(head.clone());
                        rc.reset_to = Some(origin_main);
                        let dir = self.request.remote_dir.clone();
                        let out = CleanupMachine {
                            phase: CleanupPhase::AwaitRef,
                            receipt: rc,
                            ..self
                        };
                        (out, CleanupAction::CreateRef { remote_dir: dir, ref_name, sha: head })
                    },
                }
            },
            CleanupPhase::AwaitSyncedReceipt | CleanupPhase::AwaitAdoptedReceipt => {
                match event {
                    CleanupEvent::ReceiptWritten(Ok(path)) => {
                        let mut rc = self.receipt.clone_receipt();
                        rc.receipt_path = Some(path);
                        (
                            CleanupMachine { phase: CleanupPhase::Finished, ..self },
                            CleanupAction::Finish(Ok(rc)),
                        )
                    },
                    CleanupEvent::ReceiptWritten(Err(e)) => self.finish_err(e),
                    _ => self.finish_err(CleanupError::MissingHead),
                }
            },
            CleanupPhase::AwaitRef => {
                match event {
                    CleanupEvent::RefCreated(Ok(())) => {
                        let rc = self.receipt.clone_receipt();
                        (
                            CleanupMachine {
                                phase: CleanupPhase::AwaitPreserveReceipt,
                                ref_preserved: Ghost(true),
                                ..self
                            },
                            CleanupAction::WriteReceipt(rc),
                        )
                    },
                    CleanupEvent::RefCreated(Err(e)) => {
                        let m = e.message();
                        self.finish_err(CleanupError::PreserveRef(m))
                    },
                    _ => self.finish_err(CleanupError::MissingHead),
                }
            },
            CleanupPhase::AwaitPreserveReceipt => {
                match event {
                    CleanupEvent::ReceiptWritten(Ok(path)) => {
                        let mut rc = self.receipt.clone_receipt();
                        rc.receipt_path = Some(path);
                        let dir = self.request.remote_dir.clone();
                        (
                            CleanupMachine {
                                phase: CleanupPhase::AwaitFetch,
                                receipt: rc,
                                receipt_recorded: Ghost(true),
                                ..self
                            },
                            CleanupAction::FetchOrigin { remote_dir: dir },
                        )
                    },
                    CleanupEvent::ReceiptWritten(Err(e)) => {
                        let m = e.message();
                        self.finish_err(CleanupError::Receipt(m))
                    },
                    _ => self.finish_err(CleanupError::MissingHead),
                }
            },
            CleanupPhase::AwaitFetch => {
                match event {
                    CleanupEvent::Fetched(Ok(())) => {
                        let dir = self.request.remote_dir.clone();
                        (
                            CleanupMachine { phase: CleanupPhase::AwaitFetchedSnapshot, ..self },
                            CleanupAction::TakeSnapshot { remote_dir: dir },
                        )
                    },
                    CleanupEvent::Fetched(Err(e)) => {
                        let m = e.message();
                        self.finish_err(CleanupError::Fetch(m))
                    },
                    _ => self.finish_err(CleanupError::MissingHead),
                }
            },
            CleanupPhase::AwaitFetchedSnapshot => {
                match event {
                    CleanupEvent::SnapshotTaken(Ok(snap)) => {
                        match snap.origin_main {
                            Some(o) => {
                                let mut rc = self.receipt.clone_receipt();
                                rc.reset_to = Some(o.clone());
                                let dir = self.request.remote_dir.clone();
                                let target = o.clone();
                                (
                                    CleanupMachine {
                                        phase: CleanupPhase::AwaitReset,
                                        receipt: rc,
                                        reset_to: o,
                                        ..self
                                    },
                                    CleanupAction::ResetHard { remote_dir: dir, target },
                                )
                            },
                            None => self.finish_err(CleanupError::MissingOriginMain),
                        }
                    },
                    CleanupEvent::SnapshotTaken(Err(e)) => self.finish_err(e),
                    _ => self.finish_err(CleanupError::MissingHead),
                }
            },
            CleanupPhase::AwaitReset => {
                match event {
                    CleanupEvent::ResetDone(Ok(())) => {
                        let dir = self.request.remote_dir.clone();
                        (
                            CleanupMachine { phase: CleanupPhase::AwaitFinalSnapshot, ..self },
                            CleanupAction::TakeSnapshot { remote_dir: dir },
                        )
                    },
                    CleanupEvent::ResetDone(Err(e)) => {
                        let m = e.message();
                        self.finish_err(CleanupError::Reset(m))
                    },
                    _ => self.finish_err(CleanupError::MissingHead),
                }
            },
            CleanupPhase::AwaitFinalSnapshot => {
                match event {
                    CleanupEvent::SnapshotTaken(Ok(snap)) => {
                        if !snap.is_clean() {
                            return self.finish_err(
                                CleanupError::Reset(owned("reset left checkout dirty")),
                            );
                        }
                        let on_target = match &snap.head {
                            Some(h) => str_eq(h.as_str(), self.reset_to.as_str()),
                            None => false,
                        };
                        if !on_target {
                            return self.finish_err(
                                CleanupError::Reset(owned("reset target was not checked out")),
                            );
                        }
                        let mut rc = self.receipt.clone_receipt();
                        rc.final_head = snap.head;
                        rc.final_status_short = snap.status_short;
                        let out = CleanupMachine {
                            phase: CleanupPhase::AwaitFinalReceipt,
                            receipt: rc.clone_receipt(),
                            ..self
                        };
                        (out, CleanupAction::WriteReceipt(rc))
                    },
                    CleanupEvent::SnapshotTaken(Err(e)) => self.finish_err(e),
                    _ => self.finish_err(CleanupError::MissingHead),
                }
            },
            CleanupPhase::AwaitFinalReceipt => {
                match event {
                    CleanupEvent::ReceiptWritten(Ok(path)) => {
                        let mut rc = self.receipt.clone_receipt();
                        rc.receipt_path = Some(path);
                        (
                            CleanupMachine { phase: CleanupPhase::Finished, ..self },
                            CleanupAction::Finish(Ok(rc)),
                        )
                    },
                    CleanupEvent::ReceiptWritten(Err(e)) => {
                        let m = e.message();
                        self.finish_err(CleanupError::Receipt(m))
                    },
                    _ => self.finish_err(CleanupError::MissingHead),
                }
            },
            CleanupPhase::Finished => self.finish_err(CleanupError::MissingHead),
        }
    }
}

/// A run of a cleanup: `ms[0]` is a started cleanup that asked for a
/// snapshot (`acts[0]`), and each `ms[i + 1]` with `acts[i + 1]` is a step
/// of `ms[i]` with the answer `evs[i]` it waited for.
pub open spec fn cleanup_run(ms: Seq<CleanupMachine>, evs: Seq<CleanupEvent>, acts: Seq<CleanupAction>) -> bool {
    &&& ms.len() == evs.len() + 1
    &&& acts.len() == ms.len()
    &&& ms[0].wf()
    &&& ms[0].phase == CleanupPhase::AwaitInitialSnapshot
    &&& acts[0] is TakeSnapshot
    &&& forall|i: int|
        #![trigger evs[i]]
        0 <= i < evs.len() ==> ms[i].expects(&evs[i]) && cleanup_step(ms[i], evs[i], (ms[i + 1], acts[i + 1]))
}

proof fn lemma_run_rank(ms: Seq<CleanupMachine>, evs: Seq<CleanupEvent>, acts: Seq<CleanupAction>, i: int)
    requires
        cleanup_run(ms, evs, acts),
        0 <= i < ms.len(),
    ensures
        phase_rank(ms[i].phase) + i <= 10,
    decreases i,
{
    if i > 0 {
        lemma_run_rank(ms, evs, acts, i - 1);
        assert(cleanup_step(ms[i - 1], evs[i - 1], (ms[i], acts[i])));
    }
}

proof fn lemma_run_finished(ms: Seq<CleanupMachine>, evs: Seq<CleanupEvent>, acts: Seq<CleanupAction>, i: int)
    requires
        cleanup_run(ms, evs, acts),
        0 <= i < ms.len(),
        ms[i].phase == CleanupPhase::Finished,
    ensures
        i == evs.len(),
{
    if i < evs.len() {
        assert(ms[i].expects(&evs[i]));
    }
}

/// A failed ref creation ends the cleanup at once with the ref error: only
/// the first snapshot and the ref were asked for, so no receipt, fetch or
/// reset ever is.
pub proof fn lemma_ref_failure_stops_cleanup(
    ms: Seq<CleanupMachine>,
    evs: Seq<CleanupEvent>,
    acts: Seq<CleanupAction>,
    j: int,
)
    requires
        cleanup_run(ms, evs, acts),
        0 <= j < evs.len(),
        ms[j].phase == CleanupPhase::AwaitRef,
        evs[j] matches CleanupEvent::RefCreated(Err(_)),
    ensures
        j == 1,
        evs.len() == 2,
        acts[0] is TakeSnapshot,
        acts[1] is CreateRef,
        evs[j] matches CleanupEvent::RefCreated(Err(e)) ==> (acts[2] matches CleanupAction::Finish(
            Err(CleanupError::PreserveRef(m)),
        ) && m@ == cleanup_error_message(e)),
        forall|i: int| 0 <= i < acts.len() ==> !(#[trigger] acts[i] is WriteReceipt) && !(acts[i] is FetchOrigin)
            && !(acts[i] is ResetHard),
{
    lemma_run_rank(ms, evs, acts, j);
    assert(j == 1);
    assert(cleanup_step(ms[0], evs[0], (ms[1], acts[1])));
    assert(cleanup_step(ms[1], evs[1], (ms[2], acts[2])));
    lemma_run_finished(ms, evs, acts, 2);
}

/// A failed receipt for the preserved HEAD ends the cleanup at once with
/// the receipt error: the first snapshot, one ref for the divergent HEAD
/// and that receipt were asked for, and no fetch or reset ever is.
pub proof fn lemma_receipt_failure_stops_cleanup(
    ms: Seq<CleanupMachine>,
    evs: Seq<CleanupEvent>,
    acts: Seq<CleanupAction>,
    j: int,
)
    requires
        cleanup_run(ms, evs, acts),
        0 <= j < evs.len(),
        ms[j].phase == CleanupPhase::AwaitPreserveReceipt,
        evs[j] matches CleanupEvent::ReceiptWritten(Err(_)),
    ensures
        j == 2,
        evs.len() == 3,
        acts[0] is TakeSnapshot,
        acts[1] matches CleanupAction::CreateRef { sha, .. } && evs[0] matches CleanupEvent::SnapshotTaken(Ok(snap))
            && Some(sha) == snap.head,
        acts[2] is WriteReceipt,
        evs[j] matches CleanupEvent::ReceiptWritten(Err(e)) ==> (acts[3] matches CleanupAction::Finish(
            Err(CleanupError::Receipt(m)),
        ) && m@ == cleanup_error_message(e)),
        forall|i: int| 0 <= i < acts.len() ==> !(#[trigger] acts[i] is FetchOrigin) && !(acts[i] is ResetHard),
{
    lemma_run_rank(ms, evs, acts, j);
    assert(j != 0);
    assert(cleanup_step(ms[0], evs[0], (ms[1], acts[1])));
    assert(j != 1);
    assert(j == 2);
    lemma_run_rank(ms, evs, acts, 1);
    assert(cleanup_step(ms[1], evs[1], (ms[2], acts[2])));
    assert(ms[1].phase == CleanupPhase::AwaitRef);
    assert(cleanup_step(ms[2], evs[2], (ms[3], acts[3])));
    lemma_run_finished(ms, evs, acts, 3);
}

impl CleanupReceipt {
    /// A field-by-field copy.
    pub fn clone_receipt(&self) -> (r: CleanupReceipt)
        ensures
            r == *self,
    {
        CleanupReceipt {
            run_id: self.run_id.clone(),
            tab_id: self.tab_id,
            remote_host: self.remote_host.clone(),
            remote_dir: self.remote_dir.clone(),
            policy: self.policy,
            outcome: self.outcome,
            timestamp: self.timestamp.clone(),
            initial_head: clone_opt(&self.initial_head),
            initial_origin_main: clone_opt(&self.initial_origin_main),
            preserved_ref: clone_opt(&self.preserved_ref),
            preserved_sha: clone_opt(&self.preserved_sha),
            reset_to: clone_opt(&self.reset_to),
            final_head: clone_opt(&self.final_head),
            final_status_short: self.final_status_short.clone(),
            receipt_path: clone_opt(&self.receipt_path),
        }
    }
}

// ---------------------------------------------------------------------
// Running a cleanup against a backend
// ---------------------------------------------------------------------

/// Git on a remote checkout, as a cleanup needs it.
pub trait RemoteGitBackend {
    /// The head, origin's main and short status of the checkout.
    fn snapshot(&mut self, remote_dir: &str) -> Result<RemoteSnapshot, CleanupError>;

    /// Fetches origin.
    fn fetch_origin(&mut self, remote_dir: &str) -> Result<(), CleanupError>;

    /// Records `sha` under `ref_name`.
    fn create_ref(&mut self, remote_dir: &str, ref_name: &str, sha: &str) -> Result<(), CleanupError>;

    /// Writes the receipt; answers where it went.
    fn write_receipt(&mut self, receipt: &CleanupReceipt) -> Result<String, CleanupError>;

    /// Resets the checkout hard to `target`.
    fn reset_hard(&mut self, remote_dir: &str, target: &str) -> Result<(), CleanupError>;
}

/// Brings a remote checkout to origin's main with a backend that answers
/// each operation at once, by running the cleanup machine to its end.
pub fn cleanup_remote_checkout<B: RemoteGitBackend>(backend: &mut B, request: CleanupRequest, timestamp: String) -> (r: Result<CleanupReceipt, CleanupError>)
    ensures
        result_of(r, request),
        preserved_result(r, request, timestamp),
{
    let ghost req = request;
    let ghost stamp = timestamp;
    let (mut m, mut a) = CleanupMachine::start(request, timestamp);
    loop
        invariant
            m.wf(),
            m.request == req,
            req == request,
            awaits_answer(m, a),
            (a is Finish) == (m.phase == CleanupPhase::Finished),
            finish_of(a, req),
            m.timestamp == stamp,
            stamp == timestamp,
            a matches CleanupAction::Finish(res) ==> preserved_result(res, req, stamp),
        decreases phase_rank(m.phase),
    {
        let ev = match a {
            CleanupAction::Finish(res) => {
                return res;
            },
            CleanupAction::TakeSnapshot { remote_dir } => CleanupEvent::SnapshotTaken(backend.snapshot(remote_dir.as_str())),
            CleanupAction::CreateRef { remote_dir, ref_name, sha } => CleanupEvent::RefCreated(
                backend.create_ref(remote_dir.as_str(), ref_name.as_str(), sha.as_str()),
            ),
            CleanupAction::WriteReceipt(rc) => CleanupEvent::ReceiptWritten(backend.write_receipt(&rc)),
            CleanupAction::FetchOrigin { remote_dir } => CleanupEvent::Fetched(backend.fetch_origin(remote_dir.as_str())),
            CleanupAction::ResetHard { remote_dir, target } => CleanupEvent::ResetDone(
                backend.reset_hard(remote_dir.as_str(), target.as_str()),
            ),
        };
        let (m2, a2) = m.step(ev);
        m = m2;
        a = a2;
    }
}

} // verus!
