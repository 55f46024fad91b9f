//! What the dashboard server knows of runs: snapshots folded from the
//! events it receives, the checks on ingestion and agent run requests,
//! and the answers it gives.
use vstd::prelude::*;
use crate::event::{EventKind, JailgunEvent, Severity};
use crate::notify::field;
use crate::text::{join_path, opt_view, owned, parse_u64, parse_u64_spec, path_join, push_decimal, push_str, str_eq, decimal};

verus! {

// ---------------------------------------------------------------------
// Snapshots
// ---------------------------------------------------------------------

/// Where the deploys of a run stand.
#[derive(Debug, Clone, Copy, PartialEq, Eq)]
pub enum DeployQueueState {
    Idle,
    Waiting,
    Running,
    Done,
}

/// What the dashboard shows of one tab.
#[derive(Debug, Clone, PartialEq, Eq)]
pub struct TabSnapshot {
    pub tab_id: u16,
    pub status: String,
    pub page_url: String,
    pub archive_sha256: Option<String>,
    pub download_latency_ms: Option<u64>,
    pub deploy_status: String,
    pub prompt_policy_decision: Option<String>,
    pub early_stop_outcome: Option<String>,
    pub browser_profile: Option<String>,
    pub browser_profile_dir: Option<String>,
    pub browser_slot: Option<u16>,
    pub cdp_url: Option<String>,
}

/// What the dashboard shows of one run.
#[derive(Debug, Clone, PartialEq, Eq)]
pub struct RunSnapshot {
    pub run_id: String,
    pub started_at: String,
    pub finished_at: Option<String>,
    pub status: String,
    pub batch_tabs: u16,
    pub loop_count: u16,
    pub planned_tabs: u16,
    pub tabs: Vec<TabSnapshot>,
    pub deploy_queue: DeployQueueState,
    pub denied_github_prompts: u32,
    pub allowed_info_prompts: u32,
    pub early_stops_succeeded: u16,
    pub early_stops_attempted: u16,
}

/// A value of the event's field, else the given one.
pub open spec fn field_or(e: JailgunEvent, k: Seq<char>, d: Seq<char>) -> Seq<char> {
    match field(e, k) {
        Some(v) => v,
        None => d,
    }
}

/// The status of a tab after an event: the event's `tab_status`, then
/// the kind of the event (an open tab that was only active is opening).
pub open spec fn tab_status_after(status: Seq<char>, e: JailgunEvent) -> Seq<char> {
    let s = field_or(e, "tab_status"@, status);
    match e.kind {
        EventKind::TabOpened => if s == "active"@ { "opening"@ } else { s },
        EventKind::PromptSubmitted => "submitted"@,
        EventKind::TarDiscovered => "tar-discovered"@,
        EventKind::DownloadReceipt => "downloaded"@,
        EventKind::Error => "error"@,
        _ => s,
    }
}

/// The deploy status of a tab after an event: the event's
/// `deploy_status`, then a finished deploy's outcome (succeeded when it
/// names none) or a remote safety policy.
pub open spec fn tab_deploy_status_after(status: Seq<char>, e: JailgunEvent) -> Seq<char> {
    let s = field_or(e, "deploy_status"@, status);
    match e.kind {
        EventKind::DeployFinished => field_or(e, "outcome"@, "succeeded"@),
        EventKind::RemoteSafety => field_or(e, "policy"@, s),
        _ => s,
    }
}

/// A tab after one event about it.
pub open spec fn tab_after(t0: TabSnapshot, t1: TabSnapshot, e: JailgunEvent) -> bool {
    &&& t1.tab_id == t0.tab_id
    &&& t1.status@ == tab_status_after(t0.status@, e)
    &&& t1.page_url@ == field_or(e, "page_url"@, t0.page_url@)
    &&& opt_view(t1.archive_sha256) == match field(e, "sha256"@) {
        Some(v) => Some(v),
        None => opt_view(t0.archive_sha256),
    }
    &&& t1.download_latency_ms == match field(e, "download_latency_ms"@) {
        Some(v) => parse_u64_spec(v),
        None => t0.download_latency_ms,
    }
    &&& t1.deploy_status@ == tab_deploy_status_after(t0.deploy_status@, e)
    &&& opt_view(t1.prompt_policy_decision) == match field(e, "decision"@) {
        Some(v) => Some(v),
        None => opt_view(t0.prompt_policy_decision),
    }
    &&& t1.early_stop_outcome == t0.early_stop_outcome
    &&& t1.browser_profile == t0.browser_profile
    &&& t1.browser_profile_dir == t0.browser_profile_dir
    &&& t1.browser_slot == t0.browser_slot
    &&& t1.cdp_url == t0.cdp_url
}

fn field_value(e: &JailgunEvent, key: &str) -> (r: Option<String>)
    requires
        e.wf(),
    ensures
        opt_view(r) == field(*e, key@),
{
    match e.fields.get(key) {
        Some(v) => Some(v.clone()),
        None => None,
    }
}

/// Applies an event to the snapshot of its tab.
pub fn apply_tab_event(tab: &mut TabSnapshot, event: &JailgunEvent)
    requires
        event.wf(),
    ensures
        tab_after(*old(tab), *final(tab), *event),
{
    match field_value(event, "tab_status") {
        Some(s) => tab.status = s,
        None => {},
    }
    match field_value(event, "page_url") {
        Some(s) => tab.page_url = s,
        None => {},
    }
    match field_value(event, "sha256") {
        Some(s) => tab.archive_sha256 = Some(s),
        None => {},
    }
    match event.fields.get("download_latency_ms") {
        Some(s) => tab.download_latency_ms = parse_u64(s.as_str()),
        None => {},
    }
    match field_value(event, "deploy_status") {
        Some(s) => tab.deploy_status = s,
        None => {},
    }
    match field_value(event, "decision") {
        Some(s) => tab.prompt_policy_decision = Some(s),
        None => {},
    }
    proof {
        reveal_strlit("active");
    }
    match event.kind {
        EventKind::TabOpened => {
            if str_eq(tab.status.as_str(), "active") {
                tab.status = owned("opening");
            }
        },
        EventKind::PromptSubmitted => {
            tab.status = owned("submitted");
        },
        EventKind::TarDiscovered => {
            tab.status = owned("tar-discovered");
        },
        EventKind::DownloadReceipt => {
            tab.status = owned("downloaded");
        },
        EventKind::DeployFinished => {
            tab.deploy_status = match field_value(event, "outcome") {
                Some(o) => o,
                None => owned("succeeded"),
            };
        },
        EventKind::RemoteSafety => {
            match field_value(event, "policy") {
                Some(p) => tab.deploy_status = p,
                None => {},
            }
        },
        EventKind::Error => {
            tab.status = owned("error");
        },
        _ => {},
    }
}

/// A tab that nothing happened to yet.
pub open spec fn fresh_tab(t: TabSnapshot, tab_id: u16) -> bool {
    &&& t.tab_id == tab_id
    &&& t.status@ == "active"@
    &&& t.page_url@.len() == 0
    &&& t.archive_sha256 is None
    &&& t.download_latency_ms is None
    &&& t.deploy_status@ == "pending"@
    &&& t.prompt_policy_decision is None
    &&& t.early_stop_outcome is None
    &&& t.browser_profile is None
    &&& t.browser_profile_dir is None
    &&& t.browser_slot is None
    &&& t.cdp_url is None
}

/// The position of a run's tab, added (active, deploy pending) when the
/// run has none with that id.
pub fn upsert_tab(run: &mut RunSnapshot, tab_id: u16) -> (i: usize)
    ensures
        i < final(run).tabs@.len(),
        final(run).tabs@[i as int].tab_id == tab_id,
        forall|j: int| 0 <= j < i ==> #[trigger] final(run).tabs@[j].tab_id != tab_id,
        (exists|j: int| 0 <= j < old(run).tabs@.len() && #[trigger] old(run).tabs@[j].tab_id == tab_id) ==> final(run).tabs@ == old(run).tabs@,
        !(exists|j: int| 0 <= j < old(run).tabs@.len() && #[trigger] old(run).tabs@[j].tab_id == tab_id) ==> {
            &&& final(run).tabs@.len() == old(run).tabs@.len() + 1
            &&& final(run).tabs@.take(old(run).tabs@.len() as int) == old(run).tabs@
            &&& fresh_tab(final(run).tabs@[i as int], tab_id)
        },
        *final(run) == (RunSnapshot { tabs: final(run).tabs, ..*old(run) }),
{
    let mut i: usize = 0;
    while i < run.tabs.len()
        invariant
            i <= run.tabs.len(),
            forall|j: int| 0 <= j < i ==> #[trigger] run.tabs@[j].tab_id != tab_id,
        decreases run.tabs.len() - i,
    {
        if run.tabs[i].tab_id == tab_id {
            return i;
        }
        i += 1;
    }
    let ghost t0 = run.tabs@;
    run.tabs.push(
        TabSnapshot {
            tab_id,
            status: owned("active"),
            page_url: String::new(),
            archive_sha256: None,
            download_latency_ms: None,
            deploy_status: owned("pending"),
            prompt_policy_decision: None,
            early_stop_outcome: None,
            browser_profile: None,
            browser_profile_dir: None,
            browser_slot: None,
            cdp_url: None,
        },
    );
    assert(run.tabs@.take(t0.len() as int) =~= t0);
    i
}

/// A run's prompt policy counts after a decision: a denial or an allowed
/// informational prompt is counted.
pub open spec fn policy_counted(r0: RunSnapshot, r1: RunSnapshot, e: JailgunEvent) -> bool {
    &&& r1.denied_github_prompts == (if field(e, "decision"@) == Some("deny"@) {
        r0.denied_github_prompts + 1
    } else {
        r0.denied_github_prompts as int
    })
    &&& r1.allowed_info_prompts == (if field(e, "decision"@) == Some("allow-info"@) {
        r0.allowed_info_prompts + 1
    } else {
        r0.allowed_info_prompts as int
    })
}

/// Counts a prompt policy decision.
pub fn bump_policy_counts(run: &mut RunSnapshot, event: &JailgunEvent)
    requires
        event.wf(),
        old(run).denied_github_prompts < u32::MAX,
        old(run).allowed_info_prompts < u32::MAX,
    ensures
        policy_counted(*old(run), *final(run), *event),
        *final(run) == (RunSnapshot {
            denied_github_prompts: final(run).denied_github_prompts,
            allowed_info_prompts: final(run).allowed_info_prompts,
            ..*old(run)
        }),
{
    proof {
        reveal_strlit("deny");
        reveal_strlit("allow-info");
    }
    match event.fields.get("decision") {
        Some(d) => {
            if str_eq(d.as_str(), "deny") {
                run.denied_github_prompts = run.denied_github_prompts + 1;
                assert(d@ != "allow-info"@) by {
                    assert(d@.len() != "allow-info"@.len());
                }
            } else if str_eq(d.as_str(), "allow-info") {
                run.allowed_info_prompts = run.allowed_info_prompts + 1;
            }
        },
        None => {},
    }
}

/// The run-level part of an event: its start, a queued or finished
/// deploy, an error (the run failed), a prompt decision.
pub open spec fn run_level_after(r0: RunSnapshot, r1: RunSnapshot, e: JailgunEvent) -> bool {
    match e.kind {
        EventKind::RunStarted => {
            &&& r1.started_at == e.timestamp
            &&& r1.status@ == field_or(e, "status"@, "running"@)
            &&& r1 == (RunSnapshot { started_at: r1.started_at, status: r1.status, tabs: r1.tabs, ..r0 })
        },
        EventKind::DeployQueued => r1 == (RunSnapshot { deploy_queue: DeployQueueState::Waiting, tabs: r1.tabs, ..r0 }),
        EventKind::DeployFinished => r1 == (RunSnapshot {
            deploy_queue: DeployQueueState::Done,
            finished_at: Some(e.timestamp),
            tabs: r1.tabs,
            ..r0
        }),
        EventKind::Error => {
            &&& r1.status@ == "failed"@
            &&& r1.finished_at == Some(e.timestamp)
            &&& r1 == (RunSnapshot { status: r1.status, finished_at: r1.finished_at, tabs: r1.tabs, ..r0 })
        },
        EventKind::PromptPolicy => {
            &&& policy_counted(r0, r1, e)
            &&& r1 == (RunSnapshot {
                denied_github_prompts: r1.denied_github_prompts,
                allowed_info_prompts: r1.allowed_info_prompts,
                tabs: r1.tabs,
                ..r0
            })
        },
        _ => r1 == (RunSnapshot { tabs: r1.tabs, ..r0 }),
    }
}

/// The tabs of a run after an event: an event about a tab updates that
/// tab, added first when the run had none with its id.
pub open spec fn tabs_after(t0: Seq<TabSnapshot>, t1: Seq<TabSnapshot>, e: JailgunEvent) -> bool {
    match e.tab_id {
        None => t1 == t0,
        Some(id) => if exists|j: int| 0 <= j < t0.len() && #[trigger] t0[j].tab_id == id {
            exists|i: int|
                0 <= i < t0.len() && t0[i].tab_id == id && (forall|j: int| 0 <= j < i ==> #[trigger] t0[j].tab_id != id)
                    && t1 == t0.update(i, t1[i]) && tab_after(t0[i], t1[i], e)
        } else {
            &&& t1.len() == t0.len() + 1
            &&& t1.take(t0.len() as int) == t0
            &&& exists|t: TabSnapshot| fresh_tab(t, id) && tab_after(t, t1[t0.len() as int], e)
        },
    }
}

/// Folds one event into the snapshot of its run.
pub fn apply_event_to_run(run: &mut RunSnapshot, event: &JailgunEvent)
    requires
        event.wf(),
        event.kind == EventKind::PromptPolicy ==> old(run).denied_github_prompts < u32::MAX
            && old(run).allowed_info_prompts < u32::MAX,
    ensures
        run_level_after(*old(run), *final(run), *event),
        tabs_after(old(run).tabs@, final(run).tabs@, *event),
{
    match event.kind {
        EventKind::RunStarted => {
            run.started_at = event.timestamp.clone();
            run.status = match field_value(event, "status") {
                Some(s) => s,
                None => owned("running"),
            };
        },
        EventKind::DeployQueued => {
            run.deploy_queue = DeployQueueState::Waiting;
        },
        EventKind::DeployFinished => {
            run.deploy_queue = DeployQueueState::Done;
            run.finished_at = Some(event.timestamp.clone());
        },
        EventKind::Error => {
            run.status = owned("failed");
            run.finished_at = Some(event.timestamp.clone());
        },
        EventKind::PromptPolicy => {
            bump_policy_counts(run, event);
        },
        _ => {},
    }
    let ghost r1 = *run;
    match event.tab_id {
        Some(tab_id) => {
            let ghost t0 = run.tabs@;
            let i = upsert_tab(run, tab_id);
            let ghost t_mid = run.tabs@;
            let mut tab = run.tabs.remove(i);
            apply_tab_event(&mut tab, event);
            run.tabs.insert(i, tab);
            proof {
                assert(run.tabs@ =~= t_mid.update(i as int, tab));
                if exists|j: int| 0 <= j < t0.len() && #[trigger] t0[j].tab_id == tab_id {
                    assert(t_mid == t0);
                    assert(run.tabs@ == t0.update(i as int, run.tabs@[i as int]));
                } else {
                    assert(run.tabs@.take(t0.len() as int) =~= t0);
                    assert(fresh_tab(t_mid[i as int], tab_id));
                    if i < t0.len() {
                        assert(t_mid.take(t0.len() as int)[i as int] == t0[i as int]);
                        assert(t0[i as int].tab_id == tab_id);
                    }
                    assert(i == t0.len());
                }
            }
        },
        None => {},
    }
}

/// A new run snapshot seen first through one of its events: running,
/// started at the event's time, with nothing queued.
pub fn run_from_event(event: &JailgunEvent) -> (r: RunSnapshot)
    ensures
        r.run_id == event.run_id,
        r.started_at == event.timestamp,
        r.finished_at is None,
        r.status@ == "running"@,
        r.tabs@.len() == 0,
        r.deploy_queue == DeployQueueState::Idle,
        r.denied_github_prompts == 0,
        r.allowed_info_prompts == 0,
{
    RunSnapshot {
        run_id: event.run_id.clone(),
        started_at: event.timestamp.clone(),
        finished_at: None,
        status: owned("running"),
        batch_tabs: 0,
        loop_count: 0,
        planned_tabs: 0,
        tabs: Vec::new(),
        deploy_queue: DeployQueueState::Idle,
        denied_github_prompts: 0,
        allowed_info_prompts: 0,
        early_stops_succeeded: 0,
        early_stops_attempted: 0,
    }
}

/// The snapshot of an agent run that was just prepared: running, its
/// deploys running, nothing else known.
pub fn prepared_snapshot(run_id: &str, started_at: &str) -> (r: RunSnapshot)
    ensures
        r.run_id@ == run_id@,
        r.started_at@ == started_at@,
        r.finished_at is None,
        r.status@ == "running"@,
        r.tabs@.len() == 0,
        r.deploy_queue == DeployQueueState::Running,
        r.denied_github_prompts == 0,
        r.allowed_info_prompts == 0,
{
    RunSnapshot {
        run_id: owned(run_id),
        started_at: owned(started_at),
        finished_at: None,
        status: owned("running"),
        batch_tabs: 0,
        loop_count: 0,
        planned_tabs: 0,
        tabs: Vec::new(),
        deploy_queue: DeployQueueState::Running,
        denied_github_prompts: 0,
        allowed_info_prompts: 0,
        early_stops_succeeded: 0,
        early_stops_attempted: 0,
    }
}

// ---------------------------------------------------------------------
// Paths and answers
// ---------------------------------------------------------------------

/// Where an agent run's events are written.
pub fn agent_events_path(run_dir: &str) -> (r: String)
    ensures
        r@ == path_join(run_dir@, "agent-events.jsonl"@),
{
    join_path(run_dir, "agent-events.jsonl")
}

/// Where an agent run's summary is written.
pub fn agent_summary_path(run_dir: &str, run_id: &str) -> (r: String)
    ensures
        r@ == path_join(run_dir@, "agent-summary.json"@),
{
    join_path(run_dir, "agent-summary.json")
}

/// The answer to an accepted agent run request.
#[derive(Debug, Clone, PartialEq, Eq)]
pub struct JailgunAgentRunAcceptedResponse {
    pub run_id: String,
    pub status: String,
    pub summary_json: String,
    pub events_jsonl: String,
    pub run_url: String,
    pub summary_url: String,
}

/// The answer to an accepted run: where its summary and events go, and
/// the URLs to follow it.
pub fn accepted_response(run_id: &str, summary_json: &str, events_jsonl: &str) -> (r: JailgunAgentRunAcceptedResponse)
    ensures
        r.run_id@ == run_id@,
        r.status@ == "accepted"@,
        r.summary_json@ == summary_json@,
        r.events_jsonl@ == events_jsonl@,
        r.run_url@ == "/api/runs/"@ + run_id@,
        r.summary_url@ == "/api/runs/"@ + run_id@ + "/agent-summary"@,
{
    let mut run_url = owned("/api/runs/");
    push_str(&mut run_url, run_id);
    let mut summary_url = owned("/api/runs/");
    push_str(&mut summary_url, run_id);
    push_str(&mut summary_url, "/agent-summary");
    JailgunAgentRunAcceptedResponse {
        run_id: owned(run_id),
        status: owned("accepted"),
        summary_json: owned(summary_json),
        events_jsonl: owned(events_jsonl),
        run_url,
        summary_url,
    }
}

/// An error an agent can act on: what failed, while doing what, why, and
/// what to try.
#[derive(Debug, Clone, PartialEq, Eq)]
pub struct AgentError {
    pub code: String,
    pub purpose: String,
    pub reason: String,
    pub remediation: Vec<String>,
    pub docs: String,
    pub next_step: String,
}

/// The error answered to a refused agent run request.
pub fn agent_error(code: &str, purpose: &str, reason: String) -> (r: AgentError)
    ensures
        r.code@ == code@,
        r.purpose@ == purpose@,
        r.reason == reason,
        crate::text::views(r.remediation@) == seq![
            "verify the live server token and request body"@,
            "check the configured prompt file path"@,
            "run the mapped rust test lane if the failure persists"@,
        ],
        r.docs@ == "docs/testing.md"@,
        r.next_step@ == "rerun the agent request with a valid prompt file and token"@,
{
    let mut remediation: Vec<String> = Vec::new();
    remediation.push(owned("verify the live server token and request body"));
    remediation.push(owned("check the configured prompt file path"));
    remediation.push(owned("run the mapped rust test lane if the failure persists"));
    assert(crate::text::views(remediation@) =~= seq![
        "verify the live server token and request body"@,
        "check the configured prompt file path"@,
        "run the mapped rust test lane if the failure persists"@,
    ]);
    AgentError {
        code: owned(code),
        purpose: owned(purpose),
        reason,
        remediation,
        docs: owned("docs/testing.md"),
        next_step: owned("rerun the agent request with a valid prompt file and token"),
    }
}

// ---------------------------------------------------------------------
// The list of runs
// ---------------------------------------------------------------------

/// A run after one event about it.
pub open spec fn event_applied(r0: RunSnapshot, r1: RunSnapshot, e: JailgunEvent) -> bool {
    run_level_after(r0, r1, e) && tabs_after(r0.tabs@, r1.tabs@, e)
}

/// The position of the first run with this id.
pub open spec fn first_run(runs: Seq<RunSnapshot>, run_id: Seq<char>, i: int) -> bool {
    &&& 0 <= i < runs.len()
    &&& runs[i].run_id@ == run_id
    &&& forall|j: int| 0 <= j < i ==> #[trigger] runs[j].run_id@ != run_id
}

/// Whether some run has this id.
pub open spec fn has_run(runs: Seq<RunSnapshot>, run_id: Seq<char>) -> bool {
    exists|j: int| 0 <= j < runs.len() && #[trigger] runs[j].run_id@ == run_id
}

fn find_run(runs: &Vec<RunSnapshot>, run_id: &str) -> (r: Option<usize>)
    ensures
        match r {
            Some(i) => first_run(runs@, run_id@, i as int),
            None => !has_run(runs@, run_id@),
        },
{
    let mut i: usize = 0;
    while i < runs.len()
        invariant
            i <= runs.len(),
            forall|j: int| 0 <= j < i ==> #[trigger] runs@[j].run_id@ != run_id@,
        decreases runs.len() - i,
    {
        if str_eq(runs[i].run_id.as_str(), run_id) {
            return Some(i);
        }
        i += 1;
    }
    None
}

/// The prompt counts of the runs an event may count a decision for are
/// below their limit.
pub open spec fn counts_have_room(runs: Seq<RunSnapshot>, e: JailgunEvent) -> bool {
    e.kind == EventKind::PromptPolicy ==> forall|j: int| 0 <= j < runs.len() && #[trigger] runs[j].run_id@ == e.run_id@
        ==> runs[j].denied_github_prompts < u32::MAX && runs[j].allowed_info_prompts < u32::MAX
}

/// Records an event: it joins the history, and is folded into its run,
/// which is added in front when unknown.
pub fn record_event(runs: &mut Vec<RunSnapshot>, history: &mut Vec<JailgunEvent>, event: JailgunEvent)
    requires
        event.wf(),
        counts_have_room(old(runs)@, event),
    ensures
        final(history)@ == old(history)@.push(event),
        has_run(old(runs)@, event.run_id@) ==> exists|i: int|
            first_run(old(runs)@, event.run_id@, i) && final(runs)@ == old(runs)@.update(i, final(runs)@[i])
                && event_applied(old(runs)@[i], final(runs)@[i], event),
        !has_run(old(runs)@, event.run_id@) ==> {
            &&& final(runs)@.len() == old(runs)@.len() + 1
            &&& final(runs)@.skip(1) == old(runs)@
            &&& exists|r: RunSnapshot| {
                &&& r.run_id == event.run_id && r.started_at == event.timestamp && r.finished_at is None
                &&& r.status@ == "running"@ && r.tabs@.len() == 0 && r.deploy_queue == DeployQueueState::Idle
                &&& r.denied_github_prompts == 0 && r.allowed_info_prompts == 0
                &&& event_applied(r, final(runs)@[0], event)
            }
        },
{
    match find_run(runs, event.run_id.as_str()) {
        Some(i) => {
            let mut run = runs.remove(i);
            let ghost r0 = run;
            assert(r0.run_id@ == event.run_id@);
            apply_event_to_run(&mut run, &event);
            runs.insert(i, run);
            proof {
                assert(runs@ =~= old(runs)@.update(i as int, run));
                assert(first_run(old(runs)@, event.run_id@, i as int));
            }
        },
        None => {
            let mut run = run_from_event(&event);
            let ghost r0 = run;
            apply_event_to_run(&mut run, &event);
            runs.insert(0, run);
            proof {
                assert(runs@.skip(1) =~= old(runs)@);
                assert(event_applied(r0, runs@[0], event));
            }
        },
    }
    history.push(event);
}

/// Stores a run snapshot in place of the first one with its id, or in
/// front when there is none.
pub fn insert_run_snapshot(runs: &mut Vec<RunSnapshot>, snapshot: RunSnapshot)
    ensures
        has_run(old(runs)@, snapshot.run_id@) ==> exists|i: int|
            first_run(old(runs)@, snapshot.run_id@, i) && final(runs)@ == old(runs)@.update(i, snapshot),
        !has_run(old(runs)@, snapshot.run_id@) ==> final(runs)@ == seq![snapshot] + old(runs)@,
{
    match find_run(runs, snapshot.run_id.as_str()) {
        Some(i) => {
            let ghost id = snapshot.run_id@;
            runs.set(i, snapshot);
            assert(first_run(old(runs)@, id, i as int));
        },
        None => {
            runs.insert(0, snapshot);
            assert(runs@ =~= seq![snapshot] + old(runs)@);
        },
    }
}

/// Marks the first run with this id as ended: with this status and
/// finish time, and (when given) its prompt counts.
pub fn finish_run(runs: &mut Vec<RunSnapshot>, run_id: &str, status: &str, finished_at: &str, counts: Option<(u32, u32)>) -> (r: Option<usize>)
    ensures
        match r {
            Some(i) => {
                &&& first_run(old(runs)@, run_id@, i as int)
                &&& final(runs)@ == old(runs)@.update(i as int, final(runs)@[i as int])
                &&& final(runs)@[i as int].status@ == status@
                &&& opt_view(final(runs)@[i as int].finished_at) == Some(finished_at@)
                &&& final(runs)@[i as int] == (RunSnapshot {
                    status: final(runs)@[i as int].status,
                    finished_at: final(runs)@[i as int].finished_at,
                    denied_github_prompts: final(runs)@[i as int].denied_github_prompts,
                    allowed_info_prompts: final(runs)@[i as int].allowed_info_prompts,
                    ..old(runs)@[i as int]
                })
                &&& match counts {
                    Some((d, a)) => final(runs)@[i as int].denied_github_prompts == d && final(runs)@[i as int].allowed_info_prompts == a,
                    None => final(runs)@[i as int].denied_github_prompts == old(runs)@[i as int].denied_github_prompts
                        && final(runs)@[i as int].allowed_info_prompts == old(runs)@[i as int].allowed_info_prompts,
                }
            },
            None => !has_run(old(runs)@, run_id@) && final(runs)@ == old(runs)@,
        },
{
    match find_run(runs, run_id) {
        Some(i) => {
            let mut run = runs.remove(i);
            run.status = owned(status);
            run.finished_at = Some(owned(finished_at));
            match counts {
                Some((d, a)) => {
                    run.denied_github_prompts = d;
                    run.allowed_info_prompts = a;
                },
                None => {},
            }
            runs.insert(i, run);
            proof {
                assert(runs@ =~= old(runs)@.update(i as int, run));
                assert(first_run(old(runs)@, run_id@, i as int));
                assert(run == (RunSnapshot {
                    status: run.status,
                    finished_at: run.finished_at,
                    denied_github_prompts: run.denied_github_prompts,
                    allowed_info_prompts: run.allowed_info_prompts,
                    ..old(runs)@[i as int]
                }));
            }
            Some(i)
        },
        None => None,
    }
}

// ---------------------------------------------------------------------
// Checks on requests
// ---------------------------------------------------------------------

/// Whether the token a request carries is the configured one.
pub open spec fn token_matches(expected: Option<String>, provided: Option<String>) -> bool {
    expected matches Some(x) && provided matches Some(p) && p@ == x@
}

fn tokens_match(expected: &Option<String>, provided: &Option<String>) -> (r: bool)
    ensures
        r == token_matches(*expected, *provided),
{
    match (expected, provided) {
        (Some(x), Some(p)) => str_eq(p.as_str(), x.as_str()),
        _ => false,
    }
}

/// How an ingested event is answered: refused (503) without a configured
/// token, unauthorized (401) with the wrong one; else recorded, and
/// accepted (202) when a live bus forwards it, 503 otherwise.
pub fn ingest_status(expected: &Option<String>, provided: &Option<String>, live: bool) -> (r: (bool, u16))
    ensures
        expected is None ==> r == (false, 503u16),
        expected is Some && !token_matches(*expected, *provided) ==> r == (false, 401u16),
        token_matches(*expected, *provided) ==> r == (true, if live { 202u16 } else { 503u16 }),
{
    if expected.is_none() {
        return (false, 503);
    }
    if !tokens_match(expected, provided) {
        return (false, 401);
    }
    (true, if live { 202 } else { 503 })
}

/// Why an agent run request is refused before it is read: the server is
/// not live (503), has no token (503), or the token is wrong (401).
pub fn agent_run_gate(live: bool, expected: &Option<String>, provided: &Option<String>) -> (r: Option<(u16, AgentError)>)
    ensures
        !live ==> (r matches Some((c, e)) && c == 503 && e.code@ == "agent-run-unavailable"@
            && e.reason@ == "live mode is required to start server-side runs"@),
        live && expected is None ==> (r matches Some((c, e)) && c == 503 && e.code@ == "agent-run-unavailable"@
            && e.reason@ == "x-jailgun-token is required when run ingestion is enabled"@),
        live && expected is Some && !token_matches(*expected, *provided) ==> (r matches Some((c, e)) && c == 401
            && e.code@ == "agent-run-unauthorized"@ && e.reason@ == "x-jailgun-token did not match the configured token"@),
        live && token_matches(*expected, *provided) ==> r is None,
        r matches Some((c, e)) ==> e.purpose@ == "start a Jailgun agent run"@,
{
    if !live {
        return Some((503, agent_error("agent-run-unavailable", "start a Jailgun agent run", owned("live mode is required to start server-side runs"))));
    }
    if expected.is_none() {
        return Some((503, agent_error("agent-run-unavailable", "start a Jailgun agent run", owned("x-jailgun-token is required when run ingestion is enabled"))));
    }
    if !tokens_match(expected, provided) {
        return Some((401, agent_error("agent-run-unauthorized", "start a Jailgun agent run", owned("x-jailgun-token did not match the configured token"))));
    }
    None
}

/// The refusal of a request without the interface version this server
/// speaks.
pub open spec fn request_version_spec(version: Option<u64>) -> Result<(), Seq<char>> {
    match version {
        None => Err("Jailgun agent request requires version: "@ + decimal(crate::agent::JAILGUN_AGENT_INTERFACE_VERSION as nat)),
        Some(v) => if v == crate::agent::JAILGUN_AGENT_INTERFACE_VERSION as u64 {
            Ok(())
        } else {
            Err("unsupported Jailgun agent interface version "@ + decimal(v as nat) + "; expected "@
                + decimal(crate::agent::JAILGUN_AGENT_INTERFACE_VERSION as nat))
        },
    }
}

/// Checks the `version` of an agent run request body (a non-negative
/// integer, when present).
pub fn check_request_version(version: Option<u64>) -> (r: Result<(), String>)
    ensures
        crate::agent::res_view(r) == request_version_spec(version),
{
    match version {
        None => {
            let mut m = owned("Jailgun agent request requires version: ");
            push_decimal(&mut m, crate::agent::JAILGUN_AGENT_INTERFACE_VERSION as u64);
            Err(m)
        },
        Some(v) => {
            if v == crate::agent::JAILGUN_AGENT_INTERFACE_VERSION as u64 {
                Ok(())
            } else {
                let mut m = owned("unsupported Jailgun agent interface version ");
                push_decimal(&mut m, v);
                push_str(&mut m, "; expected ");
                push_decimal(&mut m, crate::agent::JAILGUN_AGENT_INTERFACE_VERSION as u64);
                Err(m)
            }
        },
    }
}

/// What is known of a run's summary file.
#[derive(Debug, Clone, Copy, PartialEq, Eq)]
pub enum SummaryFile {
    /// It was read and parsed.
    Parsed,
    /// It was read but is not a summary.
    Invalid,
    /// There is none.
    Missing,
    /// It could not be read.
    Unreadable,
}

/// How a request for a run's summary is answered.
#[derive(Debug, Clone, Copy, PartialEq, Eq)]
pub enum SummaryAnswer {
    /// The summary (200).
    Summary,
    /// The run is still going (202).
    Running,
    /// No such run (404).
    NotFound,
    /// The summary file is not a summary (500).
    Invalid,
    /// The summary file could not be read (500).
    ReadFailed,
}

/// The answer to a summary request: a known summary first, then the
/// summary file, then whether the run is known at all.
pub fn summary_answer(cached: bool, file: SummaryFile, run_known: bool) -> (r: SummaryAnswer)
    ensures
        r == if cached {
            SummaryAnswer::Summary
        } else {
            match file {
                SummaryFile::Parsed => SummaryAnswer::Summary,
                SummaryFile::Invalid => SummaryAnswer::Invalid,
                SummaryFile::Missing => if run_known { SummaryAnswer::Running } else { SummaryAnswer::NotFound },
                SummaryFile::Unreadable => SummaryAnswer::ReadFailed,
            }
        },
{
    if cached {
        return SummaryAnswer::Summary;
    }
    match file {
        SummaryFile::Parsed => SummaryAnswer::Summary,
        SummaryFile::Invalid => SummaryAnswer::Invalid,
        SummaryFile::Missing => if run_known {
            SummaryAnswer::Running
        } else {
            SummaryAnswer::NotFound
        },
        SummaryFile::Unreadable => SummaryAnswer::ReadFailed,
    }
}

impl SummaryAnswer {
    /// The HTTP status of the answer.
    pub fn status(&self) -> (c: u16)
        ensures
            c == match *self {
                SummaryAnswer::Summary => 200u16,
                SummaryAnswer::Running => 202u16,
                SummaryAnswer::NotFound => 404u16,
                SummaryAnswer::Invalid => 500u16,
                SummaryAnswer::ReadFailed => 500u16,
            },
    {
        match self {
            SummaryAnswer::Summary => 200,
            SummaryAnswer::Running => 202,
            SummaryAnswer::NotFound => 404,
            SummaryAnswer::Invalid => 500,
            SummaryAnswer::ReadFailed => 500,
        }
    }
}

} // verus!
