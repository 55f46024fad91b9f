//! Notifications: the JPCM envelope jailgun drops into the JMCP outbox,
//! the commit notice, and which run events become notifications and with
//! what text.
use vstd::prelude::*;
use crate::event::{kind_name, kind_name_spec, EventKind, FieldMap, JailgunEvent, Severity};
use crate::text::{
    decimal, join_seq, join_strings, owned, push_decimal, push_signed, push_str, signed_decimal,
    take_chars, views,
};

verus! {

/// The schema version of the envelopes written.
pub const SCHEMA_VERSION: &'static str = "jpcm/1.0.0";

/// The producer named in envelopes.
pub const PRODUCER_NAME: &'static str = "jailgun";

/// The value of an optional field of an event.
pub open spec fn field(e: JailgunEvent, k: Seq<char>) -> Option<Seq<char>> {
    if e.fields@.contains_key(k) {
        Some(e.fields@[k])
    } else {
        None
    }
}

// ---------------------------------------------------------------------
// Envelope parts
// ---------------------------------------------------------------------

/// What kind of event an envelope carries.
#[derive(Debug, Clone, PartialEq, Eq)]
pub struct EventType {
    pub domain: String,
    pub action: String,
    pub risk_tier: String,
}

/// Who wrote an envelope.
#[derive(Debug, Clone, PartialEq, Eq)]
pub struct Producer {
    pub name: String,
    pub version: String,
    pub kind: String,
}

/// The authority an envelope is written under.
#[derive(Debug, Clone, PartialEq, Eq)]
pub struct Authority {
    pub lease_id: String,
    pub autonomy_tier: String,
    pub granted_by: String,
    pub granted_at: String,
}

/// The run (and tab) an envelope is about.
#[derive(Debug, Clone, PartialEq, Eq)]
pub struct TaskRef {
    pub task_id: String,
    pub run_id: String,
    pub tab_id: Option<u16>,
}

/// Where an envelope is delivered.
#[derive(Debug, Clone, PartialEq, Eq)]
pub struct Routing {
    pub stream: String,
    pub subject: String,
    pub destinations: Vec<String>,
}

/// A notification about a commit.
#[derive(Debug, Clone, PartialEq, Eq)]
pub struct NotifyCommitPayload {
    pub title: String,
    pub summary_emoji: String,
    pub body_markdown: String,
    pub run_id: String,
    pub tab_id: Option<u16>,
    pub post_head: String,
    pub pre_head: Option<String>,
    pub files_changed: usize,
    pub additions: u64,
    pub deletions: u64,
    pub top_paths: Vec<String>,
    pub ci_state: Option<String>,
    pub remote_command_exit: Option<i32>,
}

/// A notification about a run event.
#[derive(Debug, Clone, PartialEq, Eq)]
pub struct NotifyEventPayload {
    pub title: String,
    pub summary_emoji: String,
    pub body_markdown: String,
    pub run_id: String,
    pub tab_id: Option<u16>,
    pub event_kind: String,
    pub event_severity: String,
    pub metrics: FieldMap,
}

/// A plain text notification.
#[derive(Debug, Clone, PartialEq, Eq)]
pub struct NotifyTextPayload {
    pub title: String,
    pub summary_emoji: String,
    pub body_markdown: String,
}

/// What an envelope carries.
#[derive(Debug, Clone, PartialEq, Eq)]
pub enum Payload {
    NotifyCommit(NotifyCommitPayload),
    NotifyEvent(NotifyEventPayload),
    NotifyText(NotifyTextPayload),
}

/// The digest of an envelope's payload.
#[derive(Debug, Clone, PartialEq, Eq)]
pub struct Integrity {
    pub algo: String,
    pub digest_hex: String,
}

/// `<run>-tab-<NN>` for a tab, the run id otherwise.
pub open spec fn task_id_spec(run_id: Seq<char>, tab_id: Option<u16>) -> Seq<char> {
    match tab_id {
        Some(t) => run_id + "-tab-"@ + crate::text::decimal_pad2(t as nat),
        None => run_id,
    }
}

impl TaskRef {
    /// The task of a run, or of one of its tabs.
    pub fn for_run(run_id: &str, tab_id: Option<u16>) -> (t: TaskRef)
        ensures
            t.task_id@ == task_id_spec(run_id@, tab_id),
            t.run_id@ == run_id@,
            t.tab_id == tab_id,
    {
        let task_id = match tab_id {
            Some(tab) => {
                let mut s = owned(run_id);
                push_str(&mut s, "-tab-");
                crate::text::push_pad2(&mut s, tab as u64);
                s
            },
            None => owned(run_id),
        };
        TaskRef { task_id, run_id: owned(run_id), tab_id }
    }
}

impl Routing {
    /// Delivery to the user's Telegram through the user stream.
    pub fn notify_user() -> (r: Routing)
        ensures
            r.stream@ == "JPCM.USER"@,
            r.subject@ == "jpcm.local.dev.user.notification.R0_local_read.jailgun"@,
            r.destinations@.len() == 1,
            r.destinations@[0]@ == "user.telegram"@,
    {
        let mut destinations: Vec<String> = Vec::new();
        destinations.push(owned("user.telegram"));
        Routing {
            stream: owned("JPCM.USER"),
            subject: owned("jpcm.local.dev.user.notification.R0_local_read.jailgun"),
            destinations,
        }
    }
}

impl Producer {
    /// Jailgun, this version, as a native service.
    pub fn jailgun() -> (p: Producer)
        ensures
            p.name@ == PRODUCER_NAME@,
            p.version@ == "0.2.0"@,
            p.kind@ == "native_service"@,
    {
        Producer { name: owned(PRODUCER_NAME), version: owned("0.2.0"), kind: owned("native_service") }
    }
}

impl Authority {
    /// The placeholder authority of envelopes written before leases exist,
    /// granted now.
    pub fn pre_lease() -> (a: Authority)
        ensures
            a.lease_id@ == "jailgun-v0-pre-lease"@,
            a.autonomy_tier@ == "R0_local_read"@,
            a.granted_by@ == "jailgun"@,
            crate::clock::rfc3339_shaped(a.granted_at@),
    {
        Authority {
            lease_id: owned("jailgun-v0-pre-lease"),
            autonomy_tier: owned("R0_local_read"),
            granted_by: owned("jailgun"),
            granted_at: crate::clock::timestamp_now(),
        }
    }
}

// ---------------------------------------------------------------------
// Commit notices
// ---------------------------------------------------------------------

/// What a commit notice reports.
#[derive(Debug, Clone, PartialEq, Eq)]
pub struct CommitNotice {
    pub run_id: String,
    pub tab_id: Option<u16>,
    pub post_head: String,
    pub pre_head: Option<String>,
    pub files_changed: usize,
    pub additions: u64,
    pub deletions: u64,
    pub top_paths: Vec<String>,
    pub ci_state: Option<String>,
    pub remote_command_exit: Option<i32>,
}

/// The listed paths of a notice: at most twelve, then how many more.
pub open spec fn path_lines(paths: Seq<Seq<char>>) -> Seq<Seq<char>> {
    let shown = if paths.len() <= 12 { paths.len() as int } else { 12int };
    let listed = Seq::new(shown as nat, |i: int| "- "@ + paths[i]);
    if paths.len() > 12 {
        listed.push("- \u{2026} "@ + decimal((paths.len() - 12) as nat) + " more"@)
    } else {
        listed
    }
}

/// The lines of a commit notice.
pub open spec fn notice_lines(n: CommitNotice) -> Seq<Seq<char>> {
    let tab = match n.tab_id {
        Some(t) => "tab "@ + decimal(t as nat),
        None => "tab unknown"@,
    };
    let head = seq![
        "\u{2705} Jailgun commit succeeded"@,
        "run "@ + n.run_id@ + " ("@ + tab + ")"@,
        "head "@ + n.post_head@,
    ];
    let with_pre = match n.pre_head {
        Some(p) => head.push("from "@ + p@),
        None => head,
    };
    let with_stats = with_pre.push(
        decimal(n.files_changed as nat) + " files, +"@ + decimal(n.additions as nat) + ", -"@
            + decimal(n.deletions as nat),
    );
    let with_ci = match n.ci_state {
        Some(c) => with_stats.push("ci "@ + c@),
        None => with_stats,
    };
    let with_exit = match n.remote_command_exit {
        Some(x) => with_ci.push("remote exit "@ + signed_decimal(x as int)),
        None => with_ci,
    };
    if n.top_paths@.len() > 0 {
        with_exit.push("Files:"@) + path_lines(views(n.top_paths@))
    } else {
        with_exit
    }
}

proof fn lemma_decimal_leads_with_digit(n: nat)
    ensures
        decimal(n).len() >= 1,
        '0' <= decimal(n)[0] <= '9',
    decreases n,
{
    if n >= 10 {
        lemma_decimal_leads_with_digit(n / 10);
        assert(decimal(n)[0] == decimal(n / 10)[0]);
    }
}

/// The lines of a commit notice: the success line, the run with its tab
/// (`tab unknown` without one) and the head come first; when paths
/// changed, the last lines are `Files:`, then the first twelve paths in
/// order, then how many more there are when there are more than twelve;
/// with no changed path there is no `Files:` line.
pub proof fn lemma_commit_notice_lines(n: CommitNotice)
    ensures
        notice_lines(n).len() >= 4,
        notice_lines(n)[0] == "\u{2705} Jailgun commit succeeded"@,
        notice_lines(n)[1] == "run "@ + n.run_id@ + " ("@ + (match n.tab_id {
            Some(t) => "tab "@ + decimal(t as nat),
            None => "tab unknown"@,
        }) + ")"@,
        notice_lines(n)[2] == "head "@ + n.post_head@,
        n.top_paths@.len() > 0 ==> ({
            let k = n.top_paths@.len();
            let shown = if k <= 12 { k as int } else { 12int };
            let m = if k > 12 { shown + 1 } else { shown };
            let l = notice_lines(n);
            &&& l.len() >= 5 + m
            &&& l[l.len() - m - 1] == "Files:"@
            &&& forall|i: int| 0 <= i < shown ==> #[trigger] l[l.len() - m + i] == "- "@ + n.top_paths@[i]@
            &&& k > 12 ==> l.last() == "- \u{2026} "@ + decimal((k - 12) as nat) + " more"@
        }),
        n.top_paths@.len() == 0 ==> forall|i: int| 0 <= i < notice_lines(n).len() ==> #[trigger] notice_lines(n)[i] != "Files:"@,
{
    reveal_strlit("Files:");
    reveal_strlit("\u{2705} Jailgun commit succeeded");
    reveal_strlit("run ");
    reveal_strlit("head ");
    reveal_strlit("from ");
    reveal_strlit("ci ");
    reveal_strlit("remote exit ");
    let l = notice_lines(n);
    let k = n.top_paths@.len();
    if k > 0 {
        let shown = if k <= 12 { k as int } else { 12int };
        let m = if k > 12 { shown + 1 } else { shown };
        let pl = path_lines(views(n.top_paths@));
        assert(pl.len() == m);
        assert forall|i: int| 0 <= i < shown implies #[trigger] l[l.len() - m + i] == "- "@ + n.top_paths@[i]@ by {
            assert(l[l.len() - m + i] == pl[i]);
        }
    } else {
        lemma_decimal_leads_with_digit(n.files_changed as nat);
        assert forall|i: int| 0 <= i < l.len() implies #[trigger] l[i] != "Files:"@ by {
            assert("Files:"@[0] == 'F');
            assert(l[i].len() > 0 && l[i][0] != 'F');
        }
    }
}

/// The text of a commit notice: its lines joined by newlines.
pub fn build_commit_notice_message(notice: &CommitNotice) -> (s: String)
    ensures
        s@ == join_seq(notice_lines(*notice), "\n"@),
{
    let mut lines: Vec<String> = Vec::new();
    lines.push(owned("\u{2705} Jailgun commit succeeded"));
    let mut run = owned("run ");
    push_str(&mut run, notice.run_id.as_str());
    push_str(&mut run, " (");
    match notice.tab_id {
        Some(t) => {
            push_str(&mut run, "tab ");
            push_decimal(&mut run, t as u64);
        },
        None => push_str(&mut run, "tab unknown"),
    }
    push_str(&mut run, ")");
    let ghost tab = match notice.tab_id {
        Some(t) => "tab "@ + decimal(t as nat),
        None => "tab unknown"@,
    };
    assert(run@ =~= "run "@ + notice.run_id@ + " ("@ + tab + ")"@);
    lines.push(run);
    let mut head = owned("head ");
    push_str(&mut head, notice.post_head.as_str());
    lines.push(head);
    let ghost head_lines = seq![
        "\u{2705} Jailgun commit succeeded"@,
        "run "@ + notice.run_id@ + " ("@ + tab + ")"@,
        "head "@ + notice.post_head@,
    ];
    assert(views(lines@) =~= head_lines);
    match &notice.pre_head {
        Some(p) => {
            let mut l = owned("from ");
            push_str(&mut l, p.as_str());
            lines.push(l);
        },
        None => {},
    }
    let ghost with_pre = match &notice.pre_head {
        Some(p) => head_lines.push("from "@ + p@),
        None => head_lines,
    };
    assert(views(lines@) =~= with_pre);
    let mut stats = String::new();
    push_decimal(&mut stats, notice.files_changed as u64);
    push_str(&mut stats, " files, +");
    push_decimal(&mut stats, notice.additions);
    push_str(&mut stats, ", -");
    push_decimal(&mut stats, notice.deletions);
    assert(stats@ =~= decimal(notice.files_changed as nat) + " files, +"@ + decimal(notice.additions as nat) + ", -"@
            + decimal(notice.deletions as nat));
    lines.push(stats);
    let ghost with_stats = with_pre.push(
        decimal(notice.files_changed as nat) + " files, +"@ + decimal(notice.additions as nat) + ", -"@
            + decimal(notice.deletions as nat),
    );
    assert(views(lines@) =~= with_stats);
    match &notice.ci_state {
        Some(c) => {
            let mut l = owned("ci ");
            push_str(&mut l, c.as_str());
            lines.push(l);
        },
        None => {},
    }
    let ghost with_ci = match &notice.ci_state {
        Some(c) => with_stats.push("ci "@ + c@),
        None => with_stats,
    };
    assert(views(lines@) =~= with_ci);
    match notice.remote_command_exit {
        Some(x) => {
            let mut l = owned("remote exit ");
            push_signed(&mut l, x as i64);
            lines.push(l);
        },
        None => {},
    }
    let ghost with_exit = match notice.remote_command_exit {
        Some(x) => with_ci.push("remote exit "@ + signed_decimal(x as int)),
        None => with_ci,
    };
    assert(views(lines@) =~= with_exit);
    if notice.top_paths.len() > 0 {
        lines.push(owned("Files:"));
        let ghost mid = views(lines@);
        assert(mid =~= with_exit.push("Files:"@));
        let n = notice.top_paths.len();
        let shown: usize = if n <= 12 { n } else { 12 };
        let mut i: usize = 0;
        while i < shown
            invariant
                i <= shown,
                shown == (if notice.top_paths@.len() <= 12 { notice.top_paths@.len() as int } else { 12int }),
                n == notice.top_paths@.len(),
                views(lines@) == mid + Seq::new(i as nat, |j: int| "- "@ + views(notice.top_paths@)[j]),
            decreases shown - i,
        {
            let mut l = owned("- ");
            push_str(&mut l, notice.top_paths[i].as_str());
            let ghost b = views(lines@);
            lines.push(l);
            assert(views(lines@) =~= b.push(l@));
            assert(Seq::new((i + 1) as nat, |j: int| "- "@ + views(notice.top_paths@)[j])
                =~= Seq::new(i as nat, |j: int| "- "@ + views(notice.top_paths@)[j]).push(l@));
            i += 1;
        }
        if n > 12 {
            let mut l = owned("- \u{2026} ");
            push_decimal(&mut l, (n - 12) as u64);
            push_str(&mut l, " more");
            assert(l@ =~= "- \u{2026} "@ + decimal((notice.top_paths@.len() - 12) as nat) + " more"@);
            let ghost b = views(lines@);
            lines.push(l);
            assert(views(lines@) =~= b.push(l@));
        }
        assert(views(lines@) =~= mid + path_lines(views(notice.top_paths@)));
    }
    assert(views(lines@) =~= notice_lines(*notice));
    join_strings(&lines, "\n")
}

/// The payload of a commit notice.
pub fn commit_notice_to_payload(notice: &CommitNotice) -> (p: Payload)
    ensures
        p matches Payload::NotifyCommit(c) && c.title@ == "Jailgun commit succeeded"@
            && c.summary_emoji@ == "\u{2705}"@ && c.body_markdown@ == join_seq(
            notice_lines(*notice),
            "\n"@,
        ) && c.run_id == notice.run_id && c.tab_id == notice.tab_id && c.post_head
            == notice.post_head && c.pre_head == notice.pre_head && c.files_changed
            == notice.files_changed && c.additions == notice.additions && c.deletions
            == notice.deletions && c.top_paths@ == notice.top_paths@ && c.ci_state
            == notice.ci_state && c.remote_command_exit == notice.remote_command_exit,
{
    let mut paths: Vec<String> = Vec::new();
    let mut i: usize = 0;
    while i < notice.top_paths.len()
        invariant
            i <= notice.top_paths.len(),
            paths@ == notice.top_paths@.take(i as int),
        decreases notice.top_paths.len() - i,
    {
        paths.push(notice.top_paths[i].clone());
        assert(notice.top_paths@.take(i + 1) == notice.top_paths@.take(i as int).push(
            notice.top_paths@[i as int],
        ));
        i += 1;
    }
    assert(notice.top_paths@.take(notice.top_paths@.len() as int) == notice.top_paths@);
    Payload::NotifyCommit(
        NotifyCommitPayload {
            title: owned("Jailgun commit succeeded"),
            summary_emoji: owned("\u{2705}"),
            body_markdown: build_commit_notice_message(notice),
            run_id: notice.run_id.clone(),
            tab_id: notice.tab_id,
            post_head: notice.post_head.clone(),
            pre_head: crate::text::clone_opt(&notice.pre_head),
            files_changed: notice.files_changed,
            additions: notice.additions,
            deletions: notice.deletions,
            top_paths: paths,
            ci_state: crate::text::clone_opt(&notice.ci_state),
            remote_command_exit: notice.remote_command_exit,
        },
    )
}

// ---------------------------------------------------------------------
// Which events notify, and how
// ---------------------------------------------------------------------

/// `tab <n>`, or `tab ?` when the event has no tab.
pub open spec fn tab_label(t: Option<u16>) -> Seq<char> {
    match t {
        Some(t) => "tab "@ + decimal(t as nat),
        None => "tab ?"@,
    }
}

/// The first eight characters of a text.
pub open spec fn first8(s: Seq<char>) -> Seq<char> {
    s.take(if s.len() <= 8 { s.len() as int } else { 8int })
}

/// The text of a finished deploy: a failure line for an error, a success
/// line for a success with CI passed or skipped, and nothing otherwise.
pub open spec fn deploy_finished_spec(e: JailgunEvent, tab: Seq<char>) -> Option<Seq<char>> {
    match field(e, "outcome"@) {
        None => None,
        Some(outcome) => if e.severity == Severity::Error {
            let reason = match field(e, "failure_reason"@) {
                Some(v) => v,
                None => "unknown"@,
            };
            let exit = match field(e, "exit_code"@) {
                Some(v) => " \u{b7} exit "@ + v,
                None => Seq::empty(),
            };
            let preserved = match field(e, "preserved_ref"@) {
                Some(v) => " \u{b7} preserved "@ + v,
                None => Seq::empty(),
            };
            Some(
                "\u{274c} "@ + e.run_id@ + " \u{b7} "@ + tab + " \u{b7} deploy "@ + outcome
                    + " \u{b7} "@ + reason + exit + preserved,
            )
        } else {
            let success = if outcome == "succeeded"@ && field(e, "ci_state"@) == Some("passed"@) {
                Some(" \u{b7} CI passed, on main"@)
            } else if outcome == "succeeded-ci-skipped"@ {
                Some(" \u{b7} local CI/push complete"@)
            } else {
                None
            };
            match success {
                None => None,
                Some(line) => {
                    let post = match field(e, "post_head"@) {
                        Some(v) => first8(v),
                        None => "?"@,
                    };
                    let files = if field(e, "files_changed"@) is Some && field(e, "additions"@)
                        is Some && field(e, "deletions"@) is Some {
                        " \u{b7} "@ + field(e, "files_changed"@)->Some_0 + " files +"@ + field(
                            e,
                            "additions"@,
                        )->Some_0 + " -"@ + field(e, "deletions"@)->Some_0
                    } else {
                        Seq::empty()
                    };
                    let paths = match field(e, "top_paths"@) {
                        Some(p) => if p.len() > 0 {
                            "\nfiles: "@ + p
                        } else {
                            Seq::empty()
                        },
                        None => Seq::empty(),
                    };
                    Some(
                        "\u{2705} "@ + e.run_id@ + " \u{b7} "@ + tab + " \u{b7} "@ + post + line
                            + files + paths,
                    )
                },
            }
        },
    }
}

/// The notification text of an event: a started job, an acquired tar, a
/// finished deploy; nothing for other events.
pub open spec fn event_notice_spec(e: JailgunEvent) -> Option<Seq<char>> {
    let tab = tab_label(e.tab_id);
    match e.kind {
        EventKind::PromptSubmitted => Some(
            "\u{25b6} "@ + e.run_id@ + " \u{b7} "@ + tab + " \u{b7} job started"@,
        ),
        EventKind::DownloadReceipt => {
            let sha = match field(e, "sha256"@) {
                Some(v) => first8(v),
                None => "?"@,
            };
            Some(
                "\u{1f4e6} "@ + e.run_id@ + " \u{b7} "@ + tab + " \u{b7} tar acquired \u{b7} sha "@
                    + sha,
            )
        },
        EventKind::DeployFinished => deploy_finished_spec(e, tab),
        _ => None,
    }
}

fn first8_of(v: &String) -> (r: String)
    ensures
        r@ == first8(v@),
{
    take_chars(v.as_str(), 8)
}

/// The text of a finished deploy.
pub fn format_deploy_finished(event: &JailgunEvent, tab: &str) -> (r: Option<String>)
    requires
        event.wf(),
    ensures
        match r {
            Some(t) => deploy_finished_spec(*event, tab@) == Some(t@),
            None => deploy_finished_spec(*event, tab@) is None,
        },
{
    let outcome = match event.fields.get("outcome") {
        Some(o) => o,
        None => return None,
    };
    let ci_state = event.fields.get("ci_state");
    if matches!(event.severity, Severity::Error) {
        let reason: &str = match event.fields.get("failure_reason") {
            Some(v) => v.as_str(),
            None => "unknown",
        };
        let mut preserved = String::new();
        match event.fields.get("preserved_ref") {
            Some(v) => {
                push_str(&mut preserved, " \u{b7} preserved ");
                push_str(&mut preserved, v.as_str());
            },
            None => {},
        }
        let mut exit = String::new();
        match event.fields.get("exit_code") {
            Some(v) => {
                push_str(&mut exit, " \u{b7} exit ");
                push_str(&mut exit, v.as_str());
            },
            None => {},
        }
        let mut m = owned("\u{274c} ");
        push_str(&mut m, event.run_id.as_str());
        push_str(&mut m, " \u{b7} ");
        push_str(&mut m, tab);
        push_str(&mut m, " \u{b7} deploy ");
        push_str(&mut m, outcome.as_str());
        push_str(&mut m, " \u{b7} ");
        push_str(&mut m, reason);
        push_str(&mut m, exit.as_str());
        push_str(&mut m, preserved.as_str());
        proof {
            let ghost spec_reason = match field(*event, "failure_reason"@) {
                Some(v) => v,
                None => "unknown"@,
            };
            assert(reason@ == spec_reason);
            assert(m@ =~= "\u{274c} "@ + event.run_id@ + " \u{b7} "@ + tab@ + " \u{b7} deploy "@
                + outcome@ + " \u{b7} "@ + spec_reason + exit@ + preserved@);
        }
        return Some(m);
    }
    proof {
        reveal_strlit("succeeded");
        reveal_strlit("passed");
        reveal_strlit("succeeded-ci-skipped");
    }
    let passed = match ci_state {
        Some(c) => crate::text::str_eq(c.as_str(), "passed"),
        None => false,
    };
    let line: &str = if crate::text::str_eq(outcome.as_str(), "succeeded") && passed {
        " \u{b7} CI passed, on main"
    } else if crate::text::str_eq(outcome.as_str(), "succeeded-ci-skipped") {
        " \u{b7} local CI/push complete"
    } else {
        return None;
    };
    let post = match event.fields.get("post_head") {
        Some(v) => first8_of(v),
        None => owned("?"),
    };
    let mut files = String::new();
    match (event.fields.get("files_changed"), event.fields.get("additions"), event.fields.get("deletions")) {
        (Some(f), Some(a), Some(d)) => {
            push_str(&mut files, " \u{b7} ");
            push_str(&mut files, f.as_str());
            push_str(&mut files, " files +");
            push_str(&mut files, a.as_str());
            push_str(&mut files, " -");
            push_str(&mut files, d.as_str());
        },
        _ => {},
    }
    let mut paths = String::new();
    match event.fields.get("top_paths") {
        Some(p) => {
            if p.as_str().unicode_len() > 0 {
                push_str(&mut paths, "\nfiles: ");
                push_str(&mut paths, p.as_str());
            }
        },
        None => {},
    }
    let mut m = owned("\u{2705} ");
    push_str(&mut m, event.run_id.as_str());
    push_str(&mut m, " \u{b7} ");
    push_str(&mut m, tab);
    push_str(&mut m, " \u{b7} ");
    push_str(&mut m, post.as_str());
    push_str(&mut m, line);
    push_str(&mut m, files.as_str());
    push_str(&mut m, paths.as_str());
    proof {
        assert(m@ =~= "\u{2705} "@ + event.run_id@ + " \u{b7} "@ + tab@ + " \u{b7} "@ + post@
            + line@ + files@ + paths@);
    }
    Some(m)
}

/// The notification text of an event, if it notifies.
pub fn format_event_notice(event: &JailgunEvent) -> (r: Option<String>)
    requires
        event.wf(),
    ensures
        match r {
            Some(t) => event_notice_spec(*event) == Some(t@),
            None => event_notice_spec(*event) is None,
        },
{
    let mut tab = String::new();
    match event.tab_id {
        Some(t) => {
            push_str(&mut tab, "tab ");
            push_decimal(&mut tab, t as u64);
        },
        None => push_str(&mut tab, "tab ?"),
    }
    match event.kind {
        EventKind::PromptSubmitted => {
            let mut m = owned("\u{25b6} ");
            push_str(&mut m, event.run_id.as_str());
            push_str(&mut m, " \u{b7} ");
            push_str(&mut m, tab.as_str());
            push_str(&mut m, " \u{b7} job started");
            proof {
                assert(m@ =~= "\u{25b6} "@ + event.run_id@ + " \u{b7} "@ + tab@ + " \u{b7} job started"@);
            }
            Some(m)
        },
        EventKind::DownloadReceipt => {
            let sha = match event.fields.get("sha256") {
                Some(v) => first8_of(v),
                None => owned("?"),
            };
            let mut m = owned("\u{1f4e6} ");
            push_str(&mut m, event.run_id.as_str());
            push_str(&mut m, " \u{b7} ");
            push_str(&mut m, tab.as_str());
            push_str(&mut m, " \u{b7} tar acquired \u{b7} sha ");
            push_str(&mut m, sha.as_str());
            proof {
                assert(m@ =~= "\u{1f4e6} "@ + event.run_id@ + " \u{b7} "@ + tab@
                    + " \u{b7} tar acquired \u{b7} sha "@ + sha@);
            }
            Some(m)
        },
        EventKind::DeployFinished => format_deploy_finished(event, tab.as_str()),
        _ => None,
    }
}

/// The fields an event notification carries as metrics.
pub open spec fn with_metric(m: Map<Seq<char>, Seq<char>>, e: JailgunEvent, k: Seq<char>) -> Map<
    Seq<char>,
    Seq<char>,
> {
    match field(e, k) {
        Some(v) => m.insert(k, v),
        None => m,
    }
}

/// The metrics of an event: its outcome, CI state, exit code, change
/// counts, sha256, new head, phase and early-stop counts, those present.
pub open spec fn metrics_spec(e: JailgunEvent) -> Map<Seq<char>, Seq<char>> {
    let m0 = Map::<Seq<char>, Seq<char>>::empty();
    let m1 = with_metric(m0, e, "outcome"@);
    let m2 = with_metric(m1, e, "ci_state"@);
    let m3 = with_metric(m2, e, "exit_code"@);
    let m4 = with_metric(m3, e, "files_changed"@);
    let m5 = with_metric(m4, e, "additions"@);
    let m6 = with_metric(m5, e, "deletions"@);
    let m7 = with_metric(m6, e, "sha256"@);
    let m8 = with_metric(m7, e, "post_head"@);
    let m9 = with_metric(m8, e, "phase"@);
    let m10 = with_metric(m9, e, "early_stops_succeeded"@);
    with_metric(m10, e, "early_stops_attempted"@)
}

fn copy_metric(m: &mut FieldMap, e: &JailgunEvent, key: &str)
    requires
        old(m).wf(),
        e.wf(),
    ensures
        final(m).wf(),
        final(m)@ == with_metric(old(m)@, *e, key@),
{
    match e.fields.get(key) {
        Some(v) => m.insert(owned(key), v.clone()),
        None => {},
    }
}

/// The metrics of an event notification.
pub fn collect_metrics(event: &JailgunEvent) -> (m: FieldMap)
    requires
        event.wf(),
    ensures
        m.wf(),
        m@ == metrics_spec(*event),
{
    let mut m = FieldMap::new();
    copy_metric(&mut m, event, "outcome");
    copy_metric(&mut m, event, "ci_state");
    copy_metric(&mut m, event, "exit_code");
    copy_metric(&mut m, event, "files_changed");
    copy_metric(&mut m, event, "additions");
    copy_metric(&mut m, event, "deletions");
    copy_metric(&mut m, event, "sha256");
    copy_metric(&mut m, event, "post_head");
    copy_metric(&mut m, event, "phase");
    copy_metric(&mut m, event, "early_stops_succeeded");
    copy_metric(&mut m, event, "early_stops_attempted");
    m
}

/// The title, emoji and severity label of a notifying event.
pub open spec fn notice_header(e: JailgunEvent) -> (Seq<char>, Seq<char>, Seq<char>) {
    match e.kind {
        EventKind::PromptSubmitted => ("Job started"@, "\u{25b6}"@, "info"@),
        EventKind::DownloadReceipt => ("Tar acquired"@, "\u{1f4e6}"@, "info"@),
        _ => if e.severity == Severity::Error {
            ("Deploy failed"@, "\u{274c}"@, "error"@)
        } else {
            ("Deploy succeeded"@, "\u{2705}"@, "info"@)
        },
    }
}

/// The notification payload of an event, for the milestones that notify.
pub fn event_to_payload(event: &JailgunEvent) -> (r: Option<Payload>)
    requires
        event.wf(),
    ensures
        match event_notice_spec(*event) {
            None => r is None,
            Some(body) => r matches Some(Payload::NotifyEvent(p)) && p.title@ == notice_header(
                *event,
            ).0 && p.summary_emoji@ == notice_header(*event).1 && p.event_severity@
                == notice_header(*event).2 && p.body_markdown@ == body && p.run_id == event.run_id
                && p.tab_id == event.tab_id && p.event_kind@ == kind_name_spec(event.kind)
                && p.metrics@ == metrics_spec(*event) && p.metrics.wf(),
        },
{
    let body = match format_event_notice(event) {
        Some(b) => b,
        None => return None,
    };
    let (title, emoji, severity): (&str, &str, &str) = match event.kind {
        EventKind::PromptSubmitted => ("Job started", "\u{25b6}", "info"),
        EventKind::DownloadReceipt => ("Tar acquired", "\u{1f4e6}", "info"),
        _ => if matches!(event.severity, Severity::Error) {
            ("Deploy failed", "\u{274c}", "error")
        } else {
            ("Deploy succeeded", "\u{2705}", "info")
        },
    };
    Some(
        Payload::NotifyEvent(
            NotifyEventPayload {
                title: owned(title),
                summary_emoji: owned(emoji),
                body_markdown: body,
                run_id: event.run_id.clone(),
                tab_id: event.tab_id,
                event_kind: owned(kind_name(event.kind)),
                event_severity: owned(severity),
                metrics: collect_metrics(event),
            },
        ),
    )
}

// ---------------------------------------------------------------------
// The digest of a payload, and the envelope
// ---------------------------------------------------------------------

impl Integrity {
    /// The SHA-256 of a payload's serialized JSON, in lowercase hex.
    pub fn for_payload(payload_json: &[u8]) -> (i: Integrity)
        ensures
            i.algo@ == "sha256"@,
            i.digest_hex@ == crate::digest::hex_spec(crate::digest::sha256_spec(payload_json@)),
            i.digest_hex@.len() == 64,
            forall|k: int| 0 <= k < 64 ==> crate::digest::is_lower_hex(#[trigger] i.digest_hex@[k]),
    {
        Integrity { algo: owned("sha256"), digest_hex: crate::digest::sha256_hex(payload_json) }
    }
}

/// `uuid::Uuid::new_v4` as bytes.  Claimed: 16 bytes, with the version
/// nibble 4 and the RFC 4122 variant bits, as the crate sets them; the
/// rest is random and unstated.
#[verifier::external_body]
fn random_uuid_bytes() -> (b: Vec<u8>)
    ensures
        b@.len() == 16,
        b@[6] / 16 == 4,
        b@[8] / 64 == 2,
{
    uuid::Uuid::new_v4().into_bytes().to_vec()
}

/// `jpcm_` and the unpadded URL-safe base64 of the id bytes.
pub fn envelope_id_from_bytes(bytes: &[u8]) -> (s: String)
    ensures
        s@ == "jpcm_"@ + crate::digest::b64url_spec(bytes@),
{
    let mut s = owned("jpcm_");
    let enc = crate::digest::base64_url_no_pad(bytes);
    push_str(&mut s, enc.as_str());
    s
}

/// A fresh envelope id: `jpcm_` and 22 URL-safe characters from a random
/// UUID, which the schema's `^jpcm_[A-Za-z0-9_-]{16,96}$` accepts.
pub fn generate_envelope_id() -> (s: String)
    ensures
        exists|b: Seq<u8>| b.len() == 16 && #[trigger] crate::digest::b64url_spec(b) == s@.skip(5),
        s@.len() == 27,
        s@.take(5) == "jpcm_"@,
        forall|k: int| 5 <= k < 27 ==> crate::digest::is_b64url_char(#[trigger] s@[k]),
{
    let b = random_uuid_bytes();
    let s = envelope_id_from_bytes(b.as_slice());
    proof {
        reveal_strlit("jpcm_");
        crate::digest::lemma_b64url_shape(b@);
        let e = crate::digest::b64url_spec(b@);
        assert(s@.skip(5) =~= e);
        assert(s@.take(5) =~= "jpcm_"@);
        assert forall|k: int| 5 <= k < 27 implies crate::digest::is_b64url_char(#[trigger] s@[k]) by {
            assert(s@[k] == e[k - 5]);
        }
    }
    s
}

/// The envelope written to the outbox.
#[derive(Debug, Clone, PartialEq, Eq)]
pub struct JmcpEnvelope {
    pub schema_version: String,
    pub envelope_id: String,
    pub event_type: EventType,
    pub event_time: String,
    pub producer: Producer,
    pub authority: Authority,
    pub task: TaskRef,
    pub routing: Routing,
    pub payload: Payload,
    pub integrity: Integrity,
}

impl JmcpEnvelope {
    /// An envelope for a notification: a fresh id, the current time, the
    /// digest of the payload's serialized JSON `payload_json`, an
    /// observability notification at the local read tier.
    pub fn new(payload: Payload, payload_json: &[u8], task: TaskRef, routing: Routing) -> (e: JmcpEnvelope)
        ensures
            e.schema_version@ == SCHEMA_VERSION@,
            e.envelope_id@.len() == 27,
            e.envelope_id@.take(5) == "jpcm_"@,
            crate::clock::rfc3339_shaped(e.event_time@),
            e.authority.autonomy_tier@ == "R0_local_read"@,
            e.authority.granted_by@ == "jailgun"@,
            e.producer.version@ == "0.2.0"@,
            forall|k: int| 5 <= k < 27 ==> crate::digest::is_b64url_char(#[trigger] e.envelope_id@[k]),
            e.event_type.domain@ == "observability"@,
            e.event_type.action@ == "notification"@,
            e.event_type.risk_tier@ == "R0_local_read"@,
            e.producer.name@ == PRODUCER_NAME@,
            e.producer.kind@ == "native_service"@,
            e.authority.lease_id@ == "jailgun-v0-pre-lease"@,
            e.task == task,
            e.routing == routing,
            e.payload == payload,
            e.integrity.algo@ == "sha256"@,
            e.integrity.digest_hex@ == crate::digest::hex_spec(
                crate::digest::sha256_spec(payload_json@),
            ),
            e.integrity.digest_hex@.len() == 64,
            forall|k: int| 0 <= k < 64 ==> crate::digest::is_lower_hex(#[trigger] e.integrity.digest_hex@[k]),
    {
        let envelope_id = generate_envelope_id();
        let event_time = crate::clock::timestamp_now();
        let integrity = Integrity::for_payload(payload_json);
        JmcpEnvelope {
            schema_version: owned(SCHEMA_VERSION),
            envelope_id,
            event_type: EventType {
                domain: owned("observability"),
                action: owned("notification"),
                risk_tier: owned("R0_local_read"),
            },
            event_time,
            producer: Producer::jailgun(),
            authority: Authority::pre_lease(),
            task,
            routing,
            payload,
            integrity,
        }
    }
}

// ---------------------------------------------------------------------
// The outbox
// ---------------------------------------------------------------------

/// An outbox directory: envelopes are written under `tmp/`, then renamed
/// into the root.
#[derive(Debug, Clone, PartialEq, Eq)]
pub struct JmcpInbox {
    pub root: String,
}

impl JmcpInbox {
    /// An outbox at `root`.
    pub fn new(root: String) -> (i: JmcpInbox)
        ensures
            i.root == root,
    {
        JmcpInbox { root }
    }

    /// The outbox directory.
    pub fn root(&self) -> (r: &str)
        ensures
            r@ == self.root@,
    {
        self.root.as_str()
    }

    /// Where envelopes are written before they are renamed.
    pub fn tmp_dir(&self) -> (r: String)
        ensures
            r@ == crate::text::path_join(self.root@, "tmp"@),
    {
        crate::text::join_path(self.root.as_str(), "tmp")
    }

    /// The final and the temporary path of an envelope:
    /// `<root>/<id>.json` and `<root>/tmp/<id>.json.partial`.
    pub fn envelope_paths(&self, envelope_id: &str) -> (r: (String, String))
        ensures
            r.0@ == crate::text::path_join(self.root@, envelope_id@ + ".json"@),
            r.1@ == crate::text::path_join(
                crate::text::path_join(self.root@, "tmp"@),
                envelope_id@ + ".json.partial"@,
            ),
    {
        let mut name = owned(envelope_id);
        push_str(&mut name, ".json");
        let final_path = crate::text::join_path(self.root.as_str(), name.as_str());
        let mut partial = owned(envelope_id);
        push_str(&mut partial, ".json.partial");
        let tmp = self.tmp_dir();
        let tmp_path = crate::text::join_path(tmp.as_str(), partial.as_str());
        (final_path, tmp_path)
    }
}

/// An envelope carrying the notice of an event to the user.
pub open spec fn envelope_notifies(e: JmcpEnvelope, event: JailgunEvent) -> bool {
    &&& match e.payload {
        Payload::NotifyEvent(p) => p.body_markdown@ == event_notice_spec(event)->Some_0 && p.run_id == event.run_id
            && p.tab_id == event.tab_id,
        _ => false,
    }
    &&& e.task.task_id@ == task_id_spec(event.run_id@, event.tab_id)
    &&& e.task.run_id@ == event.run_id@
    &&& e.task.tab_id == event.tab_id
    &&& e.routing.stream@ == "JPCM.USER"@
    &&& e.routing.destinations@.len() == 1
    &&& e.routing.destinations@[0]@ == "user.telegram"@
}

/// The envelope a notable event is written to the outbox as: its notice,
/// addressed to the user, for the event's run and tab, with the digest of
/// `payload_json`, the serialized JSON of that notice's payload; nothing
/// for other events.
pub fn envelope_for_event(event: &JailgunEvent, payload_json: &[u8]) -> (r: Option<JmcpEnvelope>)
    requires
        event.wf(),
    ensures
        event_notice_spec(*event) is None ==> r is None,
        event_notice_spec(*event) is Some ==> (r matches Some(e) && envelope_notifies(e, *event)
            && e.integrity.digest_hex@ == crate::digest::hex_spec(
            crate::digest::sha256_spec(payload_json@),
        )),
{
    match event_to_payload(event) {
        None => None,
        Some(payload) => {
            let task = TaskRef::for_run(event.run_id.as_str(), event.tab_id);
            let routing = Routing::notify_user();
            let e = JmcpEnvelope::new(payload, payload_json, task, routing);
            Some(e)
        },
    }
}

} // verus!
