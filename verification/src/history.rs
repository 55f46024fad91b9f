//! The history of finished runs: an entry derived from a run's snapshot,
//! and the order entries are read back in.
use vstd::prelude::*;
use crate::event::{lemma_lex_irreflexive, lemma_lex_transitive, lemma_lex_trichotomy, lex_lt, str_compare};
use crate::deploy::{outcome_label, outcome_succeeded_spec, DeployOutcome};
use crate::server::{DeployQueueState, RunSnapshot, TabSnapshot};
use crate::text::{clone_opt, owned, str_eq};

verus! {

/// Statistics of the code a run changed.
#[derive(Debug, Clone, PartialEq, Eq)]
pub struct RunCodeStats {
    pub total_files_changed: u32,
    pub total_additions: u32,
    pub total_deletions: u32,
    pub total_test_count: u32,
}

/// What is kept of a finished run.
#[derive(Debug, Clone, PartialEq, Eq)]
pub struct RunHistoryEntry {
    pub run_id: String,
    pub started_at: String,
    pub finished_at: Option<String>,
    pub status: String,
    pub batch_tabs: u16,
    pub loop_count: u16,
    pub planned_tabs: u16,
    pub total_tabs: u16,
    pub tabs_passed: u16,
    pub tabs_failed: u16,
    pub tabs_pushed: u16,
    pub deploy_queue_final: String,
    pub denied_github_prompts: u32,
    pub allowed_info_prompts: u32,
    pub early_stops_succeeded: u16,
    pub early_stops_attempted: u16,
    pub code_stats: Option<RunCodeStats>,
}

/// A deploy status that counts as a passed (and pushed) tab.
pub open spec fn is_pass_status(s: Seq<char>) -> bool {
    s == "succeeded"@ || s == "done"@ || s == "dry-run-staged"@ || s == "succeeded-ci-skipped"@
}

/// A deploy status that counts as a failed tab.
pub open spec fn is_fail_status(s: Seq<char>) -> bool {
    s == "failed-preserved"@ || s == "failed-hard"@ || s == "upload-sha-mismatch"@ || s == "timed-out"@
        || s == "error"@
}

/// The number of tabs whose deploy status counts as passed.
pub open spec fn count_passed(tabs: Seq<TabSnapshot>) -> nat
    decreases tabs.len(),
{
    if tabs.len() == 0 {
        0
    } else {
        count_passed(tabs.drop_last()) + if is_pass_status(tabs.last().deploy_status@) { 1nat } else { 0nat }
    }
}

/// The number of tabs whose deploy status counts as failed.
pub open spec fn count_failed(tabs: Seq<TabSnapshot>) -> nat
    decreases tabs.len(),
{
    if tabs.len() == 0 {
        0
    } else {
        count_failed(tabs.drop_last()) + if is_fail_status(tabs.last().deploy_status@) { 1nat } else { 0nat }
    }
}

/// A count held in a `u16`, saturating.
pub open spec fn sat16(n: nat) -> u16 {
    if n <= u16::MAX {
        n as u16
    } else {
        u16::MAX
    }
}

/// How the deploy queue state is written in the history (a JSON string).
pub open spec fn deploy_queue_json_spec(s: DeployQueueState) -> Seq<char> {
    match s {
        DeployQueueState::Idle => "\"idle\""@,
        DeployQueueState::Waiting => "\"waiting\""@,
        DeployQueueState::Running => "\"running\""@,
        DeployQueueState::Done => "\"done\""@,
    }
}

/// How the deploy queue state is written in the history.
pub fn deploy_queue_json(s: DeployQueueState) -> (r: &'static str)
    ensures
        r@ == deploy_queue_json_spec(s),
{
    match s {
        DeployQueueState::Idle => "\"idle\"",
        DeployQueueState::Waiting => "\"waiting\"",
        DeployQueueState::Running => "\"running\"",
        DeployQueueState::Done => "\"done\"",
    }
}

fn pass_status(s: &str) -> (r: bool)
    ensures
        r == is_pass_status(s@),
{
    str_eq(s, "succeeded") || str_eq(s, "done") || str_eq(s, "dry-run-staged") || str_eq(s, "succeeded-ci-skipped")
}

fn fail_status(s: &str) -> (r: bool)
    ensures
        r == is_fail_status(s@),
{
    str_eq(s, "failed-preserved") || str_eq(s, "failed-hard") || str_eq(s, "upload-sha-mismatch") || str_eq(
        s,
        "timed-out",
    ) || str_eq(s, "error")
}

proof fn lemma_pass_not_fail(s: Seq<char>)
    requires
        is_pass_status(s),
    ensures
        !is_fail_status(s),
{
    reveal_strlit("succeeded");
    reveal_strlit("done");
    reveal_strlit("dry-run-staged");
    reveal_strlit("succeeded-ci-skipped");
    reveal_strlit("failed-preserved");
    reveal_strlit("failed-hard");
    reveal_strlit("upload-sha-mismatch");
    reveal_strlit("timed-out");
    reveal_strlit("error");
    assert("succeeded"@.len() == 9 && "done"@.len() == 4 && "dry-run-staged"@.len() == 14
        && "succeeded-ci-skipped"@.len() == 20);
    assert("failed-preserved"@.len() == 16 && "failed-hard"@.len() == 11 && "upload-sha-mismatch"@.len() == 19
        && "timed-out"@.len() == 9 && "error"@.len() == 5);
    if s == "succeeded"@ {
        assert(s[0] != "timed-out"@[0]);
    }
}

/// How a tab whose deploy ended with an outcome is counted: as passed (and
/// pushed) when the outcome is a successful deploy, as failed when it is a
/// failure (preserved or hard, a checksum mismatch, a timeout), and nowhere
/// for a success whose CI failed; a tab whose deploy reported `error` counts
/// as failed too.
pub proof fn lemma_tab_counts(tabs: Seq<TabSnapshot>, tab: TabSnapshot, outcome: DeployOutcome)
    ensures
        tab.deploy_status@ == outcome_label(outcome) && outcome != DeployOutcome::SucceededCiFailed ==> {
            &&& outcome_succeeded_spec(outcome) ==> count_passed(tabs.push(tab)) == count_passed(tabs) + 1
                && count_failed(tabs.push(tab)) == count_failed(tabs)
            &&& !outcome_succeeded_spec(outcome) ==> count_failed(tabs.push(tab)) == count_failed(tabs) + 1
                && count_passed(tabs.push(tab)) == count_passed(tabs)
        },
        tab.deploy_status@ == outcome_label(DeployOutcome::SucceededCiFailed) ==> count_failed(tabs.push(tab))
            == count_failed(tabs) && count_passed(tabs.push(tab)) == count_passed(tabs),
        tab.deploy_status@ == "error"@ ==> count_failed(tabs.push(tab)) == count_failed(tabs) + 1
            && count_passed(tabs.push(tab)) == count_passed(tabs),
{
    reveal_strlit("succeeded");
    reveal_strlit("done");
    reveal_strlit("dry-run-staged");
    reveal_strlit("succeeded-ci-skipped");
    reveal_strlit("succeeded-ci-failed");
    reveal_strlit("failed-preserved");
    reveal_strlit("failed-hard");
    reveal_strlit("upload-sha-mismatch");
    reveal_strlit("timed-out");
    reveal_strlit("error");
    let t = tabs.push(tab);
    assert(t.drop_last() == tabs);
    assert(t.last() == tab);
    let s = tab.deploy_status@;
    if is_pass_status(s) {
        lemma_pass_not_fail(s);
    }
    if s == "succeeded-ci-failed"@ {
        assert(s.len() == 19);
        assert(s[0] != "upload-sha-mismatch"@[0]);
    }
}

/// The history entry of a run: its tabs counted by deploy status
/// (passed and pushed, or failed), the rest copied.
pub fn summarize_run(snapshot: &RunSnapshot) -> (e: RunHistoryEntry)
    ensures
        e.run_id == snapshot.run_id,
        e.started_at == snapshot.started_at,
        e.finished_at == snapshot.finished_at,
        e.status == snapshot.status,
        e.batch_tabs == snapshot.batch_tabs,
        e.loop_count == snapshot.loop_count,
        e.planned_tabs == snapshot.planned_tabs,
        e.total_tabs == sat16(snapshot.tabs@.len()),
        e.tabs_passed == sat16(count_passed(snapshot.tabs@)),
        e.tabs_pushed == sat16(count_passed(snapshot.tabs@)),
        e.tabs_failed == sat16(count_failed(snapshot.tabs@)),
        e.deploy_queue_final@ == deploy_queue_json_spec(snapshot.deploy_queue),
        e.denied_github_prompts == snapshot.denied_github_prompts,
        e.allowed_info_prompts == snapshot.allowed_info_prompts,
        e.early_stops_succeeded == snapshot.early_stops_succeeded,
        e.early_stops_attempted == snapshot.early_stops_attempted,
        e.code_stats is None,
{
    let mut passed: u16 = 0;
    let mut failed: u16 = 0;
    let mut pushed: u16 = 0;
    let mut i: usize = 0;
    assert(snapshot.tabs@.take(0) =~= Seq::<TabSnapshot>::empty());
    while i < snapshot.tabs.len()
        invariant
            i <= snapshot.tabs.len(),
            passed == sat16(count_passed(snapshot.tabs@.take(i as int))),
            pushed == passed,
            failed == sat16(count_failed(snapshot.tabs@.take(i as int))),
        decreases snapshot.tabs.len() - i,
    {
        let ghost t = snapshot.tabs@.take(i + 1);
        assert(t.drop_last() =~= snapshot.tabs@.take(i as int));
        assert(t.last() == snapshot.tabs@[i as int]);
        let st = snapshot.tabs[i].deploy_status.as_str();
        if pass_status(st) {
            proof {
                lemma_pass_not_fail(st@);
            }
            passed = if passed == u16::MAX { u16::MAX } else { passed + 1 };
            pushed = if pushed == u16::MAX { u16::MAX } else { pushed + 1 };
        } else if fail_status(st) {
            failed = if failed == u16::MAX { u16::MAX } else { failed + 1 };
        }
        i += 1;
    }
    assert(snapshot.tabs@.take(snapshot.tabs@.len() as int) == snapshot.tabs@);
    let total = if snapshot.tabs.len() > u16::MAX as usize {
        u16::MAX
    } else {
        snapshot.tabs.len() as u16
    };
    RunHistoryEntry {
        run_id: snapshot.run_id.clone(),
        started_at: snapshot.started_at.clone(),
        finished_at: clone_opt(&snapshot.finished_at),
        status: snapshot.status.clone(),
        batch_tabs: snapshot.batch_tabs,
        loop_count: snapshot.loop_count,
        planned_tabs: snapshot.planned_tabs,
        total_tabs: total,
        tabs_passed: passed,
        tabs_failed: failed,
        tabs_pushed: pushed,
        deploy_queue_final: owned(deploy_queue_json(snapshot.deploy_queue)),
        denied_github_prompts: snapshot.denied_github_prompts,
        allowed_info_prompts: snapshot.allowed_info_prompts,
        early_stops_succeeded: snapshot.early_stops_succeeded,
        early_stops_attempted: snapshot.early_stops_attempted,
        code_stats: None,
    }
}

/// The name of a run's history file.
pub fn history_file_name(run_id: &str) -> (r: String)
    ensures
        r@ == "run-summary-"@ + run_id@ + ".json"@,
{
    let mut r = owned("run-summary-");
    crate::text::push_str(&mut r, run_id);
    crate::text::push_str(&mut r, ".json");
    r
}

/// History entries in ascending start time (code point order of the
/// timestamps).
pub open spec fn started_in_order(s: Seq<RunHistoryEntry>) -> bool {
    forall|i: int, j: int| 0 <= i < j < s.len() ==> !lex_lt(#[trigger] s[j].started_at@, #[trigger] s[i].started_at@)
}

/// Where an entry is placed in an ordered history: after the leading
/// entries that did not start later than it.
pub open spec fn history_slot(s: Seq<RunHistoryEntry>, c: RunHistoryEntry) -> nat
    decreases s.len(),
{
    if s.len() > 0 && !lex_lt(c.started_at@, s[0].started_at@) {
        1 + history_slot(s.drop_first(), c)
    } else {
        0
    }
}

/// Entries ordered one by one in their given order, each placed after the
/// entries already ordered that did not start later: the stable order by
/// start time.
pub open spec fn history_order(s: Seq<RunHistoryEntry>) -> Seq<RunHistoryEntry>
    decreases s.len(),
{
    if s.len() == 0 {
        Seq::empty()
    } else {
        let r = history_order(s.drop_last());
        r.insert(history_slot(r, s.last()) as int, s.last())
    }
}

proof fn lemma_history_slot(s: Seq<RunHistoryEntry>, c: RunHistoryEntry, p: int)
    requires
        0 <= p <= s.len(),
        forall|q: int| 0 <= q < p ==> !lex_lt(c.started_at@, #[trigger] s[q].started_at@),
        p == s.len() || lex_lt(c.started_at@, s[p].started_at@),
    ensures
        history_slot(s, c) == p,
    decreases p,
{
    if p > 0 {
        let t = s.drop_first();
        assert forall|q: int| 0 <= q < p - 1 implies !lex_lt(c.started_at@, #[trigger] t[q].started_at@) by {
            assert(t[q] == s[q + 1]);
        }
        assert(p - 1 == t.len() || t[p - 1] == s[p]);
        lemma_history_slot(t, c, p - 1);
    }
}

/// Orders history entries by start time; entries that started at the
/// same time keep their order.
pub fn sort_history(entries: Vec<RunHistoryEntry>) -> (r: Vec<RunHistoryEntry>)
    ensures
        r@.to_multiset() == entries@.to_multiset(),
        started_in_order(r@),
        r@ == history_order(entries@),
{
    broadcast use vstd::seq_lib::group_to_multiset_ensures;

    let mut sorted: Vec<RunHistoryEntry> = Vec::new();
    let mut rest = entries;
    let ghost orig = rest@;
    let ghost mut n: int = 0;
    assert(orig.take(0) =~= Seq::<RunHistoryEntry>::empty());
    while rest.len() > 0
        invariant
            sorted@.to_multiset().add(rest@.to_multiset()) == orig.to_multiset(),
            started_in_order(sorted@),
            0 <= n <= orig.len(),
            rest@ == orig.skip(n),
            sorted@ == history_order(orig.take(n)),
        decreases rest.len(),
    {
        let ghost r0 = rest@;
        let c = rest.remove(0);
        proof {
            vstd::seq_lib::to_multiset_remove(r0, 0);
            assert(rest@ == r0.remove(0));
            assert(c == orig[n]);
            assert(orig.take(n + 1).drop_last() == orig.take(n));
            assert(orig.take(n + 1).last() == c);
        }
        let ghost v0 = sorted@;
        let mut p: usize = 0;
        while p < sorted.len() && str_compare(sorted[p].started_at.as_str(), c.started_at.as_str()) <= 0
            invariant
                p <= sorted.len(),
                sorted@ == v0,
                forall|q: int| 0 <= q < p ==> !lex_lt(c.started_at@, #[trigger] v0[q].started_at@),
            decreases sorted.len() - p,
        {
            proof {
                lemma_lex_trichotomy(sorted@[p as int].started_at@, c.started_at@);
                if lex_lt(c.started_at@, sorted@[p as int].started_at@) {
                    if lex_lt(sorted@[p as int].started_at@, c.started_at@) {
                        lemma_lex_transitive(c.started_at@, sorted@[p as int].started_at@, c.started_at@);
                        lemma_lex_irreflexive(c.started_at@);
                    }
                }
            }
            p += 1;
        }
        proof {
            if p < v0.len() {
                assert(lex_lt(c.started_at@, v0[p as int].started_at@));
            }
            lemma_history_slot(v0, c, p as int);
        }
        sorted.insert(p, c);
        proof {
            broadcast use vstd::multiset::group_multiset_axioms;
            assert(rest@ =~= orig.skip(n + 1));
            n = n + 1;
            vstd::seq_lib::to_multiset_insert(v0, p as int, c);
            assert(r0.to_multiset().count(c) > 0) by {
                vstd::seq_lib::to_multiset_contains(r0, c);
                assert(r0[0] == c);
            }
            assert(sorted@.to_multiset().add(rest@.to_multiset()) =~= orig.to_multiset());
            let v1 = sorted@;
            assert(v1 == v0.insert(p as int, c));
            assert forall|a: int, b: int| 0 <= a < b < v1.len() implies !lex_lt(#[trigger] v1[b].started_at@, #[trigger] v1[a].started_at@) by {
                if b < p {
                    assert(v1[a] == v0[a] && v1[b] == v0[b]);
                } else if b == p {
                    assert(v1[a] == v0[a]);
                } else if a == p {
                    assert(v1[b] == v0[b - 1]);
                    lemma_lex_trichotomy(v0[p as int].started_at@, c.started_at@);
                    if b - 1 > p {
                        if lex_lt(v0[b - 1].started_at@, c.started_at@) {
                            lemma_lex_transitive(v0[b - 1].started_at@, c.started_at@, v0[p as int].started_at@);
                        }
                    }
                } else if a < p {
                    assert(v1[a] == v0[a] && v1[b] == v0[b - 1]);
                    if b - 1 == p {
                        lemma_lex_trichotomy(v0[p as int].started_at@, c.started_at@);
                        if lex_lt(v0[p as int].started_at@, v0[a].started_at@) {
                            lemma_lex_transitive(v0[p as int].started_at@, v0[a].started_at@, c.started_at@);
                        }
                    }
                } else {
                    assert(v1[a] == v0[a - 1] && v1[b] == v0[b - 1]);
                }
            }
        }
    }
    assert(orig.take(n) == orig);
    sorted
}

} // verus!
