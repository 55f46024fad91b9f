//! The bookkeeping of a run: its options, when the next tab is launched,
//! when the run is complete, and the summary it ends with.
use vstd::prelude::*;
use std::collections::BTreeSet;
use std::time::Duration;
use crate::bridge::{map_bridge_event, maps_to, BridgeEvent};
use crate::cleanup::CleanupRequest;
use crate::config::JailgunConfig;
use crate::deploy::{outcome_label, outcome_succeeded_spec, deploy_outcome_label, deploy_outcome_succeeded, DeployReceipt, DeployRequest};
use crate::event::{EventKind, FieldMap, JailgunEvent, Severity};
use crate::tarball::{tar_error_message, TarError, TarValidation};
use crate::text::{
    decimal, is_blank, join_path, lines_of, lines_seq, owned, path_join, push_decimal, push_signed,
    push_str, replace_all, replace_seq, signed_decimal, split_char, split_seq, str_eq, trim,
    trim_seq, views,
};

verus! {

broadcast use vstd::std_specs::btree::group_btree_axioms;

/// Everything a run is started with.
#[derive(Debug, Clone, PartialEq, Eq)]
pub struct RunOptions {
    pub run_id: String,
    pub config: JailgunConfig,
    pub prompt_text: String,
    pub tabs_override: Option<u16>,
    pub initial_tab_burst: Option<u16>,
    pub loop_count: u16,
    pub no_deploy: bool,
    pub dry_run: bool,
    pub profile_dir: String,
    pub profile_pool: Vec<String>,
    pub downloads_dir: String,
    pub artifacts_dir: String,
    pub bridge_cmd: Vec<String>,
    pub bridge_env: FieldMap,
    pub repo_url: String,
    pub fresh_source_clone: bool,
    pub deploy_remote_host: Option<String>,
    pub deploy_remote_dir: Option<String>,
    pub deploy_remote_command: Option<String>,
    pub deploy_expected_top_level: Option<String>,
    pub ci_tracker_enabled: bool,
    pub ci_repo: Option<String>,
    pub ci_branch: String,
    pub ci_max_attempts: u32,
    pub ci_poll_seconds: u16,
    pub status_max_minutes: u16,
    pub event_buffer: usize,
    pub deploy_concurrency: u16,
}

/// The tabs of one batch: the override, or the configured count.
pub open spec fn batch_tabs_spec(o: RunOptions) -> u16 {
    match o.tabs_override {
        Some(t) => t,
        None => o.config.browser.tabs,
    }
}

impl RunOptions {
    /// The tabs of one batch.
    pub fn batch_tabs(&self) -> (t: u16)
        ensures
            t == batch_tabs_spec(*self),
    {
        match self.tabs_override {
            Some(t) => t,
            None => self.config.browser.tabs,
        }
    }

    /// The tabs a run opens (one batch).
    pub fn tabs(&self) -> (t: u16)
        ensures
            t == batch_tabs_spec(*self),
    {
        self.batch_tabs()
    }

    /// All tabs over every loop: the batch times the loop count plus one,
    /// when that fits in a `u16` and is positive.
    pub fn planned_tabs(&self) -> (r: Option<u16>)
        ensures
            ({
                let total = batch_tabs_spec(*self) * (self.loop_count + 1);
                if self.loop_count + 1 <= u16::MAX && 0 < total <= u16::MAX {
                    r == Some(total as u16)
                } else {
                    r is None
                }
            }),
    {
        let batch = self.batch_tabs();
        if self.loop_count == u16::MAX {
            return None;
        }
        let count: u16 = self.loop_count + 1;
        assert(batch as u64 * count as u64 <= 65535 * 65535) by (nonlinear_arith)
            requires
                batch <= u16::MAX,
                count <= u16::MAX,
        ;
        let total: u64 = batch as u64 * count as u64;
        if total > u16::MAX as u64 || total == 0 {
            None
        } else {
            Some(total as u16)
        }
    }
}

/// How a run ended.
#[derive(Debug, Clone, PartialEq, Eq)]
pub struct RunSummary {
    pub run_id: String,
    pub total_tabs: u16,
    pub downloaded: u16,
    pub deployed: u16,
    pub failures: Vec<(u16, String)>,
    pub denied_github_prompts: u32,
    pub allowed_info_prompts: u32,
}

// ---------------------------------------------------------------------
// Launching tabs one at a time
// ---------------------------------------------------------------------

/// The launch of a tab after a pause.
#[derive(Debug, PartialEq, Eq)]
pub struct LaunchDelay {
    pub tab_id: u16,
    pub duration: Duration,
    pub reason: &'static str,
}

/// Launches tabs one at a time: the next tab is scheduled once the
/// current one accepted its prompt (or ended before that).
#[derive(Debug)]
pub struct LaunchScheduler {
    pub total_tabs: u16,
    pub next_tab: u16,
    pub waiting_for_acceptance: Option<u16>,
    pub scheduled_launch: Option<u16>,
}

impl LaunchScheduler {
    /// A scheduler that has launched nothing.
    pub fn new(total_tabs: u16) -> (s: LaunchScheduler)
        ensures
            s.total_tabs == total_tabs,
            s.next_tab == 1,
            s.waiting_for_acceptance.is_none(),
            s.scheduled_launch.is_none(),
    {
        LaunchScheduler {
            total_tabs,
            next_tab: 1,
            waiting_for_acceptance: None,
            scheduled_launch: None,
        }
    }

    /// Takes the next tab to launch, if any is left, and waits for it to
    /// accept its prompt.
    pub fn launch_next(&mut self) -> (r: Option<u16>)
        ensures
            old(self).next_tab > old(self).total_tabs ==> r is None && *final(self) == *old(
                self,
            ),
            old(self).next_tab <= old(self).total_tabs ==> {
                &&& r == Some(old(self).next_tab)
                &&& final(self).next_tab == (if old(self).next_tab == u16::MAX {
                    u16::MAX as int
                } else {
                    old(self).next_tab + 1
                })
                &&& final(self).waiting_for_acceptance == Some(old(self).next_tab)
                &&& final(self).total_tabs == old(self).total_tabs
                &&& final(self).scheduled_launch == old(self).scheduled_launch
            },
    {
        if self.next_tab > self.total_tabs {
            return None;
        }
        let tab_id = self.next_tab;
        self.next_tab = if self.next_tab == u16::MAX {
            u16::MAX
        } else {
            self.next_tab + 1
        };
        self.waiting_for_acceptance = Some(tab_id);
        Some(tab_id)
    }

    /// The tab that accepted its prompt lets the next one be scheduled.
    pub fn prompt_accepted(&mut self, tab_id: u16, delay: Duration) -> (r: Option<LaunchDelay>)
        ensures
            old(self).waiting_for_acceptance != Some(tab_id) ==> r is None && *final(self)
                == *old(self),
            old(self).waiting_for_acceptance == Some(tab_id) ==> schedules(
                *old(self),
                *final(self),
                delay,
                "prompt-accepted"@,
                r,
            ),
    {
        if self.waiting_for_acceptance != Some(tab_id) {
            return None;
        }
        self.waiting_for_acceptance = None;
        self.schedule_next(delay, "prompt-accepted")
    }

    /// A tab that ended before accepting its prompt lets the next one be
    /// scheduled too.
    pub fn tab_terminal(&mut self, tab_id: u16, delay: Duration) -> (r: Option<LaunchDelay>)
        ensures
            old(self).waiting_for_acceptance != Some(tab_id) ==> r is None && *final(self)
                == *old(self),
            old(self).waiting_for_acceptance == Some(tab_id) ==> schedules(
                *old(self),
                *final(self),
                delay,
                "tab-terminal-before-prompt-accepted"@,
                r,
            ),
    {
        if self.waiting_for_acceptance != Some(tab_id) {
            return None;
        }
        self.waiting_for_acceptance = None;
        self.schedule_next(delay, "tab-terminal-before-prompt-accepted")
    }

    /// Schedules the next tab, unless none is left or one is scheduled.
    pub fn schedule_next(&mut self, duration: Duration, reason: &'static str) -> (r: Option<
        LaunchDelay,
    >)
        ensures
            final(self).total_tabs == old(self).total_tabs,
            final(self).next_tab == old(self).next_tab,
            final(self).waiting_for_acceptance == old(self).waiting_for_acceptance,
            (old(self).next_tab > old(self).total_tabs || old(self).scheduled_launch is Some) ==> r
                is None && final(self).scheduled_launch == old(self).scheduled_launch,
            !(old(self).next_tab > old(self).total_tabs || old(self).scheduled_launch is Some) ==> {
                &&& final(self).scheduled_launch == Some(old(self).next_tab)
                &&& (r matches Some(d) && d.tab_id == old(self).next_tab && d.duration == duration
                    && d.reason == reason)
            },
    {
        if self.next_tab > self.total_tabs || self.scheduled_launch.is_some() {
            return None;
        }
        let tab_id = self.next_tab;
        self.scheduled_launch = Some(tab_id);
        Some(LaunchDelay { tab_id, duration, reason })
    }

    /// Whether a launch timer that fired for `tab_id` is the scheduled one
    /// (and forgets it).
    pub fn consume_scheduled_launch(&mut self, tab_id: u16) -> (r: bool)
        ensures
            r == (old(self).scheduled_launch == Some(tab_id)),
            r ==> *final(self) == (LaunchScheduler { scheduled_launch: None, ..*old(self) }),
            !r ==> *final(self) == *old(self),
    {
        if self.scheduled_launch == Some(tab_id) {
            self.scheduled_launch = None;
            true
        } else {
            false
        }
    }
}

/// The acceptance of the awaited tab stops the wait and schedules the
/// next tab, unless none is left or one is already scheduled.
pub open spec fn schedules(
    s0: LaunchScheduler,
    s1: LaunchScheduler,
    delay: Duration,
    reason: Seq<char>,
    r: Option<LaunchDelay>,
) -> bool {
    &&& s1.waiting_for_acceptance.is_none()
    &&& s1.total_tabs == s0.total_tabs
    &&& s1.next_tab == s0.next_tab
    &&& if s0.next_tab > s0.total_tabs || s0.scheduled_launch is Some {
        r is None && s1.scheduled_launch == s0.scheduled_launch
    } else {
        &&& s1.scheduled_launch == Some(s0.next_tab)
        &&& (r matches Some(d) && d.tab_id == s0.next_tab && d.duration == delay && d.reason@
            == reason)
    }
}

/// A launch delay names a tab that was not launched yet.
pub proof fn lemma_scheduled_tab_not_launched(s0: LaunchScheduler, s1: LaunchScheduler, delay: Duration, reason: Seq<char>, r: Option<LaunchDelay>)
    requires
        schedules(s0, s1, delay, reason, r),
        r is Some,
    ensures
        r->Some_0.tab_id >= s1.next_tab,
        r->Some_0.tab_id <= s1.total_tabs,
        s1.scheduled_launch == Some(r->Some_0.tab_id),
{
}

// ---------------------------------------------------------------------
// When a run is complete
// ---------------------------------------------------------------------

/// Which tabs downloaded, deployed or ended.
#[derive(Debug)]
pub struct RunTracker {
    pub total_tabs: u16,
    pub deploy_required: bool,
    pub downloaded_tabs: BTreeSet<u16>,
    pub deployed_tabs: BTreeSet<u16>,
    pub terminal_tabs: BTreeSet<u16>,
}

/// A tab is complete once it ended, or once it downloaded and (when a
/// deploy is required) deployed.
pub open spec fn tab_complete_spec(t: RunTracker, tab_id: u16) -> bool {
    t.terminal_tabs@.contains(tab_id) || (t.downloaded_tabs@.contains(tab_id) && (
    !t.deploy_required || t.deployed_tabs@.contains(tab_id)))
}

/// A run is complete once every tab is.
pub open spec fn run_complete_spec(t: RunTracker) -> bool {
    forall|tab: u16| 1 <= tab <= t.total_tabs ==> #[trigger] tab_complete_spec(t, tab)
}

impl RunTracker {
    /// A tracker of `total_tabs` tabs, none of which did anything yet.
    pub fn new(total_tabs: u16, deploy_required: bool) -> (t: RunTracker)
        ensures
            t.total_tabs == total_tabs,
            t.deploy_required == deploy_required,
            t.downloaded_tabs@ == Set::<u16>::empty(),
            t.deployed_tabs@ == Set::<u16>::empty(),
            t.terminal_tabs@ == Set::<u16>::empty(),
    {
        RunTracker {
            total_tabs,
            deploy_required,
            downloaded_tabs: BTreeSet::new(),
            deployed_tabs: BTreeSet::new(),
            terminal_tabs: BTreeSet::new(),
        }
    }

    /// Records a downloaded archive.
    pub fn mark_downloaded(&mut self, tab_id: u16)
        ensures
            final(self).downloaded_tabs@ == old(self).downloaded_tabs@.insert(tab_id),
            final(self).deployed_tabs@ == old(self).deployed_tabs@,
            final(self).terminal_tabs@ == old(self).terminal_tabs@,
            final(self).total_tabs == old(self).total_tabs,
            final(self).deploy_required == old(self).deploy_required,
    {
        self.downloaded_tabs.insert(tab_id);
    }

    /// Records a finished deploy.
    pub fn mark_deployed(&mut self, tab_id: u16)
        ensures
            final(self).deployed_tabs@ == old(self).deployed_tabs@.insert(tab_id),
            final(self).downloaded_tabs@ == old(self).downloaded_tabs@,
            final(self).terminal_tabs@ == old(self).terminal_tabs@,
            final(self).total_tabs == old(self).total_tabs,
            final(self).deploy_required == old(self).deploy_required,
    {
        self.deployed_tabs.insert(tab_id);
    }

    /// Records a tab that ended without completing.
    pub fn mark_terminal(&mut self, tab_id: u16)
        ensures
            final(self).terminal_tabs@ == old(self).terminal_tabs@.insert(tab_id),
            final(self).downloaded_tabs@ == old(self).downloaded_tabs@,
            final(self).deployed_tabs@ == old(self).deployed_tabs@,
            final(self).total_tabs == old(self).total_tabs,
            final(self).deploy_required == old(self).deploy_required,
    {
        self.terminal_tabs.insert(tab_id);
    }

    /// The number of downloaded tabs.
    pub fn downloaded_count(&self) -> (n: u16)
        ensures
            n == (if self.downloaded_tabs@.len() <= u16::MAX {
                self.downloaded_tabs@.len()
            } else {
                u16::MAX as nat
            }),
    {
        let n = self.downloaded_tabs.len();
        if n > u16::MAX as usize {
            u16::MAX
        } else {
            n as u16
        }
    }

    /// The number of deployed tabs.
    pub fn deployed_count(&self) -> (n: u16)
        ensures
            n == (if self.deployed_tabs@.len() <= u16::MAX {
                self.deployed_tabs@.len()
            } else {
                u16::MAX as nat
            }),
    {
        let n = self.deployed_tabs.len();
        if n > u16::MAX as usize {
            u16::MAX
        } else {
            n as u16
        }
    }

    /// Whether a tab is done.
    pub fn tab_is_complete(&self, tab_id: u16) -> (r: bool)
        ensures
            r == tab_complete_spec(*self, tab_id),
    {
        if self.terminal_tabs.contains(&tab_id) {
            return true;
        }
        if !self.downloaded_tabs.contains(&tab_id) {
            return false;
        }
        !self.deploy_required || self.deployed_tabs.contains(&tab_id)
    }

    /// Whether every tab is done.
    pub fn is_complete(&self) -> (r: bool)
        ensures
            r == run_complete_spec(*self),
    {
        let mut tab: u16 = 1;
        while tab <= self.total_tabs
            invariant
                1 <= tab,
                tab as int <= self.total_tabs as int + 1,
                forall|t: u16| 1 <= t < tab ==> #[trigger] tab_complete_spec(*self, t),
            decreases self.total_tabs as int + 1 - tab as int,
        {
            if !self.tab_is_complete(tab) {
                return false;
            }
            if tab == u16::MAX {
                return true;
            }
            tab = tab + 1;
        }
        true
    }
}

/// Whether the run is complete.
pub fn run_is_complete(tracker: &RunTracker) -> (r: bool)
    ensures
        r == run_complete_spec(*tracker),
{
    tracker.is_complete()
}

/// Marking a tab never makes a complete run incomplete.
pub proof fn lemma_marks_keep_completion(t0: RunTracker, t1: RunTracker)
    requires
        run_complete_spec(t0),
        t1.total_tabs == t0.total_tabs,
        t1.deploy_required == t0.deploy_required,
        t0.downloaded_tabs@.subset_of(t1.downloaded_tabs@),
        t0.deployed_tabs@.subset_of(t1.deployed_tabs@),
        t0.terminal_tabs@.subset_of(t1.terminal_tabs@),
    ensures
        run_complete_spec(t1),
{
    assert forall|tab: u16| 1 <= tab <= t1.total_tabs implies #[trigger] tab_complete_spec(t1, tab) by {
        assert(tab_complete_spec(t0, tab));
    }
}

/// A run whose every tab ended is complete, whatever else happened.
pub proof fn lemma_all_terminal_complete(t: RunTracker)
    requires
        forall|tab: u16| 1 <= tab <= t.total_tabs ==> t.terminal_tabs@.contains(tab),
    ensures
        run_complete_spec(t),
{
}

// ---------------------------------------------------------------------
// Prompts and timing
// ---------------------------------------------------------------------

/// The prompt of a tab: the tab placeholders filled in, after a header
/// naming the tab.
pub open spec fn prompt_for_tab_spec(prompt: Seq<char>, tab_id: u16, total_tabs: u16) -> Seq<char> {
    let t = decimal(tab_id as nat);
    let n = decimal(total_tabs as nat);
    let filled = replace_seq(
        replace_seq(replace_seq(prompt, "{{TAB_INDEX}}"@, t), "{{TAB_NUMBER}}"@, t),
        "{{TAB_COUNT}}"@,
        n,
    );
    "Batch tab: "@ + t + " of "@ + n + ".\nUse this tab number ("@ + t
        + ") in your final response and artifact notes.\n\n"@ + filled
}

/// No `{` in a text.
pub open spec fn brace_free(s: Seq<char>) -> bool {
    forall|i: int| 0 <= i < s.len() ==> #[trigger] s[i] != '{'
}

proof fn lemma_replace_absent(s: Seq<char>, pat: Seq<char>, rep: Seq<char>)
    requires
        pat.len() > 0,
        forall|i: int| 0 <= i && i + pat.len() <= s.len() ==> #[trigger] s.subrange(i, i + pat.len()) != pat,
    ensures
        replace_seq(s, pat, rep) == s,
    decreases s.len(),
{
    if s.len() >= pat.len() {
        assert(s.subrange(0, 0int + pat.len()) != pat);
        assert(s.take(pat.len() as int) == s.subrange(0, 0int + pat.len()));
        let t = s.drop_first();
        assert forall|i: int| 0 <= i && i + pat.len() <= t.len() implies #[trigger] t.subrange(i, i + pat.len()) != pat by {
            assert(t.subrange(i, i + pat.len()) == s.subrange(i + 1, i + 1 + pat.len()));
        }
        lemma_replace_absent(t, pat, rep);
        assert(seq![s[0]] + t == s);
    }
}

proof fn lemma_replace_brace_free(s: Seq<char>, pat: Seq<char>, rep: Seq<char>)
    requires
        pat.len() > 0,
        pat[0] == '{',
        brace_free(s),
    ensures
        replace_seq(s, pat, rep) == s,
{
    assert forall|i: int| 0 <= i && i + pat.len() <= s.len() implies #[trigger] s.subrange(i, i + pat.len()) != pat by {
        assert(s.subrange(i, i + pat.len())[0] == s[i]);
    }
    lemma_replace_absent(s, pat, rep);
}

proof fn lemma_replace_after_plain(a: Seq<char>, s: Seq<char>, pat: Seq<char>, rep: Seq<char>)
    requires
        pat.len() > 0,
        pat[0] == '{',
        brace_free(a),
    ensures
        replace_seq(a + s, pat, rep) == a + replace_seq(s, pat, rep),
    decreases a.len(),
{
    let x = a + s;
    if a.len() == 0 {
        assert(x == s);
    } else if x.len() < pat.len() {
        assert(s.len() < pat.len());
    } else {
        assert(x.take(pat.len() as int)[0] == a[0]);
        assert(x.drop_first() == a.drop_first() + s);
        lemma_replace_after_plain(a.drop_first(), s, pat, rep);
        assert(a == seq![a[0]] + a.drop_first());
    }
}

proof fn lemma_replace_at_start(pat: Seq<char>, s: Seq<char>, rep: Seq<char>)
    requires
        pat.len() > 0,
    ensures
        replace_seq(pat + s, pat, rep) == rep + replace_seq(s, pat, rep),
{
    assert((pat + s).take(pat.len() as int) == pat);
    assert((pat + s).skip(pat.len() as int) == s);
}

/// A placeholder `q` never occurs in another placeholder `p` followed by
/// plain text, when the two differ at their seventh character.
proof fn lemma_other_placeholder_absent(p: Seq<char>, q: Seq<char>, b: Seq<char>)
    requires
        p.len() >= 7,
        q.len() >= 7,
        p[0] == '{' && p[1] == '{' && q[0] == '{' && q[1] == '{',
        forall|i: int| 2 <= i < p.len() ==> #[trigger] p[i] != '{',
        p[6] != q[6],
        brace_free(b),
    ensures
        forall|i: int| 0 <= i && i + q.len() <= (p + b).len() ==> #[trigger] (p + b).subrange(i, i + q.len()) != q,
{
    let x = p + b;
    assert forall|i: int| 0 <= i && i + q.len() <= x.len() implies #[trigger] x.subrange(i, i + q.len()) != q by {
        let w = x.subrange(i, i + q.len());
        if i == 0 {
            assert(w[6] == p[6]);
        } else if i == 1 {
            assert(w[1] == x[2]);
            assert(x[2] == p[2]);
        } else {
            assert(w[0] == x[i]);
            if i < p.len() {
                assert(x[i] == p[i]);
            } else {
                assert(x[i] == b[i - p.len()]);
            }
        }
    }
}

proof fn lemma_decimal_brace_free(n: nat)
    ensures
        brace_free(decimal(n)),
    decreases n,
{
    if n >= 10 {
        lemma_decimal_brace_free(n / 10);
        let d = decimal(n);
        assert forall|i: int| 0 <= i < d.len() implies #[trigger] d[i] != '{' by {
            if i < d.len() - 1 {
                assert(d[i] == decimal(n / 10)[i]);
            }
        }
    }
}

proof fn lemma_brace_free_concat(a: Seq<char>, b: Seq<char>)
    requires
        brace_free(a),
        brace_free(b),
    ensures
        brace_free(a + b),
{
    assert forall|i: int| 0 <= i < (a + b).len() implies #[trigger] (a + b)[i] != '{' by {
        if i < a.len() {
            assert((a + b)[i] == a[i]);
        } else {
            assert((a + b)[i] == b[i - a.len()]);
        }
    }
}

/// The placeholders of a tab's prompt are filled in place: in a prompt
/// whose other text holds no `{`, `{{TAB_NUMBER}}` and `{{TAB_INDEX}}`
/// both become the tab's number and `{{TAB_COUNT}}` the number of tabs,
/// after the header that an empty prompt gets alone.
pub proof fn lemma_tab_placeholders_filled(a: Seq<char>, b: Seq<char>, tab_id: u16, total_tabs: u16)
    requires
        brace_free(a),
        brace_free(b),
    ensures
        prompt_for_tab_spec(a + "{{TAB_NUMBER}}"@ + b, tab_id, total_tabs) == prompt_for_tab_spec(
            Seq::empty(),
            tab_id,
            total_tabs,
        ) + a + decimal(tab_id as nat) + b,
        prompt_for_tab_spec(a + "{{TAB_INDEX}}"@ + b, tab_id, total_tabs) == prompt_for_tab_spec(
            Seq::empty(),
            tab_id,
            total_tabs,
        ) + a + decimal(tab_id as nat) + b,
        prompt_for_tab_spec(a + "{{TAB_COUNT}}"@ + b, tab_id, total_tabs) == prompt_for_tab_spec(
            Seq::empty(),
            tab_id,
            total_tabs,
        ) + a + decimal(total_tabs as nat) + b,
{
    reveal_strlit("{{TAB_NUMBER}}");
    reveal_strlit("{{TAB_INDEX}}");
    reveal_strlit("{{TAB_COUNT}}");
    let num = "{{TAB_NUMBER}}"@;
    let idx = "{{TAB_INDEX}}"@;
    let cnt = "{{TAB_COUNT}}"@;
    let t = decimal(tab_id as nat);
    let n = decimal(total_tabs as nat);
    lemma_decimal_brace_free(tab_id as nat);
    lemma_decimal_brace_free(total_tabs as nat);
    assert(forall|i: int| 2 <= i < num.len() ==> #[trigger] num[i] != '{');
    assert(forall|i: int| 2 <= i < idx.len() ==> #[trigger] idx[i] != '{');
    assert(forall|i: int| 2 <= i < cnt.len() ==> #[trigger] cnt[i] != '{');
    let e = Seq::<char>::empty();
    assert(brace_free(e));
    lemma_replace_brace_free(e, idx, t);
    lemma_replace_brace_free(e, num, t);
    lemma_replace_brace_free(e, cnt, n);
    lemma_brace_free_concat(a, t);
    lemma_brace_free_concat(a + t, b);
    lemma_brace_free_concat(a, n);
    lemma_brace_free_concat(a + n, b);
    let filled_t = a + t + b;
    let filled_n = a + n + b;
    lemma_replace_brace_free(filled_t, num, t);
    lemma_replace_brace_free(filled_t, cnt, n);
    lemma_replace_brace_free(filled_n, idx, t);
    lemma_replace_brace_free(filled_n, num, t);
    lemma_replace_brace_free(filled_n, cnt, n);
    lemma_replace_brace_free(b, num, t);
    lemma_replace_brace_free(b, idx, t);
    lemma_replace_brace_free(b, cnt, n);
    // {{TAB_NUMBER}}
    assert(a + num + b == a + (num + b));
    lemma_replace_after_plain(a, num + b, idx, t);
    lemma_other_placeholder_absent(num, idx, b);
    lemma_replace_absent(num + b, idx, t);
    lemma_replace_after_plain(a, num + b, num, t);
    lemma_replace_at_start(num, b, t);
    assert(a + (t + b) == filled_t);
    // {{TAB_INDEX}}
    assert(a + idx + b == a + (idx + b));
    lemma_replace_after_plain(a, idx + b, idx, t);
    lemma_replace_at_start(idx, b, t);
    // {{TAB_COUNT}}
    assert(a + cnt + b == a + (cnt + b));
    lemma_replace_after_plain(a, cnt + b, idx, t);
    lemma_other_placeholder_absent(cnt, idx, b);
    lemma_replace_absent(cnt + b, idx, t);
    lemma_replace_after_plain(a, cnt + b, num, t);
    lemma_other_placeholder_absent(cnt, num, b);
    lemma_replace_absent(cnt + b, num, t);
    lemma_replace_after_plain(a, cnt + b, cnt, n);
    lemma_replace_at_start(cnt, b, n);
    assert(a + (n + b) == filled_n);
}

/// The prompt sent to one tab of a batch.
pub fn prompt_for_tab(prompt: &str, tab_id: u16, total_tabs: u16) -> (r: String)
    ensures
        r@ == prompt_for_tab_spec(prompt@, tab_id, total_tabs),
{
    let t = crate::text::decimal_string(tab_id as u64);
    let n = crate::text::decimal_string(total_tabs as u64);
    let a = replace_all(prompt, "{{TAB_INDEX}}", t.as_str());
    let b = replace_all(a.as_str(), "{{TAB_NUMBER}}", t.as_str());
    let filled = replace_all(b.as_str(), "{{TAB_COUNT}}", n.as_str());
    let mut r = owned("Batch tab: ");
    push_str(&mut r, t.as_str());
    push_str(&mut r, " of ");
    push_str(&mut r, n.as_str());
    push_str(&mut r, ".\nUse this tab number (");
    push_str(&mut r, t.as_str());
    push_str(&mut r, ") in your final response and artifact notes.\n\n");
    push_str(&mut r, filled.as_str());
    r
}

/// How long a run may take, in seconds: the tar wait (at least a minute),
/// the stagger between tab launches, and a minute of slack.
pub open spec fn run_deadline_spec(o: RunOptions, total_tabs: u16) -> int {
    let wait = if o.config.browser.tar_wait_minutes < 1 {
        1int
    } else {
        o.config.browser.tar_wait_minutes as int
    };
    let gaps = if total_tabs >= 1 {
        total_tabs - 1
    } else {
        0
    };
    wait * 60 + (o.config.browser.submit_delay_seconds + o.config.browser.submit_jitter_seconds)
        * gaps + 60
}

/// The run deadline, in seconds.
pub fn run_deadline(opts: &RunOptions, total_tabs: u16) -> (secs: u64)
    ensures
        secs == run_deadline_spec(*opts, total_tabs),
{
    let minutes: u64 = if opts.config.browser.tar_wait_minutes < 1 {
        1
    } else {
        opts.config.browser.tar_wait_minutes as u64
    };
    let wait: u64 = minutes * 60;
    let per: u64 = opts.config.browser.submit_delay_seconds as u64
        + opts.config.browser.submit_jitter_seconds as u64;
    let gaps: u64 = if total_tabs >= 1 {
        (total_tabs - 1) as u64
    } else {
        0
    };
    assert(per * gaps <= 131070 * 65535) by (nonlinear_arith)
        requires
            per <= 131070,
            gaps <= 65535,
    ;
    wait + per * gaps + 60
}

/// The pause before the next tab, in milliseconds: the configured delay,
/// plus a jitter of `nanos` modulo one more than the configured jitter.
pub open spec fn submit_delay_spec(o: RunOptions, nanos: u128) -> int {
    let base = o.config.browser.submit_delay_seconds as int * 1000;
    let jitter_ms = o.config.browser.submit_jitter_seconds as int * 1000;
    if jitter_ms == 0 {
        base
    } else {
        base + nanos % ((jitter_ms + 1) as u128)
    }
}

/// The pause before the next tab, given the clock's nanoseconds.
pub fn submit_delay(opts: &RunOptions, clock_nanos: u128) -> (ms: u64)
    ensures
        ms == submit_delay_spec(*opts, clock_nanos),
{
    let base: u64 = opts.config.browser.submit_delay_seconds as u64 * 1000;
    let jitter_ms: u64 = opts.config.browser.submit_jitter_seconds as u64 * 1000;
    if jitter_ms == 0 {
        base
    } else {
        let j: u128 = clock_nanos % (jitter_ms as u128 + 1);
        base + j as u64
    }
}

// ---------------------------------------------------------------------
// Archives and deploys of a run
// ---------------------------------------------------------------------

/// A downloaded archive must have a single top level when its components
/// are stripped or a top level is expected.
pub fn download_requires_single_top_level(opts: &RunOptions) -> (r: bool)
    ensures
        r == (opts.config.deploy.remote_strip_components > 0 || opts.deploy_expected_top_level
            is Some),
{
    opts.config.deploy.remote_strip_components > 0 || opts.deploy_expected_top_level.is_some()
}

/// `archive top-level must be <expected>/, found <top or (multiple)>`.
pub open spec fn top_level_message(expected: Seq<char>, found: Option<String>) -> Seq<char> {
    "archive top-level must be "@ + expected + "/, found "@ + match found {
        Some(t) => t@,
        None => "(multiple)"@,
    }
}

/// The refusal of an archive whose single top level is not the expected
/// one.
pub fn top_level_mismatch(expected: &Option<String>, validation: &TarValidation) -> (r: Option<String>)
    ensures
        match *expected {
            None => r is None,
            Some(x) => if validation.top_level.is_some() && validation.top_level.unwrap()@ == x@ {
                r is None
            } else {
                r matches Some(m) && m@ == top_level_message(x@, validation.top_level)
            },
        },
{
    match expected {
        None => None,
        Some(x) => {
            let same = match &validation.top_level {
                Some(t) => str_eq(t.as_str(), x.as_str()),
                None => false,
            };
            if same {
                None
            } else {
                let mut m = owned("archive top-level must be ");
                push_str(&mut m, x.as_str());
                push_str(&mut m, "/, found ");
                match &validation.top_level {
                    Some(t) => push_str(&mut m, t.as_str()),
                    None => push_str(&mut m, "(multiple)"),
                }
                Some(m)
            }
        },
    }
}

/// Whether a downloaded archive may count for its tab: it validated, has
/// entries, and has the expected top level.
pub fn validate_download_archive(
    opts: &RunOptions,
    tab_id: u16,
    local_path: &str,
    validation: &Result<TarValidation, TarError>,
) -> (r: Result<(), String>)
    ensures
        match *validation {
            Err(e) => r matches Err(m) && m@ == tar_error_message(e),
            Ok(v) => if v.entry_count == 0 {
                r matches Err(m) && m@ == "tab "@ + decimal(tab_id as nat)
                    + " downloaded archive has zero tar entries: "@ + local_path@
            } else {
                match opts.deploy_expected_top_level {
                    None => r is Ok,
                    Some(x) => if v.top_level.is_some() && v.top_level.unwrap()@ == x@ {
                        r is Ok
                    } else {
                        r matches Err(m) && m@ == top_level_message(x@, v.top_level)
                            + "; refusing remote upload"@
                    },
                }
            },
        },
{
    match validation {
        Err(e) => Err(e.message()),
        Ok(v) => {
            if v.entry_count == 0 {
                let mut m = owned("tab ");
                push_decimal(&mut m, tab_id as u64);
                push_str(&mut m, " downloaded archive has zero tar entries: ");
                push_str(&mut m, local_path);
                return Err(m);
            }
            match top_level_mismatch(&opts.deploy_expected_top_level, v) {
                Some(m) => {
                    let mut m = m;
                    push_str(&mut m, "; refusing remote upload");
                    Err(m)
                },
                None => Ok(()),
            }
        },
    }
}

/// The normal components of a path: no empty or `.` pieces.
pub open spec fn normal_parts(parts: Seq<Seq<char>>) -> Seq<Seq<char>>
    decreases parts.len(),
{
    if parts.len() == 0 {
        Seq::empty()
    } else {
        let rest = normal_parts(parts.drop_last());
        let x = parts.last();
        if x.len() == 0 || x == "."@ {
            rest
        } else {
            rest.push(x)
        }
    }
}

/// `Path::file_name`: the last component, unless it is `..` or there is
/// none.
pub open spec fn file_name_spec(p: Seq<char>) -> Option<Seq<char>> {
    let ps = normal_parts(split_seq(p, '/'));
    if ps.len() == 0 || ps.last() == ".."@ {
        None
    } else {
        Some(ps.last())
    }
}

/// The file name of a path.
pub fn file_name(p: &str) -> (r: Option<String>)
    ensures
        match r {
            Some(n) => file_name_spec(p@) == Some(n@),
            None => file_name_spec(p@) is None,
        },
{
    let parts = split_char(p, '/');
    let ghost ps = views(parts@);
    let mut last: Option<String> = None;
    let mut k: usize = 0;
    while k < parts.len()
        invariant
            k <= parts.len(),
            ps == views(parts@),
            match last {
                Some(x) => normal_parts(ps.take(k as int)).len() > 0 && normal_parts(
                    ps.take(k as int),
                ).last() == x@,
                None => normal_parts(ps.take(k as int)).len() == 0,
            },
        decreases parts.len() - k,
    {
        assert(ps.take(k + 1).drop_last() == ps.take(k as int));
        proof {
            reveal_strlit(".");
        }
        let x = parts[k].as_str();
        if !(x.unicode_len() == 0 || str_eq(x, ".")) {
            last = Some(parts[k].clone());
        }
        k += 1;
    }
    assert(ps.take(ps.len() as int) == ps);
    proof {
        reveal_strlit("..");
    }
    match last {
        Some(x) => if str_eq(x.as_str(), "..") {
            None
        } else {
            Some(x)
        },
        None => None,
    }
}

/// The cleanup and the deploy of one downloaded archive.
#[derive(Debug, Clone, PartialEq, Eq)]
pub struct DeployPlan {
    pub cleanup: CleanupRequest,
    pub deploy: DeployRequest,
}

/// `<artifacts>/receipts/<run>`, where a run's receipts go.
pub open spec fn receipt_dir_spec(o: RunOptions) -> Seq<char> {
    path_join(path_join(o.artifacts_dir@, "receipts"@), o.run_id@)
}

/// The name the archive is uploaded under: the downloaded name, or the
/// file name of its path, or a default.
pub open spec fn archive_name_spec(local_path: Seq<char>, local_name: Seq<char>) -> Seq<char> {
    if trim_seq(local_name).len() == 0 {
        match file_name_spec(local_path) {
            Some(n) => n,
            None => "chatgpt-output.tar.gz"@,
        }
    } else {
        local_name
    }
}

/// Whether a deploy of an archive needs a single top level.
pub fn deploy_requires_single_top_level(opts: &RunOptions) -> (r: bool)
    ensures
        r == (opts.config.deploy.remote_strip_components > 0),
{
    opts.config.deploy.remote_strip_components > 0
}

/// Plans the deploy of a downloaded archive: the archive must have
/// validated with the expected top level, and the remote must be
/// configured.
pub fn plan_deploy_download(
    opts: &RunOptions,
    tab_id: u16,
    local_path: &str,
    local_name: &str,
    validation: &Result<TarValidation, TarError>,
) -> (r: Result<DeployPlan, String>)
    ensures
        match *validation {
            Err(e) => r matches Err(m) && m@ == tar_error_message(e),
            Ok(v) => {
                let mismatch = match opts.deploy_expected_top_level {
                    None => false,
                    Some(x) => !(v.top_level.is_some() && v.top_level.unwrap()@ == x@),
                };
                if mismatch {
                    r matches Err(m) && m@ == top_level_message(
                        opts.deploy_expected_top_level.unwrap()@,
                        v.top_level,
                    ) + "; refusing remote upload"@
                } else if opts.deploy_remote_host is None {
                    r matches Err(m) && m@ == "deploy remote host is not configured"@
                } else if opts.deploy_remote_dir is None {
                    r matches Err(m) && m@ == "deploy remote dir is not configured"@
                } else {
                    r matches Ok(plan) && plan_is(plan, *opts, tab_id, local_path@, local_name@)
                }
            },
        },
{
    let v = match validation {
        Err(e) => return Err(e.message()),
        Ok(v) => v,
    };
    match top_level_mismatch(&opts.deploy_expected_top_level, v) {
        Some(m) => {
            let mut m = m;
            push_str(&mut m, "; refusing remote upload");
            return Err(m);
        },
        None => {},
    }
    let remote_host = match &opts.deploy_remote_host {
        Some(h) => h.clone(),
        None => return Err(owned("deploy remote host is not configured")),
    };
    let remote_dir = match &opts.deploy_remote_dir {
        Some(d) => d.clone(),
        None => return Err(owned("deploy remote dir is not configured")),
    };
    let remote_command = match &opts.deploy_remote_command {
        Some(c) => c.clone(),
        None => owned("bash ci-fast-push.sh"),
    };
    let receipts = join_path(opts.artifacts_dir.as_str(), "receipts");
    let receipt_dir = join_path(receipts.as_str(), opts.run_id.as_str());
    let archive_name = if is_blank(local_name) {
        match file_name(local_path) {
            Some(n) => n,
            None => owned("chatgpt-output.tar.gz"),
        }
    } else {
        owned(local_name)
    };
    let cleanup = CleanupRequest {
        run_id: opts.run_id.clone(),
        tab_id: Some(tab_id),
        remote_host: remote_host.clone(),
        remote_dir: remote_dir.clone(),
        policy: opts.config.deploy.remote_cleanup_policy,
        receipt_dir: receipt_dir.clone(),
    };
    let deploy = DeployRequest {
        run_id: opts.run_id.clone(),
        tab_id,
        remote_host,
        remote_dir,
        remote_command,
        remote_archive_basename: archive_name,
        local_archive_path: owned(local_path),
        strip_components: opts.config.deploy.remote_strip_components,
        cleanup_policy: opts.config.deploy.remote_cleanup_policy,
        receipt_dir,
        status_poll_seconds: opts.config.deploy.remote_status_poll_seconds,
        status_max_minutes: opts.status_max_minutes,
        ci_tracker_enabled: opts.ci_tracker_enabled,
        ci_branch: opts.ci_branch.clone(),
        ci_max_attempts: opts.ci_max_attempts,
        ci_poll_seconds: opts.ci_poll_seconds,
        stash_on_failure: true,
        dry_run: opts.dry_run || opts.config.deploy.dry_run,
    };
    Ok(DeployPlan { cleanup, deploy })
}

/// The cleanup and deploy requests of a planned deploy.
pub open spec fn plan_is(
    plan: DeployPlan,
    o: RunOptions,
    tab_id: u16,
    local_path: Seq<char>,
    local_name: Seq<char>,
) -> bool {
    let c = plan.cleanup;
    let d = plan.deploy;
    &&& c.run_id == o.run_id
    &&& c.tab_id == Some(tab_id)
    &&& Some(c.remote_host) == o.deploy_remote_host
    &&& Some(c.remote_dir) == o.deploy_remote_dir
    &&& c.policy == o.config.deploy.remote_cleanup_policy
    &&& c.receipt_dir@ == receipt_dir_spec(o)
    &&& d.run_id == o.run_id
    &&& d.tab_id == tab_id
    &&& Some(d.remote_host) == o.deploy_remote_host
    &&& Some(d.remote_dir) == o.deploy_remote_dir
    &&& d.remote_command@ == match o.deploy_remote_command {
        Some(cmd) => cmd@,
        None => "bash ci-fast-push.sh"@,
    }
    &&& d.remote_archive_basename@ == archive_name_spec(local_path, local_name)
    &&& d.local_archive_path@ == local_path
    &&& d.strip_components == o.config.deploy.remote_strip_components
    &&& d.cleanup_policy == o.config.deploy.remote_cleanup_policy
    &&& d.receipt_dir@ == receipt_dir_spec(o)
    &&& d.status_poll_seconds == o.config.deploy.remote_status_poll_seconds
    &&& d.status_max_minutes == o.status_max_minutes
    &&& d.ci_tracker_enabled == o.ci_tracker_enabled
    &&& d.ci_branch == o.ci_branch
    &&& d.ci_max_attempts == o.ci_max_attempts
    &&& d.ci_poll_seconds == o.ci_poll_seconds
    &&& d.stash_on_failure
    &&& d.dry_run == (o.dry_run || o.config.deploy.dry_run)
}

/// The first line of a log whose trim is not empty, trimmed.
pub open spec fn first_content_line(lines: Seq<Seq<char>>) -> Option<Seq<char>>
    decreases lines.len(),
{
    if lines.len() == 0 {
        None
    } else if trim_seq(lines[0]).len() > 0 {
        Some(trim_seq(lines[0]))
    } else {
        first_content_line(lines.drop_first())
    }
}

/// The outcome, failure reason and exit code part of a deploy failure.
pub open spec fn failure_prefix(r: DeployReceipt) -> Seq<char> {
    let base = "deploy finished with outcome "@ + outcome_label(r.outcome);
    let a = match r.final_status.failure_reason {
        Some(f) => base + "; failure_reason="@ + f@,
        None => base,
    };
    match r.final_status.exit_code {
        Some(c) => a + "; exit_code="@ + signed_decimal(c as int),
        None => a,
    }
}

/// Why a finished deploy does not count: its outcome, then the failure
/// reason, exit code and first log line it reported.
pub open spec fn deploy_failure_spec(r: DeployReceipt) -> Seq<char> {
    let b = failure_prefix(r);
    match first_content_line(lines_seq(r.log_tail@)) {
        Some(l) => b + "; log_tail="@ + l,
        None => b,
    }
}

/// Whether a deploy's receipt counts as a deployed tab, and why not.
pub fn deploy_download_result(receipt: &DeployReceipt) -> (r: Result<(), String>)
    ensures
        outcome_succeeded_spec(receipt.outcome) ==> r is Ok,
        !outcome_succeeded_spec(receipt.outcome) ==> (r matches Err(m) && m@ == deploy_failure_spec(
            *receipt,
        )),
{
    if deploy_outcome_succeeded(receipt.outcome) {
        return Ok(());
    }
    let mut reason = owned("deploy finished with outcome ");
    push_str(&mut reason, deploy_outcome_label(receipt.outcome));
    match &receipt.final_status.failure_reason {
        Some(f) => {
            push_str(&mut reason, "; failure_reason=");
            push_str(&mut reason, f.as_str());
        },
        None => {},
    }
    match receipt.final_status.exit_code {
        Some(c) => {
            push_str(&mut reason, "; exit_code=");
            push_signed(&mut reason, c as i64);
        },
        None => {},
    }
    let lines = lines_of(receipt.log_tail.as_str());
    let ghost ls = views(lines@);
    let mut k: usize = 0;
    assert(ls.skip(0) == ls);
    while k < lines.len()
        invariant
            k <= lines.len(),
            ls == views(lines@),
            ls == lines_seq(receipt.log_tail@),
            !outcome_succeeded_spec(receipt.outcome),
            reason@ == failure_prefix(*receipt),
            first_content_line(ls.skip(k as int)) == first_content_line(ls),
        decreases lines.len() - k,
    {
        assert(ls.skip(k as int)[0] == ls[k as int]);
        assert(ls.skip(k as int).drop_first() == ls.skip(k + 1));
        if !is_blank(lines[k].as_str()) {
            let t = trim(lines[k].as_str());
            push_str(&mut reason, "; log_tail=");
            push_str(&mut reason, t.as_str());
            return Err(reason);
        }
        k += 1;
    }
    assert(ls.skip(k as int).len() == 0);
    Err(reason)
}

// ---------------------------------------------------------------------
// Handling what the bridge reports
// ---------------------------------------------------------------------

/// What a bridge event asks of the run loop.
#[derive(Debug, Clone, Copy, Default, PartialEq, Eq)]
pub struct BridgeEffects {
    pub prompt_submitted: Option<u16>,
    pub terminal_tab: Option<u16>,
}

/// A deploy to start for a downloaded archive.
#[derive(Debug, Clone, PartialEq, Eq)]
pub struct DeployStart {
    pub tab_id: u16,
    pub local_path: String,
    pub local_name: String,
}

/// The result of handling one bridge envelope: the effects, the events to
/// publish in order, and the deploy to start, if any.
#[derive(Debug)]
pub struct BridgeOutcome {
    pub effects: BridgeEffects,
    pub published: Vec<JailgunEvent>,
    pub deploy: Option<DeployStart>,
}

/// The plain view of a run's failures.
pub open spec fn failure_views(s: Seq<(u16, String)>) -> Seq<(u16, Seq<char>)> {
    s.map_values(|p: (u16, String)| (p.0, p.1@))
}

/// An error of the run (and tab, when given).
pub fn run_error_event(run_id: &str, tab_id: Option<u16>, message: &str) -> (e: JailgunEvent)
    ensures
        crate::bridge::recorded_as(e, run_id@, tab_id, EventKind::Error, message@, Severity::Error, Map::empty()),
{
    let e = JailgunEvent::new(run_id, EventKind::Error, message).with_severity(Severity::Error);
    match tab_id {
        Some(t) => e.with_tab(t),
        None => e,
    }
}

/// The fields of a queued deploy.
pub open spec fn queued_fields(local_path: Seq<char>, sha256: Seq<char>) -> Map<Seq<char>, Seq<char>> {
    Map::empty().insert("phase"@, "deploy-queue"@).insert("status"@, "queued"@).insert(
        "local_path"@,
        local_path,
    ).insert("sha256"@, sha256)
}

/// Announces that a tab's archive waits for a deploy slot.
pub fn deploy_queued_event(run_id: &str, tab_id: u16, local_path: &str, sha256: &str) -> (e:
    JailgunEvent)
    ensures
        crate::bridge::recorded_as(
            e,
            run_id@,
            Some(tab_id),
            EventKind::DeployQueued,
            "deploy queued"@,
            Severity::Info,
            queued_fields(local_path@, sha256@),
        ),
{
    JailgunEvent::new(run_id, EventKind::DeployQueued, "deploy queued").with_tab(tab_id).with_field(
        "phase",
        "deploy-queue",
    ).with_field("status", "queued").with_field("local_path", local_path).with_field(
        "sha256",
        sha256,
    )
}

/// Announces that a tab's deploy got its slot.
pub fn deploy_started_event(run_id: &str, tab_id: u16) -> (e: JailgunEvent)
    ensures
        crate::bridge::recorded_as(
            e,
            run_id@,
            Some(tab_id),
            EventKind::DeployQueued,
            "deploy started"@,
            Severity::Info,
            Map::empty().insert("phase"@, "deploy-queue"@).insert("status"@, "started"@),
        ),
{
    JailgunEvent::new(run_id, EventKind::DeployQueued, "deploy started").with_tab(tab_id).with_field(
        "phase",
        "deploy-queue",
    ).with_field("status", "started")
}

/// The bridge events that are recorded on the event bus.
pub open spec fn is_recorded(ev: BridgeEvent) -> bool {
    ev is TabOpened || ev is ArchiveUploaded || ev is PromptSubmitted || ev is TarDiscovered
        || ev is DownloadStarted || ev is DownloadComplete || ev is PromptPolicyApplied || ev is Error
}

/// A count that saturates at `u16::MAX`.
pub open spec fn count16(n: nat) -> u16 {
    if n <= u16::MAX {
        n as u16
    } else {
        u16::MAX
    }
}

/// Whether a policy decision denies, or allows an informational prompt.
pub open spec fn is_deny(d: Seq<char>) -> bool {
    d == "deny"@ || d == "denied"@
}

/// A prompt decision that allows an informational prompt.
pub open spec fn is_allow_info(d: Seq<char>) -> bool {
    d == "allow-info"@ || d == "allowed-info"@ || d == "allow"@
}

/// A denial is never an informational allowance.
pub proof fn lemma_deny_not_allow(d: Seq<char>)
    requires
        is_deny(d),
    ensures
        !is_allow_info(d),
{
    reveal_strlit("deny");
    reveal_strlit("denied");
    reveal_strlit("allow-info");
    reveal_strlit("allowed-info");
    reveal_strlit("allow");
    assert(d[0] == 'd');
    if is_allow_info(d) {
        assert(d[0] == 'a');
    }
}

/// Only the listed parts of the summary and the tracker changed.
pub open spec fn tracker_same(t0: RunTracker, t1: RunTracker) -> bool {
    &&& t1.total_tabs == t0.total_tabs
    &&& t1.deploy_required == t0.deploy_required
    &&& t1.downloaded_tabs@ == t0.downloaded_tabs@
    &&& t1.deployed_tabs@ == t0.deployed_tabs@
    &&& t1.terminal_tabs@ == t0.terminal_tabs@
}

/// The tracker with one more ended tab.
pub open spec fn tracker_ended(t0: RunTracker, t1: RunTracker, tab: u16) -> bool {
    &&& t1.total_tabs == t0.total_tabs
    &&& t1.deploy_required == t0.deploy_required
    &&& t1.downloaded_tabs@ == t0.downloaded_tabs@
    &&& t1.deployed_tabs@ == t0.deployed_tabs@
    &&& t1.terminal_tabs@ == t0.terminal_tabs@.insert(tab)
}

/// How the run takes a decoded bridge event (after its mapped event, if
/// any, which comes first in `out.published`).
pub open spec fn event_handled(
    o: RunOptions,
    tab: Option<u16>,
    ev: BridgeEvent,
    check: Option<Result<(), String>>,
    s0: RunSummary,
    t0: RunTracker,
    s1: RunSummary,
    t1: RunTracker,
    fx: BridgeEffects,
    extra: Seq<JailgunEvent>,
    deploy: Option<DeployStart>,
) -> bool {
    match ev {
        BridgeEvent::PromptSubmitted(_) => {
            &&& fx == (BridgeEffects { prompt_submitted: tab, terminal_tab: None })
            &&& s1 == s0 && tracker_same(t0, t1) && extra.len() == 0 && deploy is None
        },
        BridgeEvent::DownloadComplete(p) => match tab {
            None => fx == BridgeEffects::default_spec() && s1 == s0 && tracker_same(t0, t1)
                && extra.len() == 0 && deploy is None,
            Some(t) => match check {
                Some(Err(reason)) => {
                    &&& failure_views(s1.failures@) == failure_views(s0.failures@).push((t, reason@))
                    &&& s1 == (RunSummary { failures: s1.failures, ..s0 })
                    &&& tracker_ended(t0, t1, t)
                    &&& fx == (BridgeEffects { prompt_submitted: None, terminal_tab: Some(t) })
                    &&& extra.len() == 1
                    &&& crate::bridge::recorded_as(extra[0], o.run_id@, Some(t), EventKind::Error, reason@, Severity::Error, Map::empty())
                    &&& deploy is None
                },
                _ => {
                    &&& fx == BridgeEffects::default_spec()
                    &&& t1.total_tabs == t0.total_tabs
                    &&& t1.deploy_required == t0.deploy_required
                    &&& t1.terminal_tabs@ == t0.terminal_tabs@
                    &&& t1.downloaded_tabs@ == t0.downloaded_tabs@.insert(t)
                    &&& s1.downloaded == count16(t1.downloaded_tabs@.len())
                    &&& s1.failures == s0.failures
                    &&& s1.run_id == s0.run_id && s1.total_tabs == s0.total_tabs
                    &&& s1.denied_github_prompts == s0.denied_github_prompts
                    &&& s1.allowed_info_prompts == s0.allowed_info_prompts
                    &&& if o.no_deploy || !o.config.deploy.enabled {
                        &&& t1.deployed_tabs@ == t0.deployed_tabs@.insert(t)
                        &&& s1.deployed == count16(t1.deployed_tabs@.len())
                        &&& extra.len() == 0 && deploy is None
                    } else {
                        &&& t1.deployed_tabs@ == t0.deployed_tabs@
                        &&& s1.deployed == s0.deployed
                        &&& extra.len() == 1
                        &&& crate::bridge::recorded_as(extra[0], o.run_id@, Some(t), EventKind::DeployQueued, "deploy queued"@, Severity::Info, queued_fields(p.local_path@, p.sha256@))
                        &&& (deploy matches Some(d) && d.tab_id == t && d.local_path == p.local_path
                            && d.local_name == p.local_name)
                    }
                },
            },
        },
        BridgeEvent::PromptPolicyApplied(p) => {
            &&& fx == BridgeEffects::default_spec() && tracker_same(t0, t1) && extra.len() == 0 && deploy is None
            &&& s1 == (RunSummary {
                denied_github_prompts: if is_deny(p.decision@) {
                    if s0.denied_github_prompts == u32::MAX { u32::MAX } else { (s0.denied_github_prompts + 1) as u32 }
                } else {
                    s0.denied_github_prompts
                },
                allowed_info_prompts: if is_allow_info(p.decision@) {
                    if s0.allowed_info_prompts == u32::MAX { u32::MAX } else { (s0.allowed_info_prompts + 1) as u32 }
                } else {
                    s0.allowed_info_prompts
                },
                ..s0
            })
        },
        BridgeEvent::Error(p) => {
            let t = match tab { Some(t) => t, None => 0 };
            &&& failure_views(s1.failures@) == failure_views(s0.failures@).push((t, p.message@))
            &&& s1 == (RunSummary { failures: s1.failures, ..s0 })
            &&& extra.len() == 0 && deploy is None
            &&& if tab is Some && !p.recoverable {
                tracker_ended(t0, t1, t) && fx == (BridgeEffects { prompt_submitted: None, terminal_tab: Some(t) })
            } else {
                tracker_same(t0, t1) && fx == BridgeEffects::default_spec()
            }
        },
        BridgeEvent::BridgeShuttingDown(_) => {
            &&& fx == BridgeEffects::default_spec() && tracker_same(t0, t1) && extra.len() == 0 && deploy is None
            &&& if run_complete_spec(t0) {
                s1 == s0
            } else {
                &&& failure_views(s1.failures@) == failure_views(s0.failures@).push((0u16, "bridge shut down before run completed"@))
                &&& s1 == (RunSummary { failures: s1.failures, ..s0 })
            }
        },
        _ => fx == BridgeEffects::default_spec() && s1 == s0 && tracker_same(t0, t1) && extra.len() == 0 && deploy is None,
    }
}

impl BridgeEffects {
    /// No effect.
    pub open spec fn default_spec() -> BridgeEffects {
        BridgeEffects { prompt_submitted: None, terminal_tab: None }
    }
}

/// How the run takes one envelope from the bridge: an envelope that could
/// not be decoded is an error of its tab (which ends), a decoded one is
/// recorded and handled by `event_handled`.
pub open spec fn envelope_handled(
    o: RunOptions,
    tab_id: Option<u16>,
    decoded: Result<BridgeEvent, String>,
    archive_check: Option<Result<(), String>>,
    s0: RunSummary,
    t0: RunTracker,
    s1: RunSummary,
    t1: RunTracker,
    fx: BridgeEffects,
    published: Seq<JailgunEvent>,
    deploy: Option<DeployStart>,
) -> bool {
    match decoded {
        Err(error) => {
            let t = match tab_id { Some(t) => t, None => 0 };
            &&& failure_views(s1.failures@) == failure_views(s0.failures@).push((t, error@))
            &&& s1 == (RunSummary { failures: s1.failures, ..s0 })
            &&& published.len() == 1
            &&& crate::bridge::recorded_as(published[0], o.run_id@, tab_id, EventKind::Error, error@, Severity::Error, Map::empty())
            &&& deploy is None
            &&& if tab_id is Some {
                tracker_ended(t0, t1, t) && fx == (BridgeEffects { prompt_submitted: None, terminal_tab: Some(t) })
            } else {
                tracker_same(t0, t1) && fx == BridgeEffects::default_spec()
            }
        },
        Ok(ev) => {
            let k: int = if is_recorded(ev) { 1 } else { 0 };
            &&& published.len() >= k
            &&& (is_recorded(ev) ==> maps_to(o.run_id@, tab_id, ev, Some(published[0])))
            &&& event_handled(o, tab_id, ev, archive_check, s0, t0, s1, t1, fx, published.skip(k), deploy)
        },
    }
}

fn push_failure(summary: &mut RunSummary, tab: u16, message: String)
    ensures
        failure_views(final(summary).failures@) == failure_views(old(summary).failures@).push((tab, message@)),
        *final(summary) == (RunSummary { failures: final(summary).failures, ..*old(summary) }),
{
    let ghost f0 = summary.failures@;
    summary.failures.push((tab, message));
    assert(failure_views(summary.failures@) =~= failure_views(f0).push((tab, message@)));
}

/// Takes one envelope from the bridge: records its event, updates the
/// summary and the tracker, and says what the run loop does next.  A
/// downloaded archive comes with the verdict on it (`archive_check`).
pub fn handle_bridge_envelope(
    opts: &RunOptions,
    tab_id: Option<u16>,
    decoded: Result<BridgeEvent, String>,
    archive_check: Option<Result<(), String>>,
    summary: &mut RunSummary,
    tracker: &mut RunTracker,
) -> (r: BridgeOutcome)
    requires
        (decoded matches Ok(BridgeEvent::DownloadComplete(_)) && tab_id is Some) ==> archive_check is Some,
    ensures
        envelope_handled(*opts, tab_id, decoded, archive_check, *old(summary), *old(tracker), *final(summary), *final(tracker), r.effects, r.published@, r.deploy),
{
    proof {
        reveal_strlit("deny");
        reveal_strlit("denied");
        reveal_strlit("allow-info");
        reveal_strlit("allowed-info");
        reveal_strlit("allow");
    }
    let mut published: Vec<JailgunEvent> = Vec::new();
    let ghost d0 = decoded;
    let ev = match decoded {
        Err(error) => {
            let t = match tab_id { Some(t) => t, None => 0 };
            published.push(run_error_event(opts.run_id.as_str(), tab_id, error.as_str()));
            push_failure(summary, t, error);
            let effects = match tab_id {
                Some(t) => {
                    tracker.mark_terminal(t);
                    BridgeEffects { prompt_submitted: None, terminal_tab: Some(t) }
                },
                None => BridgeEffects { prompt_submitted: None, terminal_tab: None },
            };
            return BridgeOutcome { effects, published, deploy: None };
        },
        Ok(ev) => ev,
    };
    assert(d0 == Ok::<BridgeEvent, String>(ev));
    match map_bridge_event(opts.run_id.as_str(), tab_id, &ev) {
        Some(m) => published.push(m),
        None => {},
    }
    let ghost k: int = if is_recorded(ev) { 1 } else { 0 };
    assert(published@.len() == k);
    let mut effects = BridgeEffects { prompt_submitted: None, terminal_tab: None };
    let mut deploy: Option<DeployStart> = None;
    match &ev {
        BridgeEvent::PromptSubmitted(_) => {
            effects.prompt_submitted = tab_id;
        },
        BridgeEvent::DownloadComplete(p) => {
            match tab_id {
                Some(t) => {
                    let verdict = match &archive_check {
                        Some(Err(reason)) => Some(reason.clone()),
                        _ => None,
                    };
                    match verdict {
                        Some(reason) => {
                            published.push(run_error_event(opts.run_id.as_str(), Some(t), reason.as_str()));
                            push_failure(summary, t, reason);
                            tracker.mark_terminal(t);
                            effects.terminal_tab = Some(t);
                        },
                        None => {
                            tracker.mark_downloaded(t);
                            summary.downloaded = tracker.downloaded_count();
                            if opts.no_deploy || !opts.config.deploy.enabled {
                                tracker.mark_deployed(t);
                                summary.deployed = tracker.deployed_count();
                            } else {
                                published.push(deploy_queued_event(opts.run_id.as_str(), t, p.local_path.as_str(), p.sha256.as_str()));
                                deploy = Some(DeployStart { tab_id: t, local_path: p.local_path.clone(), local_name: p.local_name.clone() });
                            }
                        },
                    }
                },
                None => {},
            }
        },
        BridgeEvent::PromptPolicyApplied(p) => {
            let d = p.decision.as_str();
            proof {
                reveal_strlit("deny");
                reveal_strlit("denied");
                reveal_strlit("allow-info");
                reveal_strlit("allowed-info");
                reveal_strlit("allow");
            }
            if str_eq(d, "deny") || str_eq(d, "denied") {
                proof {
                    lemma_deny_not_allow(p.decision@);
                }
                if summary.denied_github_prompts < u32::MAX {
                    summary.denied_github_prompts = summary.denied_github_prompts + 1;
                }
            } else if str_eq(d, "allow-info") || str_eq(d, "allowed-info") || str_eq(d, "allow") {
                if summary.allowed_info_prompts < u32::MAX {
                    summary.allowed_info_prompts = summary.allowed_info_prompts + 1;
                }
            }
        },
        BridgeEvent::Error(p) => {
            let t = match tab_id { Some(t) => t, None => 0 };
            push_failure(summary, t, p.message.clone());
            match tab_id {
                Some(t) => {
                    if !p.recoverable {
                        tracker.mark_terminal(t);
                        effects.terminal_tab = Some(t);
                    }
                },
                None => {},
            }
        },
        BridgeEvent::BridgeShuttingDown(_) => {
            if !run_is_complete(tracker) {
                push_failure(summary, 0, owned("bridge shut down before run completed"));
            }
        },
        _ => {},
    }
    proof {
        assert(published@.skip(k).len() == published@.len() - k);
    }
    BridgeOutcome { effects, published, deploy }
}

} // verus!
