//! The agent interface: a request to run prompts in browser tabs, its
//! validation, and the summary and review packet a run produces.
use vstd::prelude::*;
use crate::event::{EventKind, FieldMap, JailgunEvent};
use crate::tarball::{changed_paths_spec, derive_changed_file_paths, tar_error_message, TarError, TarValidation};
use crate::config::JailgunConfig;
use crate::notify::field;
use crate::run::{top_level_message, top_level_mismatch, RunOptions, RunSummary};
use crate::strset::{insert_sorted, strictly_sorted};
use crate::pathorder::{keys_compare, keys_lt, lemma_keys_irreflexive, lemma_keys_transitive, lemma_keys_trichotomy, path_key, path_keys};
use crate::text::{
    ascii_lower, clone_opt, contains_seq, decimal, ends_with, is_blank, lines_of, lines_seq, owned,
    push_decimal, push_str, split_char, split_seq, starts_with, str_contains, str_ends_with,
    str_starts_with, to_ascii_lower, trim_seq, utf8_byte_len, utf8_len, utf8_prefix,
    utf8_prefix_spec, views,
};

verus! {

/// The interface version this build speaks.
pub const JAILGUN_AGENT_INTERFACE_VERSION: u16 = 1;

/// The interface version a request speaks when it names none.
pub fn default_interface_version() -> (v: u16)
    ensures
        v == JAILGUN_AGENT_INTERFACE_VERSION,
{
    JAILGUN_AGENT_INTERFACE_VERSION
}

/// A switch that is on unless a request turns it off.
pub fn default_true() -> (b: bool)
    ensures
        b,
{
    true
}

/// The longest run an agent may ask for, in seconds.
pub const JAILGUN_AGENT_MAX_RUNTIME_SECONDS: u64 = 1800;

/// The most tabs an agent may ask for.
pub const JAILGUN_AGENT_MAX_TABS: u16 = 5;

/// A request from an agent to run a prompt.
#[derive(Debug, Clone, PartialEq, Eq)]
pub struct JailgunAgentRunRequest {
    pub version: u16,
    pub run_id: Option<String>,
    pub prompt_ref: String,
    pub prompt_file: String,
    pub config_path: Option<String>,
    pub tabs: Option<u16>,
    pub max_runtime_seconds: Option<u64>,
    pub repo: JailgunRepoRef,
    pub source_archive: JailgunSourceArchiveRequest,
    pub deploy: JailgunAgentDeployRequest,
    pub ci: JailgunCiRequest,
    pub browser: JailgunAgentBrowserRequest,
    pub github: JailgunGithubPolicyRequest,
}

/// The repository a run works on.
#[derive(Debug, Clone, Default, PartialEq, Eq)]
pub struct JailgunRepoRef {
    pub repository: Option<String>,
    pub ref_name: Option<String>,
    pub base_sha: Option<String>,
    pub head_sha: Option<String>,
}

/// Overrides of the source archive upload.
#[derive(Debug, Clone, Default, PartialEq, Eq)]
pub struct JailgunSourceArchiveRequest {
    pub enabled: Option<bool>,
    pub repo_url: Option<String>,
    pub ref_name: Option<String>,
    pub tar_target_name: Option<String>,
    pub expected_top_level: Option<String>,
}

/// What an agent asks of the deploy.
#[derive(Debug, Clone, PartialEq, Eq)]
pub struct JailgunAgentDeployRequest {
    pub enabled: bool,
    pub dry_run: bool,
    pub allow_live: bool,
    pub remote_host: Option<String>,
    pub remote_dir: Option<String>,
    pub remote_command: Option<String>,
    pub expected_top_level: Option<String>,
}

impl Default for JailgunAgentDeployRequest {
    /// Deploy off, and a dry run unless live deploys are allowed.
    fn default() -> (r: Self)
        ensures
            !r.enabled,
            r.dry_run,
            !r.allow_live,
            r.remote_host.is_none(),
            r.remote_dir.is_none(),
            r.remote_command.is_none(),
            r.expected_top_level.is_none(),
    {
        JailgunAgentDeployRequest {
            enabled: false,
            dry_run: true,
            allow_live: false,
            remote_host: None,
            remote_dir: None,
            remote_command: None,
            expected_top_level: None,
        }
    }
}

/// What an agent asks of CI tracking.
#[derive(Debug, Clone, Default, PartialEq, Eq)]
pub struct JailgunCiRequest {
    pub enabled: bool,
    pub repo: Option<String>,
    pub branch: Option<String>,
    pub max_attempts: Option<u32>,
    pub poll_seconds: Option<u16>,
}

/// Browser and bridge settings of a request.
#[derive(Debug, Clone, Default, PartialEq, Eq)]
pub struct JailgunAgentBrowserRequest {
    pub profile_dir: Option<String>,
    pub downloads_dir: Option<String>,
    pub artifacts_dir: Option<String>,
    pub bridge_cmd: Vec<String>,
    pub bridge_env: FieldMap,
    pub event_buffer: Option<usize>,
    pub deploy_concurrency: Option<u16>,
}

/// How GitHub tool prompts are answered.
#[derive(Debug, Clone, Default, PartialEq, Eq)]
pub struct JailgunGithubPolicyRequest {
    pub allow_write_prompts: bool,
    pub allow_info_prompts: bool,
    pub allowed_repositories: Vec<String>,
}

/// The view of a result with a string error.
pub open spec fn res_view<T>(r: Result<T, String>) -> Result<T, Seq<char>> {
    match r {
        Ok(t) => Ok(t),
        Err(e) => Err(e@),
    }
}

/// The tab count of a request: its own, or the configured one; between
/// one and the cap.
pub open spec fn effective_tabs_spec(tabs: Option<u16>, config_tabs: u16) -> Result<u16, Seq<char>> {
    let t = match tabs {
        Some(t) => t,
        None => config_tabs,
    };
    if t == 0 {
        Err("tabs must be positive"@)
    } else if t > JAILGUN_AGENT_MAX_TABS {
        Err("tabs must be <= "@ + decimal(JAILGUN_AGENT_MAX_TABS as nat) + "; got "@ + decimal(
            t as nat,
        ))
    } else {
        Ok(t)
    }
}

/// The runtime of a request: its own, or the cap; between one second and
/// the cap.
pub open spec fn effective_runtime_spec(max: Option<u64>) -> Result<u64, Seq<char>> {
    let s = match max {
        Some(s) => s,
        None => JAILGUN_AGENT_MAX_RUNTIME_SECONDS,
    };
    if s == 0 {
        Err("max_runtime_seconds must be positive"@)
    } else if s > JAILGUN_AGENT_MAX_RUNTIME_SECONDS {
        Err("max_runtime_seconds must be <= "@ + decimal(JAILGUN_AGENT_MAX_RUNTIME_SECONDS as nat)
            + "; got "@ + decimal(s as nat))
    } else {
        Ok(s)
    }
}

/// The first rule a request breaks, in the order they are checked.
pub open spec fn validate_spec(r: JailgunAgentRunRequest, config_tabs: u16) -> Result<(), Seq<char>> {
    if r.version != JAILGUN_AGENT_INTERFACE_VERSION {
        Err("unsupported Jailgun agent interface version "@ + decimal(r.version as nat)
            + "; expected "@ + decimal(JAILGUN_AGENT_INTERFACE_VERSION as nat))
    } else if trim_seq(r.prompt_ref@).len() == 0 {
        Err("prompt_ref is required"@)
    } else if r.prompt_file@.len() == 0 {
        Err("prompt_file is required"@)
    } else if effective_tabs_spec(r.tabs, config_tabs) is Err {
        Err(effective_tabs_spec(r.tabs, config_tabs)->Err_0)
    } else if effective_runtime_spec(r.max_runtime_seconds) is Err {
        Err(effective_runtime_spec(r.max_runtime_seconds)->Err_0)
    } else if r.deploy.enabled && !r.deploy.dry_run && !r.deploy.allow_live {
        Err("live deploy requires deploy.allow_live=true"@)
    } else if r.github.allow_write_prompts && r.github.allowed_repositories@.len() == 0 {
        Err("github.allow_write_prompts requires allowed_repositories"@)
    } else {
        Ok(())
    }
}

impl JailgunAgentRunRequest {
    /// Checks a request against the interface and its caps.
    pub fn validate_for_config_tabs(&self, config_tabs: u16) -> (r: Result<(), String>)
        ensures
            res_view(r) == validate_spec(*self, config_tabs),
    {
        if self.version != JAILGUN_AGENT_INTERFACE_VERSION {
            let mut m = owned("unsupported Jailgun agent interface version ");
            push_decimal(&mut m, self.version as u64);
            push_str(&mut m, "; expected ");
            push_decimal(&mut m, JAILGUN_AGENT_INTERFACE_VERSION as u64);
            return Err(m);
        }
        if is_blank(self.prompt_ref.as_str()) {
            return Err(owned("prompt_ref is required"));
        }
        if self.prompt_file.as_str().unicode_len() == 0 {
            return Err(owned("prompt_file is required"));
        }
        match self.effective_tabs(config_tabs) {
            Err(e) => return Err(e),
            Ok(_) => {},
        }
        match self.effective_max_runtime_seconds() {
            Err(e) => return Err(e),
            Ok(_) => {},
        }
        if self.deploy.enabled && !self.deploy.dry_run && !self.deploy.allow_live {
            return Err(owned("live deploy requires deploy.allow_live=true"));
        }
        if self.github.allow_write_prompts && self.github.allowed_repositories.len() == 0 {
            return Err(owned("github.allow_write_prompts requires allowed_repositories"));
        }
        Ok(())
    }

    /// The number of tabs the run opens.
    pub fn effective_tabs(&self, config_tabs: u16) -> (r: Result<u16, String>)
        ensures
            res_view(r) == effective_tabs_spec(self.tabs, config_tabs),
    {
        let tabs = match self.tabs {
            Some(t) => t,
            None => config_tabs,
        };
        if tabs == 0 {
            return Err(owned("tabs must be positive"));
        }
        if tabs > JAILGUN_AGENT_MAX_TABS {
            let mut m = owned("tabs must be <= ");
            push_decimal(&mut m, JAILGUN_AGENT_MAX_TABS as u64);
            push_str(&mut m, "; got ");
            push_decimal(&mut m, tabs as u64);
            return Err(m);
        }
        Ok(tabs)
    }

    /// The runtime budget of the run, in seconds.
    pub fn effective_max_runtime_seconds(&self) -> (r: Result<u64, String>)
        ensures
            res_view(r) == effective_runtime_spec(self.max_runtime_seconds),
    {
        let seconds = match self.max_runtime_seconds {
            Some(s) => s,
            None => JAILGUN_AGENT_MAX_RUNTIME_SECONDS,
        };
        if seconds == 0 {
            return Err(owned("max_runtime_seconds must be positive"));
        }
        if seconds > JAILGUN_AGENT_MAX_RUNTIME_SECONDS {
            let mut m = owned("max_runtime_seconds must be <= ");
            push_decimal(&mut m, JAILGUN_AGENT_MAX_RUNTIME_SECONDS);
            push_str(&mut m, "; got ");
            push_decimal(&mut m, seconds);
            return Err(m);
        }
        Ok(seconds)
    }
}

// ---------------------------------------------------------------------
// Summaries and review packets
// ---------------------------------------------------------------------

/// How a run for an agent ended.
#[derive(Debug, Clone, PartialEq, Eq)]
pub struct JailgunAgentRunSummary {
    pub version: u16,
    pub run_id: String,
    pub status: String,
    pub prompt_ref: String,
    pub tab_count: u16,
    pub max_runtime_seconds: u64,
    pub repo_ref: JailgunRepoRef,
    pub source_archive: JailgunSourceArchiveSummary,
    pub deploy_status: String,
    pub ci_status: String,
    pub changed_files: Vec<String>,
    pub artifacts: Vec<JailgunArtifact>,
    pub failures: Vec<JailgunFailure>,
    pub events_jsonl: String,
    pub receipt_paths: Vec<String>,
    pub started_at: String,
    pub finished_at: String,
    pub denied_github_prompts: u32,
    pub allowed_info_prompts: u32,
    pub github_write_prompts_allowed: bool,
}

/// The source archive a run uploaded.
#[derive(Debug, Clone, PartialEq, Eq)]
pub struct JailgunSourceArchiveSummary {
    pub enabled: bool,
    pub repo_url: String,
    pub ref_name: String,
    pub prefix: String,
    pub archive_filename: String,
}

/// A file a run produced.
#[derive(Debug, Clone, PartialEq, Eq)]
pub struct JailgunArtifact {
    pub kind: String,
    pub path: String,
    pub sha256: Option<String>,
    pub size_bytes: Option<u64>,
    pub receipt_path: Option<String>,
    pub tar_validation: Option<TarValidation>,
    pub changed_files: Vec<String>,
}

/// Something that went wrong in a run.
#[derive(Debug, Clone, PartialEq, Eq)]
pub struct JailgunFailure {
    pub tab_id: Option<u16>,
    pub code: String,
    pub message: String,
}

/// The packet that summarises a finished run for inspection.
#[derive(Debug, Clone, PartialEq, Eq)]
pub struct JailgunReviewPacket {
    pub version: u16,
    pub generated_at: String,
    pub run_id: String,
    pub prompt_ref: String,
    pub base_sha: String,
    pub head_sha: String,
    pub diff_stat: String,
    pub name_status: Vec<JailgunChangedFile>,
    pub patch: String,
    pub changed_tests: Vec<String>,
    pub summary: JailgunAgentRunSummary,
    pub artifacts: Vec<JailgunArtifact>,
    pub receipt_paths: Vec<String>,
    pub source_metadata: FieldMap,
}

/// One line of `git diff --name-status`.
#[derive(Debug, Clone, PartialEq, Eq)]
pub struct JailgunChangedFile {
    pub status: String,
    pub path: String,
    pub old_path: Option<String>,
}

/// The plain view of a changed file: status, path, old path.
pub open spec fn changed_view(f: JailgunChangedFile) -> (Seq<char>, Seq<char>, Option<Seq<char>>) {
    (
        f.status@,
        f.path@,
        match f.old_path {
            Some(p) => Some(p@),
            None => None,
        },
    )
}

/// One `--name-status` line: a rename or copy has the old and the new
/// path, any other status one path; a line without them is skipped.
pub open spec fn name_status_entry(line: Seq<char>) -> Option<(Seq<char>, Seq<char>, Option<Seq<char>>)> {
    let parts = split_seq(line, '\t');
    let status = parts[0];
    if status.len() > 0 && (status[0] == 'R' || status[0] == 'C') {
        if parts.len() >= 3 {
            Some((status, parts[2], Some(parts[1])))
        } else {
            None
        }
    } else if parts.len() >= 2 {
        Some((status, parts[1], None))
    } else {
        None
    }
}

/// The entries of `--name-status` output, line by line.
pub open spec fn name_status_spec(lines: Seq<Seq<char>>) -> Seq<(Seq<char>, Seq<char>, Option<Seq<char>>)>
    decreases lines.len(),
{
    if lines.len() == 0 {
        Seq::empty()
    } else {
        let rest = name_status_spec(lines.drop_last());
        match name_status_entry(lines.last()) {
            Some(e) => rest.push(e),
            None => rest,
        }
    }
}

/// Parses `git diff --name-status` output.
pub fn parse_name_status(text: &str) -> (r: Vec<JailgunChangedFile>)
    ensures
        r@.map_values(|f: JailgunChangedFile| changed_view(f)) == name_status_spec(lines_seq(text@)),
{
    let lines = lines_of(text);
    let ghost ls = views(lines@);
    let mut out: Vec<JailgunChangedFile> = Vec::new();
    let mut k: usize = 0;
    while k < lines.len()
        invariant
            k <= lines.len(),
            ls == views(lines@),
            out@.map_values(|f: JailgunChangedFile| changed_view(f)) == name_status_spec(ls.take(k as int)),
        decreases lines.len() - k,
    {
        assert(ls.take(k + 1).drop_last() == ls.take(k as int));
        assert(ls.take(k + 1).last() == ls[k as int]);
        let parts = split_char(lines[k].as_str(), '\t');
        proof {
            crate::text::lemma_split_nonempty(ls[k as int], '\t');
        }
        assert(lines@[k as int]@ == ls[k as int]);
        assert(views(parts@) == split_seq(ls[k as int], '\t'));
        let status = parts[0].clone();
        let sc = crate::text::chars_of(status.as_str());
        let renamed = sc.len() > 0 && (sc[0] == 'R' || sc[0] == 'C');
        let ghost before = out@;
        if renamed {
            if parts.len() >= 3 {
                out.push(JailgunChangedFile { status, path: parts[2].clone(), old_path: Some(parts[1].clone()) });
                assert(out@.map_values(|f: JailgunChangedFile| changed_view(f)) =~= before.map_values(|f: JailgunChangedFile| changed_view(f)).push(name_status_entry(ls[k as int])->Some_0));
            }
        } else if parts.len() >= 2 {
            out.push(JailgunChangedFile { status, path: parts[1].clone(), old_path: None });
            assert(out@.map_values(|f: JailgunChangedFile| changed_view(f)) =~= before.map_values(|f: JailgunChangedFile| changed_view(f)).push(name_status_entry(ls[k as int])->Some_0));
        }
        k += 1;
    }
    assert(ls.take(ls.len() as int) == ls);
    out
}

/// Whether a path names a test: under a `tests/` or `__tests__`
/// directory, or a Rust or TypeScript test file by its suffix (compared
/// in ASCII lowercase).
pub open spec fn is_test_path_spec(path: Seq<char>) -> bool {
    let l = ascii_lower(path);
    starts_with(l, "tests/"@) || contains_seq(l, "/tests/"@) || contains_seq(l, "__tests__"@)
        || ends_with(l, "_test.rs"@) || ends_with(l, "_tests.rs"@) || ends_with(l, ".test.ts"@)
        || ends_with(l, ".test.tsx"@) || ends_with(l, ".spec.ts"@) || ends_with(l, ".spec.tsx"@)
        || ends_with(l, ".test.mjs"@)
}

/// Whether a changed path is a test.
pub fn is_test_path(path: &str) -> (r: bool)
    ensures
        r == is_test_path_spec(path@),
{
    let lower = to_ascii_lower(path);
    let l = lower.as_str();
    str_starts_with(l, "tests/") || str_contains(l, "/tests/") || str_contains(l, "__tests__")
        || str_ends_with(l, "_test.rs") || str_ends_with(l, "_tests.rs") || str_ends_with(
        l,
        ".test.ts",
    ) || str_ends_with(l, ".test.tsx") || str_ends_with(l, ".spec.ts") || str_ends_with(
        l,
        ".spec.tsx",
    ) || str_ends_with(l, ".test.mjs")
}

/// A patch cut to at most `max_bytes` bytes at a character boundary, with
/// a note that it was cut.
pub open spec fn cap_utf8_spec(text: Seq<char>, max_bytes: nat) -> Seq<char> {
    if utf8_len(text) <= max_bytes {
        text
    } else {
        utf8_prefix_spec(text, max_bytes) + "\n[patch truncated at "@ + decimal(max_bytes)
            + " bytes]\n"@
    }
}

/// Caps a review patch at `max_bytes` bytes.
pub fn cap_utf8(text: String, max_bytes: usize) -> (r: String)
    ensures
        r@ == cap_utf8_spec(text@, max_bytes as nat),
{
    if utf8_byte_len(text.as_str()) <= max_bytes as u128 {
        return text;
    }
    let mut r = utf8_prefix(text.as_str(), max_bytes);
    push_str(&mut r, "\n[patch truncated at ");
    push_decimal(&mut r, max_bytes as u64);
    push_str(&mut r, " bytes]\n");
    r
}

/// The minutes of a runtime budget, rounded up, between one and
/// `u16::MAX`.
pub open spec fn runtime_minutes_spec(seconds: u64) -> u16 {
    let padded = if seconds as int + 59 <= u64::MAX { seconds + 59 } else { u64::MAX as int };
    let minutes = padded / 60;
    if minutes < 1 {
        1
    } else if minutes > u16::MAX {
        u16::MAX
    } else {
        minutes as u16
    }
}

/// The deploy status timeout, in minutes, of a runtime budget in seconds.
pub fn max_runtime_minutes(seconds: u64) -> (m: u16)
    ensures
        m == runtime_minutes_spec(seconds),
{
    let padded = if seconds <= u64::MAX - 59 {
        seconds + 59
    } else {
        u64::MAX
    };
    let minutes = padded / 60;
    if minutes < 1 {
        1
    } else if minutes > u16::MAX as u64 {
        u16::MAX
    } else {
        minutes as u16
    }
}

/// The outcome of the last finished deploy, if it has one.
pub open spec fn last_deploy_outcome(evs: Seq<JailgunEvent>) -> Option<Seq<char>>
    decreases evs.len(),
{
    if evs.len() == 0 {
        None
    } else if evs.last().kind == EventKind::DeployFinished {
        if evs.last().fields@.contains_key("outcome"@) {
            Some(evs.last().fields@["outcome"@])
        } else {
            None
        }
    } else {
        last_deploy_outcome(evs.drop_last())
    }
}

/// The last CI state any event reported.
pub open spec fn last_ci_state(evs: Seq<JailgunEvent>) -> Option<Seq<char>>
    decreases evs.len(),
{
    if evs.len() == 0 {
        None
    } else if evs.last().fields@.contains_key("ci_state"@) {
        Some(evs.last().fields@["ci_state"@])
    } else {
        last_ci_state(evs.drop_last())
    }
}

/// Every event of the list is well formed.
pub open spec fn all_wf(evs: Seq<JailgunEvent>) -> bool {
    forall|i: int| 0 <= i < evs.len() ==> #[trigger] evs[i].wf()
}

/// The deploy status of a run: `disabled`, the outcome of the last
/// finished deploy, or `not-finished`.
pub fn deploy_status_from_events(events: &Vec<JailgunEvent>, deploy_enabled: bool) -> (r: String)
    requires
        all_wf(events@),
    ensures
        r@ == if !deploy_enabled {
            "disabled"@
        } else {
            match last_deploy_outcome(events@) {
                Some(o) => o,
                None => "not-finished"@,
            }
        },
{
    if !deploy_enabled {
        return owned("disabled");
    }
    let mut k: usize = events.len();
    assert(events@.take(k as int) == events@);
    while k > 0
        invariant
            k <= events.len(),
            all_wf(events@),
            deploy_enabled,
            last_deploy_outcome(events@) == last_deploy_outcome(events@.take(k as int)),
        decreases k,
    {
        assert(events@.take(k as int).drop_last() == events@.take(k - 1));
        assert(events@.take(k as int).last() == events@[k - 1]);
        let e = &events[k - 1];
        assert(events@[k - 1].wf());
        if matches!(e.kind, EventKind::DeployFinished) {
            return match e.fields.get("outcome") {
                Some(o) => o.clone(),
                None => owned("not-finished"),
            };
        }
        k -= 1;
    }
    owned("not-finished")
}

/// The CI status of a run: `disabled`, the last CI state reported, or
/// `unknown`.
pub fn ci_status_from_events(events: &Vec<JailgunEvent>, ci_enabled: bool) -> (r: String)
    requires
        all_wf(events@),
    ensures
        r@ == if !ci_enabled {
            "disabled"@
        } else {
            match last_ci_state(events@) {
                Some(c) => c,
                None => "unknown"@,
            }
        },
{
    if !ci_enabled {
        return owned("disabled");
    }
    let mut k: usize = events.len();
    assert(events@.take(k as int) == events@);
    while k > 0
        invariant
            k <= events.len(),
            all_wf(events@),
            ci_enabled,
            last_ci_state(events@) == last_ci_state(events@.take(k as int)),
        decreases k,
    {
        assert(events@.take(k as int).drop_last() == events@.take(k - 1));
        assert(events@.take(k as int).last() == events@[k - 1]);
        let e = &events[k - 1];
        assert(events@[k - 1].wf());
        match e.fields.get("ci_state") {
            Some(c) => return c.clone(),
            None => {},
        }
        k -= 1;
    }
    owned("unknown")
}

/// The receipt paths events report, in order.
pub open spec fn receipt_fields(evs: Seq<JailgunEvent>) -> Seq<Seq<char>>
    decreases evs.len(),
{
    if evs.len() == 0 {
        Seq::empty()
    } else {
        let rest = receipt_fields(evs.drop_last());
        if evs.last().fields@.contains_key("receipt_path"@) {
            rest.push(evs.last().fields@["receipt_path"@])
        } else {
            rest
        }
    }
}

/// The first path of a list that is the same path as `key` names.
pub open spec fn first_with_key(ps: Seq<Seq<char>>, key: Seq<Seq<char>>) -> Option<Seq<char>>
    decreases ps.len(),
{
    if ps.len() == 0 {
        None
    } else if path_keys(ps[0]) == key {
        Some(ps[0])
    } else {
        first_with_key(ps.drop_first(), key)
    }
}

proof fn lemma_first_with_key_push(ps: Seq<Seq<char>>, q: Seq<char>, key: Seq<Seq<char>>)
    ensures
        first_with_key(ps.push(q), key) == match first_with_key(ps, key) {
            Some(p) => Some(p),
            None => if path_keys(q) == key { Some(q) } else { None },
        },
    decreases ps.len(),
{
    if ps.len() > 0 {
        assert(ps.push(q)[0] == ps[0]);
        assert(ps.push(q).drop_first() == ps.drop_first().push(q));
        lemma_first_with_key_push(ps.drop_first(), q, key);
    } else {
        assert(ps.push(q)[0] == q);
        assert(ps.push(q).drop_first() == Seq::<Seq<char>>::empty());
        assert(first_with_key(ps.push(q).drop_first(), key) is None);
        assert(first_with_key(ps, key) is None);
    }
}

proof fn lemma_first_with_key_found(ps: Seq<Seq<char>>, key: Seq<Seq<char>>)
    ensures
        first_with_key(ps, key) is Some <==> exists|i: int| 0 <= i < ps.len() && path_keys(#[trigger] ps[i]) == key,
    decreases ps.len(),
{
    if ps.len() > 0 {
        lemma_first_with_key_found(ps.drop_first(), key);
        if exists|i: int| 0 <= i < ps.len() && path_keys(#[trigger] ps[i]) == key {
            let i = choose|i: int| 0 <= i < ps.len() && path_keys(#[trigger] ps[i]) == key;
            if i > 0 {
                assert(ps.drop_first()[i - 1] == ps[i]);
            }
        }
        if exists|i: int| 0 <= i < ps.drop_first().len() && path_keys(#[trigger] ps.drop_first()[i]) == key {
            let i = choose|i: int| 0 <= i < ps.drop_first().len() && path_keys(#[trigger] ps.drop_first()[i]) == key;
            assert(ps[i + 1] == ps.drop_first()[i]);
        }
    }
}

/// The receipt paths a run reported, as a set of paths: ordered and
/// compared component by component, each the first one reported.
pub open spec fn receipt_paths_ok(r: Seq<Seq<char>>, ps: Seq<Seq<char>>) -> bool {
    &&& forall|i: int, j: int| 0 <= i < j < r.len() ==> keys_lt(path_keys(#[trigger] r[i]), path_keys(#[trigger] r[j]))
    &&& forall|i: int| 0 <= i < r.len() ==> first_with_key(ps, path_keys(#[trigger] r[i])) == Some(r[i])
    &&& forall|q: int| 0 <= q < ps.len() ==> exists|i: int| 0 <= i < r.len() && path_keys(#[trigger] r[i]) == path_keys(#[trigger] ps[q])
}

/// The distinct receipt paths of a run, in path order.
pub fn receipt_paths_from_events(events: &Vec<JailgunEvent>) -> (r: Vec<String>)
    requires
        all_wf(events@),
    ensures
        receipt_paths_ok(views(r@), receipt_fields(events@)),
{
    let mut out: Vec<String> = Vec::new();
    let mut keys: Vec<Vec<String>> = Vec::new();
    let mut k: usize = 0;
    assert(events@.take(0) =~= Seq::<JailgunEvent>::empty());
    while k < events.len()
        invariant
            k <= events.len(),
            all_wf(events@),
            out@.len() == keys@.len(),
            forall|i: int| 0 <= i < keys@.len() ==> views(#[trigger] keys@[i]@) == path_keys(out@[i]@),
            receipt_paths_ok(views(out@), receipt_fields(events@.take(k as int))),
        decreases events.len() - k,
    {
        let ghost ps0 = receipt_fields(events@.take(k as int));
        let ghost v0 = views(out@);
        assert(events@.take(k + 1).drop_last() == events@.take(k as int));
        assert(events@.take(k + 1).last() == events@[k as int]);
        assert(events@[k as int].wf());
        match events[k].fields.get("receipt_path") {
            None => {},
            Some(p) => {
                let ghost q = p@;
                let ghost ps1 = ps0.push(q);
                assert(receipt_fields(events@.take(k + 1)) == ps1);
                let key = path_key(p.as_str());
                let mut pos: usize = 0;
                let mut found = false;
                while pos < keys.len()
                    invariant_except_break
                        !found,
                    invariant
                        pos <= keys@.len(),
                        out@.len() == keys@.len(),
                        v0 == views(out@),
                        views(key@) == path_keys(q),
                        forall|i: int| 0 <= i < keys@.len() ==> views(#[trigger] keys@[i]@) == path_keys(out@[i]@),
                        forall|i: int| 0 <= i < pos ==> keys_lt(path_keys(#[trigger] v0[i]), path_keys(q)),
                    ensures
                        pos <= keys@.len(),
                        forall|i: int| 0 <= i < pos ==> keys_lt(path_keys(#[trigger] v0[i]), path_keys(q)),
                        found ==> pos < keys@.len() && path_keys(v0[pos as int]) == path_keys(q),
                        !found && pos < keys@.len() ==> keys_lt(path_keys(q), path_keys(v0[pos as int])),
                    decreases keys@.len() - pos,
                {
                    let c = keys_compare(&keys[pos], &key);
                    assert(views(keys@[pos as int]@) == path_keys(v0[pos as int]));
                    if c == 0 {
                        found = true;
                        break;
                    }
                    if c == 1 {
                        break;
                    }
                    pos += 1;
                }
                proof {
                    lemma_first_with_key_found(ps0, path_keys(q));
                    assert forall|i: int| 0 <= i < v0.len() implies first_with_key(ps1, path_keys(#[trigger] v0[i])) == Some(v0[i]) by {
                        lemma_first_with_key_push(ps0, q, path_keys(v0[i]));
                    }
                }
                if !found {
                    proof {
                        // no earlier path has this key
                        assert forall|j: int| 0 <= j < ps0.len() implies path_keys(#[trigger] ps0[j]) != path_keys(q) by {
                            if path_keys(ps0[j]) == path_keys(q) {
                                let i = choose|i: int| 0 <= i < v0.len() && path_keys(#[trigger] v0[i]) == path_keys(#[trigger] ps0[j]);
                                if i < pos {
                                    lemma_keys_irreflexive(path_keys(q));
                                } else {
                                    assert(keys_lt(path_keys(q), path_keys(v0[pos as int])));
                                    if i > pos {
                                        assert(keys_lt(path_keys(v0[pos as int]), path_keys(v0[i])));
                                        lemma_keys_transitive(path_keys(q), path_keys(v0[pos as int]), path_keys(v0[i]));
                                    }
                                    lemma_keys_irreflexive(path_keys(q));
                                }
                            }
                        }
                        lemma_first_with_key_found(ps0, path_keys(q));
                        lemma_first_with_key_push(ps0, q, path_keys(q));
                    }
                    out.insert(pos, p.clone());
                    keys.insert(pos, key);
                    proof {
                        let v1 = views(out@);
                        assert(v1 =~= v0.insert(pos as int, q));
                        assert forall|a: int, b: int| 0 <= a < b < v1.len() implies keys_lt(path_keys(#[trigger] v1[a]), path_keys(#[trigger] v1[b])) by {
                            if b < pos {
                                assert(v1[a] == v0[a] && v1[b] == v0[b]);
                            } else if b == pos {
                                assert(v1[a] == v0[a]);
                            } else if a == pos {
                                assert(v1[b] == v0[b - 1]);
                                if b - 1 > pos {
                                    assert(keys_lt(path_keys(v0[pos as int]), path_keys(v0[b - 1])));
                                    lemma_keys_transitive(path_keys(q), path_keys(v0[pos as int]), path_keys(v0[b - 1]));
                                }
                            } else if a < pos {
                                assert(v1[a] == v0[a] && v1[b] == v0[b - 1]);
                                assert(keys_lt(path_keys(v0[a]), path_keys(q)));
                                if b - 1 > pos {
                                    assert(keys_lt(path_keys(v0[pos as int]), path_keys(v0[b - 1])));
                                    lemma_keys_transitive(path_keys(q), path_keys(v0[pos as int]), path_keys(v0[b - 1]));
                                }
                                lemma_keys_transitive(path_keys(v0[a]), path_keys(q), path_keys(v0[b - 1]));
                            } else {
                                assert(v1[a] == v0[a - 1] && v1[b] == v0[b - 1]);
                            }
                        }
                        assert forall|i: int| 0 <= i < v1.len() implies first_with_key(ps1, path_keys(#[trigger] v1[i])) == Some(v1[i]) by {
                            if i < pos {
                                assert(v1[i] == v0[i]);
                            } else if i > pos {
                                assert(v1[i] == v0[i - 1]);
                            }
                        }
                        assert forall|x: int| 0 <= x < ps1.len() implies exists|i: int| 0 <= i < v1.len() && path_keys(#[trigger] v1[i]) == path_keys(#[trigger] ps1[x]) by {
                            if x < ps0.len() {
                                assert(ps1[x] == ps0[x]);
                                let i = choose|i: int| 0 <= i < v0.len() && path_keys(#[trigger] v0[i]) == path_keys(#[trigger] ps0[x]);
                                if i < pos {
                                    assert(v1[i] == v0[i]);
                                } else {
                                    assert(v1[i + 1] == v0[i]);
                                }
                            } else {
                                assert(v1[pos as int] == q);
                            }
                        }
                        assert forall|i: int| 0 <= i < keys@.len() implies views(#[trigger] keys@[i]@) == path_keys(out@[i]@) by {
                            if i < pos {
                            } else if i > pos {
                            }
                        }
                    }
                } else {
                    proof {
                        assert forall|x: int| 0 <= x < ps1.len() implies exists|i: int| 0 <= i < v0.len() && path_keys(#[trigger] v0[i]) == path_keys(#[trigger] ps1[x]) by {
                            if x < ps0.len() {
                                assert(ps1[x] == ps0[x]);
                            } else {
                                assert(path_keys(v0[pos as int]) == path_keys(q));
                            }
                        }
                    }
                }
            },
        }
        k += 1;
    }
    assert(events@.take(events@.len() as int) == events@);
    out
}

// ---------------------------------------------------------------------
// Artifacts and the run summary
// ---------------------------------------------------------------------

/// The downloads a run reported, in order: receipts with a local path.
pub open spec fn archive_events(evs: Seq<JailgunEvent>) -> Seq<JailgunEvent>
    decreases evs.len(),
{
    if evs.len() == 0 {
        Seq::empty()
    } else {
        let rest = archive_events(evs.drop_last());
        let e = evs.last();
        if e.kind == EventKind::DownloadReceipt && e.fields@.contains_key("local_path"@) {
            rest.push(e)
        } else {
            rest
        }
    }
}

/// The local path of a download.
pub open spec fn local_path_of(e: JailgunEvent) -> Seq<char> {
    e.fields@["local_path"@]
}

/// The archives of a run to validate, in the order of its downloads.
pub fn archive_paths_to_validate(events: &Vec<JailgunEvent>) -> (r: Vec<String>)
    requires
        all_wf(events@),
    ensures
        r@.len() == archive_events(events@).len(),
        forall|i: int| 0 <= i < r@.len() ==> #[trigger] r@[i]@ == local_path_of(archive_events(events@)[i]),
{
    let mut out: Vec<String> = Vec::new();
    let mut k: usize = 0;
    assert(events@.take(0) =~= Seq::<JailgunEvent>::empty());
    while k < events.len()
        invariant
            k <= events.len(),
            all_wf(events@),
            out@.len() == archive_events(events@.take(k as int)).len(),
            forall|i: int| 0 <= i < out@.len() ==> #[trigger] out@[i]@ == local_path_of(archive_events(events@.take(k as int))[i]),
        decreases events.len() - k,
    {
        assert(events@.take(k + 1).drop_last() == events@.take(k as int));
        assert(events@.take(k + 1).last() == events@[k as int]);
        assert(events@[k as int].wf());
        if matches!(events[k].kind, EventKind::DownloadReceipt) {
            match events[k].fields.get("local_path") {
                Some(p) => out.push(p.clone()),
                None => {},
            }
        }
        k += 1;
    }
    assert(events@.take(events@.len() as int) == events@);
    out
}

/// Downloads must have a single top level when components are stripped
/// or a top level is expected.
pub fn archive_requires_single_top_level(config: &JailgunConfig, expected_top_level: &Option<String>) -> (r: bool)
    ensures
        r == (config.deploy.remote_strip_components > 0 || expected_top_level is Some),
{
    config.deploy.remote_strip_components > 0 || expected_top_level.is_some()
}

/// The plain view of an archive validation.
pub open spec fn tar_view(v: TarValidation) -> (u64, usize, Seq<Seq<char>>, Seq<Seq<char>>, Option<Seq<char>>) {
    (
        v.size_bytes,
        v.entry_count,
        views(v.files@),
        views(v.top_levels@),
        match v.top_level {
            Some(t) => Some(t@),
            None => None,
        },
    )
}

fn copy_strings(v: &Vec<String>) -> (r: Vec<String>)
    ensures
        r@ == v@,
{
    let mut r: Vec<String> = Vec::new();
    let mut i: usize = 0;
    while i < v.len()
        invariant
            i <= v.len(),
            r@ == v@.take(i as int),
        decreases v.len() - i,
    {
        r.push(v[i].clone());
        assert(v@.take(i + 1) == v@.take(i as int).push(v@[i as int]));
        i += 1;
    }
    assert(v@.take(v@.len() as int) == v@);
    r
}

fn copy_validation(v: &TarValidation) -> (r: TarValidation)
    ensures
        tar_view(r) == tar_view(*v),
{
    TarValidation {
        size_bytes: v.size_bytes,
        entry_count: v.entry_count,
        files: copy_strings(&v.files),
        top_levels: copy_strings(&v.top_levels),
        top_level: crate::text::clone_opt(&v.top_level),
    }
}

/// The artifact recorded for a download and the verdict on its archive.
pub open spec fn artifact_ok(a: JailgunArtifact, e: JailgunEvent, vr: Result<TarValidation, TarError>, strip: nat) -> bool {
    &&& a.kind@ == "downloaded-archive"@
    &&& a.path@ == local_path_of(e)
    &&& crate::text::opt_view(a.sha256) == field(e, "sha256"@)
    &&& a.size_bytes == match field(e, "size_bytes"@) {
        Some(v) => crate::text::parse_u64_spec(v),
        None => None,
    }
    &&& crate::text::opt_view(a.receipt_path) == field(e, "receipt_path"@)
    &&& match vr {
        Ok(v) => (a.tar_validation matches Some(t) && tar_view(t) == tar_view(v)) && views(
            a.changed_files@,
        ) == changed_paths_spec(views(v.files@), strip),
        Err(_) => a.tar_validation is None && a.changed_files@.len() == 0,
    }
}

/// The plain view of a failure: tab, code, message.
pub open spec fn failure_view(f: JailgunFailure) -> (Option<u16>, Seq<char>, Seq<char>) {
    (f.tab_id, f.code@, f.message@)
}

/// The failure a download's archive causes, if any: a refused archive, or
/// one whose top level is not the expected one.
pub open spec fn artifact_failure(e: JailgunEvent, vr: Result<TarValidation, TarError>, expected: Option<String>) -> Option<(Option<u16>, Seq<char>, Seq<char>)> {
    match vr {
        Err(err) => Some((e.tab_id, "tar-validation"@, tar_error_message(err))),
        Ok(v) => match expected {
            None => None,
            Some(x) => if v.top_level.is_some() && v.top_level.unwrap()@ == x@ {
                None
            } else {
                Some((e.tab_id, "tar-validation"@, top_level_message(x@, v.top_level)))
            },
        },
    }
}

/// The failures of the first `n` downloads.
pub open spec fn artifact_failures(arch: Seq<JailgunEvent>, vals: Seq<Result<TarValidation, TarError>>, expected: Option<String>, n: nat) -> Seq<(Option<u16>, Seq<char>, Seq<char>)>
    decreases n,
{
    if n == 0 {
        Seq::empty()
    } else {
        let rest = artifact_failures(arch, vals, expected, (n - 1) as nat);
        match artifact_failure(arch[n - 1], vals[n - 1], expected) {
            Some(f) => rest.push(f),
            None => rest,
        }
    }
}

/// The artifacts of a run and the failures its archives cause, given the
/// verdict on each downloaded archive (in the order of the downloads).
pub fn artifacts_from_events(
    events: &Vec<JailgunEvent>,
    config: &JailgunConfig,
    expected_top_level: &Option<String>,
    validations: &Vec<Result<TarValidation, TarError>>,
) -> (r: (Vec<JailgunArtifact>, Vec<JailgunFailure>))
    requires
        all_wf(events@),
        validations@.len() == archive_events(events@).len(),
    ensures
        r.0@.len() == archive_events(events@).len(),
        forall|i: int| 0 <= i < r.0@.len() ==> artifact_ok(#[trigger] r.0@[i], archive_events(events@)[i], validations@[i], config.deploy.remote_strip_components as nat),
        r.1@.map_values(|f: JailgunFailure| failure_view(f)) == artifact_failures(archive_events(events@), validations@, *expected_top_level, archive_events(events@).len()),
{
    let ghost arch = archive_events(events@);
    let mut artifacts: Vec<JailgunArtifact> = Vec::new();
    let mut failures: Vec<JailgunFailure> = Vec::new();
    let strip = config.deploy.remote_strip_components as usize;
    let mut k: usize = 0;
    let mut j: usize = 0;
    assert(events@.take(0) =~= Seq::<JailgunEvent>::empty());
    while k < events.len()
        invariant
            k <= events.len(),
            all_wf(events@),
            arch == archive_events(events@),
            validations@.len() == arch.len(),
            strip == config.deploy.remote_strip_components,
            j == archive_events(events@.take(k as int)).len(),
            archive_events(events@.take(k as int)) == arch.take(j as int),
            j <= arch.len(),
            j <= k,
            artifacts@.len() == j,
            forall|i: int| 0 <= i < j ==> artifact_ok(#[trigger] artifacts@[i], arch[i], validations@[i], strip as nat),
            failures@.map_values(|f: JailgunFailure| failure_view(f)) == artifact_failures(arch, validations@, *expected_top_level, j as nat),
        decreases events.len() - k,
    {
        proof {
            lemma_archive_events_prefix(events@, k as int + 1);
        }
        assert(events@.take(k + 1).drop_last() == events@.take(k as int));
        assert(events@.take(k + 1).last() == events@[k as int]);
        assert(events@[k as int].wf());
        let e = &events[k];
        if matches!(e.kind, EventKind::DownloadReceipt) {
            match e.fields.get("local_path") {
                Some(path) => {
                    proof {
                        let a1 = archive_events(events@.take(k as int + 1));
                        assert(a1 == archive_events(events@.take(k as int)).push(events@[k as int]));
                        assert(a1.len() == j + 1);
                        assert(arch.take(j as int + 1)[j as int] == arch[j as int]);
                    }
                    assert(arch[j as int] == events@[k as int]);
                    let vr = &validations[j];
                    let ghost f0 = failures@;
                    let (tar_validation, changed) = match vr {
                        Ok(v) => {
                            match top_level_mismatch(expected_top_level, v) {
                                Some(m) => failures.push(JailgunFailure { tab_id: e.tab_id, code: owned("tar-validation"), message: m }),
                                None => {},
                            }
                            (Some(copy_validation(v)), derive_changed_file_paths(v, strip))
                        },
                        Err(err) => {
                            failures.push(JailgunFailure { tab_id: e.tab_id, code: owned("tar-validation"), message: err.message() });
                            (None, Vec::new())
                        },
                    };
                    proof {
                        assert(failures@.map_values(|f: JailgunFailure| failure_view(f)) =~= artifact_failures(arch, validations@, *expected_top_level, (j + 1) as nat));
                    }
                    let size_bytes = match e.fields.get("size_bytes") {
                        Some(v) => crate::text::parse_u64(v.as_str()),
                        None => None,
                    };
                    let sha256 = match e.fields.get("sha256") {
                        Some(v) => Some(v.clone()),
                        None => None,
                    };
                    let receipt_path = match e.fields.get("receipt_path") {
                        Some(v) => Some(v.clone()),
                        None => None,
                    };
                    artifacts.push(JailgunArtifact {
                        kind: owned("downloaded-archive"),
                        path: path.clone(),
                        sha256,
                        size_bytes,
                        receipt_path,
                        tar_validation,
                        changed_files: changed,
                    });
                    j += 1;
                },
                None => {},
            }
        }
        k += 1;
    }
    assert(events@.take(events@.len() as int) == events@);
    assert(arch.take(j as int) == arch);
    (artifacts, failures)
}

// ---------------------------------------------------------------------
// The summary of a run
// ---------------------------------------------------------------------

/// What an agent run collected: the orchestrator's summary, the events,
/// and whether the run ran out of time.
pub struct AgentRunCollection {
    pub summary: RunSummary,
    pub events: Vec<JailgunEvent>,
    pub timed_out: bool,
}

impl AgentRunCollection {
    /// What a run that ran out of time collected: the events seen so far,
    /// and a summary with nothing downloaded or deployed and the one
    /// failure of the whole run.
    pub fn timed_out(run_id: &str, tabs: u16, events: Vec<JailgunEvent>) -> (c: AgentRunCollection)
        ensures
            c.timed_out,
            c.events == events,
            c.summary.run_id@ == run_id@,
            c.summary.total_tabs == tabs,
            c.summary.downloaded == 0,
            c.summary.deployed == 0,
            c.summary.failures@.len() == 1,
            c.summary.failures@[0].0 == 0,
            c.summary.failures@[0].1@ == "agent max runtime exceeded"@,
            c.summary.denied_github_prompts == 0,
            c.summary.allowed_info_prompts == 0,
    {
        let mut failures: Vec<(u16, String)> = Vec::new();
        failures.push((0, owned("agent max runtime exceeded")));
        AgentRunCollection {
            summary: RunSummary {
                run_id: owned(run_id),
                total_tabs: tabs,
                downloaded: 0,
                deployed: 0,
                failures,
                denied_github_prompts: 0,
                allowed_info_prompts: 0,
            },
            events,
            timed_out: true,
        }
    }
}

/// The orchestrator's failures as run failures: tab `0` stands for the
/// run as a whole.
pub open spec fn orchestrator_failures(fs: Seq<(u16, String)>) -> Seq<(Option<u16>, Seq<char>, Seq<char>)> {
    fs.map_values(|p: (u16, String)| orchestrator_failure(p))
}

/// One orchestrator failure as a run failure.
pub open spec fn orchestrator_failure(p: (u16, String)) -> (Option<u16>, Seq<char>, Seq<char>) {
    (if p.0 != 0 { Some(p.0) } else { None }, "orchestrator"@, p.1@)
}

/// The changed files of the artifacts, in artifact order, repeats kept.
pub open spec fn all_changed(arts: Seq<JailgunArtifact>) -> Seq<Seq<char>>
    decreases arts.len(),
{
    if arts.len() == 0 {
        Seq::empty()
    } else {
        all_changed(arts.drop_last()) + views(arts.last().changed_files@)
    }
}

/// The status of a run: out of time, or failed when any failure is known.
pub open spec fn run_status(timed_out: bool, failure_count: nat) -> Seq<char> {
    if timed_out {
        "timed-out"@
    } else if failure_count == 0 {
        "succeeded"@
    } else {
        "failed"@
    }
}

fn orchestrator_failure_list(fs: &Vec<(u16, String)>) -> (r: Vec<JailgunFailure>)
    ensures
        r@.len() == fs@.len(),
        forall|k: int| 0 <= k < r@.len() ==> failure_view(#[trigger] r@[k]) == orchestrator_failure(fs@[k]),
{
    let mut r: Vec<JailgunFailure> = Vec::new();
    let mut i: usize = 0;
    while i < fs.len()
        invariant
            i <= fs.len(),
            r@.len() == i,
            forall|k: int| 0 <= k < i ==> failure_view(#[trigger] r@[k]) == orchestrator_failure(fs@[k]),
        decreases fs.len() - i,
    {
        let tab = fs[i].0;
        let tab_id = if tab != 0 { Some(tab) } else { None };
        r.push(JailgunFailure { tab_id, code: owned("orchestrator"), message: fs[i].1.clone() });
        i += 1;
    }
    r
}

fn changed_file_union(arts: &Vec<JailgunArtifact>) -> (r: Vec<String>)
    ensures
        strictly_sorted(views(r@)),
        views(r@).to_set() == all_changed(arts@).to_set(),
{
    let mut flat: Vec<String> = Vec::new();
    let mut i: usize = 0;
    assert(arts@.take(0) =~= Seq::<JailgunArtifact>::empty());
    while i < arts.len()
        invariant
            i <= arts.len(),
            views(flat@) == all_changed(arts@.take(i as int)),
        decreases arts.len() - i,
    {
        let cf = &arts[i].changed_files;
        let ghost base = views(flat@);
        let mut j: usize = 0;
        while j < cf.len()
            invariant
                j <= cf.len(),
                i < arts.len(),
                cf == arts@[i as int].changed_files,
                views(flat@) == base + views(cf@.take(j as int)),
            decreases cf.len() - j,
        {
            let ghost f0 = flat@;
            let item = cf[j].clone();
            assert(item@ == cf@[j as int]@);
            flat.push(item);
            proof {
                assert(flat@ == f0.push(item));
                assert(views(flat@) =~= views(f0).push(item@));
                assert(cf@.take(j + 1) =~= cf@.take(j as int).push(cf@[j as int]));
                assert(views(flat@) =~= base + views(cf@.take(j + 1)));
            }
            j += 1;
        }
        proof {
            assert(cf@.take(cf@.len() as int) == cf@);
            assert(arts@.take(i + 1).drop_last() == arts@.take(i as int));
            assert(arts@.take(i + 1).last() == arts@[i as int]);
        }
        i += 1;
    }
    assert(arts@.take(arts@.len() as int) == arts@);
    let mut out: Vec<String> = Vec::new();
    let mut k: usize = 0;
    assert(views(out@).to_set() =~= views(flat@).take(0).to_set());
    while k < flat.len()
        invariant
            k <= flat.len(),
            strictly_sorted(views(out@)),
            views(out@).to_set() == views(flat@).take(k as int).to_set(),
        decreases flat.len() - k,
    {
        insert_sorted(&mut out, flat[k].clone());
        proof {
            let fv = views(flat@);
            assert(fv.take(k + 1) == fv.take(k as int).push(fv[k as int]));
            fv.take(k as int).lemma_push_to_set_commute(fv[k as int]);
        }
        k += 1;
    }
    assert(views(flat@).take(flat@.len() as int) == views(flat@));
    out
}

/// The summary of an agent run, given the verdict on each downloaded
/// archive (in the order of the downloads).
pub fn build_agent_summary(
    request: &JailgunAgentRunRequest,
    config: &JailgunConfig,
    repo_url: &str,
    events_jsonl: &str,
    started_at: String,
    finished_at: String,
    tab_count: u16,
    max_runtime_seconds: u64,
    expected_top_level: &Option<String>,
    collection: AgentRunCollection,
    validations: &Vec<Result<TarValidation, TarError>>,
) -> (r: JailgunAgentRunSummary)
    requires
        all_wf(collection.events@),
        validations@.len() == archive_events(collection.events@).len(),
    ensures
        r.version == JAILGUN_AGENT_INTERFACE_VERSION,
        r.run_id == collection.summary.run_id,
        r.failures@.map_values(|f: JailgunFailure| failure_view(f)) == orchestrator_failures(
            collection.summary.failures@,
        ) + artifact_failures(
            archive_events(collection.events@),
            validations@,
            *expected_top_level,
            archive_events(collection.events@).len(),
        ),
        r.status@ == run_status(collection.timed_out, r.failures@.len()),
        r.prompt_ref == request.prompt_ref,
        r.tab_count == tab_count,
        r.max_runtime_seconds == max_runtime_seconds,
        crate::text::opt_view(r.repo_ref.repository) == Some(match request.repo.repository {
            Some(x) => x@,
            None => repo_url@,
        }),
        r.repo_ref.ref_name == Some(match request.repo.ref_name {
            Some(x) => x,
            None => config.source_archive.ref_name,
        }),
        r.repo_ref.base_sha == request.repo.base_sha,
        r.repo_ref.head_sha == request.repo.head_sha,
        r.source_archive.enabled == config.source_archive.enabled,
        r.source_archive.repo_url@ == repo_url@,
        r.source_archive.ref_name == config.source_archive.ref_name,
        r.source_archive.prefix == config.source_archive.prefix,
        r.source_archive.archive_filename == config.source_archive.archive_filename,
        r.deploy_status@ == (if !config.deploy.enabled {
            "disabled"@
        } else {
            match last_deploy_outcome(collection.events@) {
                Some(o) => o,
                None => "not-finished"@,
            }
        }),
        r.ci_status@ == (if !request.ci.enabled {
            "disabled"@
        } else {
            match last_ci_state(collection.events@) {
                Some(c) => c,
                None => "unknown"@,
            }
        }),
        r.artifacts@.len() == archive_events(collection.events@).len(),
        forall|i: int| 0 <= i < r.artifacts@.len() ==> artifact_ok(
            #[trigger] r.artifacts@[i],
            archive_events(collection.events@)[i],
            validations@[i],
            config.deploy.remote_strip_components as nat,
        ),
        strictly_sorted(views(r.changed_files@)),
        views(r.changed_files@).to_set() == all_changed(r.artifacts@).to_set(),
        r.events_jsonl@ == events_jsonl@,
        receipt_paths_ok(views(r.receipt_paths@), receipt_fields(collection.events@)),
        r.started_at == started_at,
        r.finished_at == finished_at,
        r.denied_github_prompts == collection.summary.denied_github_prompts,
        r.allowed_info_prompts == collection.summary.allowed_info_prompts,
        r.github_write_prompts_allowed == request.github.allow_write_prompts,
{
    let mut failures = orchestrator_failure_list(&collection.summary.failures);
    let (artifacts, mut artifact_fails) = artifacts_from_events(&collection.events, config, expected_top_level, validations);
    let ghost f0 = failures@;
    let ghost f1 = artifact_fails@;
    failures.append(&mut artifact_fails);
    proof {
        assert(failures@ == f0 + f1);
        assert(f0.map_values(|f: JailgunFailure| failure_view(f)) =~= orchestrator_failures(collection.summary.failures@));
        assert(failures@.map_values(|f: JailgunFailure| failure_view(f)) =~= f0.map_values(
            |f: JailgunFailure| failure_view(f),
        ) + f1.map_values(|f: JailgunFailure| failure_view(f)));
    }
    let changed_files = changed_file_union(&artifacts);
    let receipt_paths = receipt_paths_from_events(&collection.events);
    let deploy_status = deploy_status_from_events(&collection.events, config.deploy.enabled);
    let ci_status = ci_status_from_events(&collection.events, request.ci.enabled);
    let status = if collection.timed_out {
        owned("timed-out")
    } else if failures.len() == 0 {
        owned("succeeded")
    } else {
        owned("failed")
    };
    let repository = match &request.repo.repository {
        Some(x) => Some(x.clone()),
        None => Some(repo_url.to_string()),
    };
    let ref_name = match &request.repo.ref_name {
        Some(x) => Some(x.clone()),
        None => Some(config.source_archive.ref_name.clone()),
    };
    let repo_ref = JailgunRepoRef {
        repository,
        ref_name,
        base_sha: clone_opt(&request.repo.base_sha),
        head_sha: clone_opt(&request.repo.head_sha),
    };
    JailgunAgentRunSummary {
        version: JAILGUN_AGENT_INTERFACE_VERSION,
        run_id: collection.summary.run_id,
        status,
        prompt_ref: request.prompt_ref.clone(),
        tab_count,
        max_runtime_seconds,
        repo_ref,
        source_archive: JailgunSourceArchiveSummary {
            enabled: config.source_archive.enabled,
            repo_url: repo_url.to_string(),
            ref_name: config.source_archive.ref_name.clone(),
            prefix: config.source_archive.prefix.clone(),
            archive_filename: config.source_archive.archive_filename.clone(),
        },
        deploy_status,
        ci_status,
        changed_files,
        artifacts,
        failures,
        events_jsonl: events_jsonl.to_string(),
        receipt_paths,
        started_at,
        finished_at,
        denied_github_prompts: collection.summary.denied_github_prompts,
        allowed_info_prompts: collection.summary.allowed_info_prompts,
        github_write_prompts_allowed: request.github.allow_write_prompts,
    }
}

// ---------------------------------------------------------------------
// Preparing a run from a request
// ---------------------------------------------------------------------

/// The settings a request fixes for a run: its tab count, its time
/// limit, and the configuration as the request adjusts it.
pub struct AgentRunSettings {
    pub config: JailgunConfig,
    pub tabs: u16,
    pub max_runtime_seconds: u64,
}

/// The configuration a request makes of the loaded one `config`: the
/// source archive switch and ref (the archive's own ref, else the
/// repository's, else the configured one), the deploy switches (a
/// disabled deploy always runs dry), and the GitHub prompt policy (the
/// request's repositories when it names any); every other setting is the
/// loaded one.
pub open spec fn applies_request(c: JailgunConfig, config: JailgunConfig, request: JailgunAgentRunRequest) -> bool {
    &&& c.source_archive.enabled == match request.source_archive.enabled {
        Some(e) => e,
        None => config.source_archive.enabled,
    }
    &&& c.source_archive.ref_name == match request.source_archive.ref_name {
        Some(x) => x,
        None => match request.repo.ref_name {
            Some(x) => x,
            None => config.source_archive.ref_name,
        },
    }
    &&& c.deploy.enabled == request.deploy.enabled
    &&& c.deploy.dry_run == (!request.deploy.enabled || request.deploy.dry_run)
    &&& c.prompt_policy.deny_github_write_by_default == !request.github.allow_write_prompts
    &&& c.prompt_policy.allow_info_prompts == request.github.allow_info_prompts
    &&& views(c.prompt_policy.allowed_repositories@) == if request.github.allowed_repositories@.len() > 0 {
        views(request.github.allowed_repositories@)
    } else {
        views(config.prompt_policy.allowed_repositories@)
    }
    &&& c.project == config.project
    &&& c.paths == config.paths
    &&& c.browser == config.browser
    &&& c.source_archive.repo_url_env == config.source_archive.repo_url_env
    &&& c.source_archive.prefix == config.source_archive.prefix
    &&& c.source_archive.archive_filename == config.source_archive.archive_filename
    &&& c.source_archive.delete_after_upload == config.source_archive.delete_after_upload
    &&& c.deploy.remote_host_env == config.deploy.remote_host_env
    &&& c.deploy.remote_dir_env == config.deploy.remote_dir_env
    &&& c.deploy.remote_command_env == config.deploy.remote_command_env
    &&& c.deploy.remote_strip_components == config.deploy.remote_strip_components
    &&& c.deploy.remote_cleanup_policy == config.deploy.remote_cleanup_policy
    &&& c.deploy.remote_status_poll_seconds == config.deploy.remote_status_poll_seconds
}

/// Two configurations with the same settings.
pub open spec fn same_config(a: JailgunConfig, b: JailgunConfig) -> bool {
    &&& a.project == b.project
    &&& a.paths == b.paths
    &&& a.browser == b.browser
    &&& a.deploy == b.deploy
    &&& a.source_archive == b.source_archive
    &&& a.prompt_policy.deny_github_write_by_default == b.prompt_policy.deny_github_write_by_default
    &&& a.prompt_policy.allow_info_prompts == b.prompt_policy.allow_info_prompts
    &&& a.prompt_policy.allowed_repositories@ == b.prompt_policy.allowed_repositories@
}

/// Checks a request against the loaded configuration and adjusts the
/// configuration to it: the source archive switch and ref (the archive's
/// own ref, else the repository's), the deploy switches (a disabled
/// deploy always runs dry), and the GitHub prompt policy.
pub fn apply_agent_request(config: JailgunConfig, request: &JailgunAgentRunRequest) -> (r: Result<AgentRunSettings, String>)
    ensures
        validate_spec(*request, config.browser.tabs) is Err ==> (r matches Err(m) && Err::<(), Seq<char>>(m@) == validate_spec(*request, config.browser.tabs)),
        validate_spec(*request, config.browser.tabs) is Ok ==> (r matches Ok(s) && {
            &&& Ok::<u16, Seq<char>>(s.tabs) == effective_tabs_spec(request.tabs, config.browser.tabs)
            &&& Ok::<u64, Seq<char>>(s.max_runtime_seconds) == effective_runtime_spec(request.max_runtime_seconds)
            &&& applies_request(s.config, config, *request)
        }),
{
    match request.validate_for_config_tabs(config.browser.tabs) {
        Ok(()) => {},
        Err(e) => {
            return Err(e);
        },
    }
    let tabs = match request.effective_tabs(config.browser.tabs) {
        Ok(t) => t,
        Err(e) => {
            return Err(e);
        },
    };
    let max_runtime_seconds = match request.effective_max_runtime_seconds() {
        Ok(t) => t,
        Err(e) => {
            return Err(e);
        },
    };
    let mut config = config;
    match request.source_archive.enabled {
        Some(e) => {
            config.source_archive.enabled = e;
        },
        None => {},
    }
    match &request.source_archive.ref_name {
        Some(x) => {
            config.source_archive.ref_name = x.clone();
        },
        None => match &request.repo.ref_name {
            Some(x) => {
                config.source_archive.ref_name = x.clone();
            },
            None => {},
        },
    }
    config.deploy.enabled = request.deploy.enabled;
    config.deploy.dry_run = !request.deploy.enabled || request.deploy.dry_run;
    config.prompt_policy.deny_github_write_by_default = !request.github.allow_write_prompts;
    config.prompt_policy.allow_info_prompts = request.github.allow_info_prompts;
    if request.github.allowed_repositories.len() > 0 {
        config.prompt_policy.allowed_repositories = copy_strings(&request.github.allowed_repositories);
    }
    Ok(AgentRunSettings { config, tabs, max_runtime_seconds })
}

/// The repository a run archives: the request's archive URL, else its
/// repository, else the environment's value, else the configured one.
pub fn agent_repo_url(request: &JailgunAgentRunRequest, env_repo_url: Option<String>, config: &JailgunConfig) -> (r: String)
    ensures
        r@ == match request.source_archive.repo_url {
            Some(x) => x@,
            None => match request.repo.repository {
                Some(x) => x@,
                None => match env_repo_url {
                    Some(x) => x@,
                    None => config.project.repository@,
                },
            },
        },
{
    match &request.source_archive.repo_url {
        Some(x) => x.clone(),
        None => match &request.repo.repository {
            Some(x) => x.clone(),
            None => match env_repo_url {
                Some(x) => x,
                None => config.project.repository.clone(),
            },
        },
    }
}

/// The top level a run's archives must have: the deploy's, else the
/// source archive's.
pub fn agent_expected_top_level(request: &JailgunAgentRunRequest) -> (r: Option<String>)
    ensures
        r == match request.deploy.expected_top_level {
            Some(x) => Some(x),
            None => request.source_archive.expected_top_level,
        },
{
    match &request.deploy.expected_top_level {
        Some(x) => Some(x.clone()),
        None => clone_opt(&request.source_archive.expected_top_level),
    }
}

/// The options of an orchestrator run for a prepared request: the
/// request's tab count and time limit, its CI settings (branch `main`, 20
/// attempts 30 s apart unless given), a buffer of 1024 events and one
/// deploy at a time unless given, and no deploy unless the configuration
/// enables it.
pub fn agent_run_options(
    request: &JailgunAgentRunRequest,
    settings: AgentRunSettings,
    run_id: String,
    prompt_text: String,
    profile_dir: String,
    downloads_dir: String,
    artifacts_dir: String,
    bridge_cmd: Vec<String>,
    bridge_env: FieldMap,
    repo_url: String,
    deploy_remote_host: Option<String>,
    deploy_remote_dir: Option<String>,
    deploy_remote_command: Option<String>,
) -> (r: RunOptions)
    ensures
        r.run_id == run_id,
        r.config == settings.config,
        r.prompt_text == prompt_text,
        r.tabs_override == Some(settings.tabs),
        r.initial_tab_burst is None,
        r.loop_count == 0,
        r.no_deploy == !settings.config.deploy.enabled,
        r.dry_run == settings.config.deploy.dry_run,
        r.profile_dir == profile_dir,
        r.profile_pool@.len() == 0,
        r.downloads_dir == downloads_dir,
        r.artifacts_dir == artifacts_dir,
        r.bridge_cmd == bridge_cmd,
        r.bridge_env == bridge_env,
        r.repo_url == repo_url,
        !r.fresh_source_clone,
        r.deploy_remote_host == deploy_remote_host,
        r.deploy_remote_dir == deploy_remote_dir,
        r.deploy_remote_command == deploy_remote_command,
        r.deploy_expected_top_level == match request.deploy.expected_top_level {
            Some(x) => Some(x),
            None => request.source_archive.expected_top_level,
        },
        r.ci_tracker_enabled == request.ci.enabled,
        crate::text::opt_view(r.ci_repo) == match request.ci.repo {
            Some(x) => Some(x@),
            None => crate::cli::github_repo_spec(repo_url@),
        },
        r.ci_branch@ == match request.ci.branch {
            Some(b) => b@,
            None => "main"@,
        },
        r.ci_max_attempts == match request.ci.max_attempts {
            Some(n) => n,
            None => 20u32,
        },
        r.ci_poll_seconds == match request.ci.poll_seconds {
            Some(n) => n,
            None => 30u16,
        },
        r.status_max_minutes == runtime_minutes_spec(settings.max_runtime_seconds),
        r.event_buffer == match request.browser.event_buffer {
            Some(n) => n,
            None => 1024usize,
        },
        r.deploy_concurrency == match request.browser.deploy_concurrency {
            Some(n) => n,
            None => 1u16,
        },
{
    let ci_repo = match &request.ci.repo {
        Some(x) => Some(x.clone()),
        None => crate::cli::infer_github_repo(repo_url.as_str()),
    };
    let ci_branch = match &request.ci.branch {
        Some(b) => b.clone(),
        None => owned("main"),
    };
    let no_deploy = !settings.config.deploy.enabled;
    let dry_run = settings.config.deploy.dry_run;
    RunOptions {
        run_id,
        config: settings.config,
        prompt_text,
        tabs_override: Some(settings.tabs),
        initial_tab_burst: None,
        loop_count: 0,
        no_deploy,
        dry_run,
        profile_dir,
        profile_pool: Vec::new(),
        downloads_dir,
        artifacts_dir,
        bridge_cmd,
        bridge_env,
        repo_url,
        fresh_source_clone: false,
        deploy_remote_host,
        deploy_remote_dir,
        deploy_remote_command,
        deploy_expected_top_level: agent_expected_top_level(request),
        ci_tracker_enabled: request.ci.enabled,
        ci_repo,
        ci_branch,
        ci_max_attempts: match request.ci.max_attempts {
            Some(n) => n,
            None => 20,
        },
        ci_poll_seconds: match request.ci.poll_seconds {
            Some(n) => n,
            None => 30,
        },
        status_max_minutes: max_runtime_minutes(settings.max_runtime_seconds),
        event_buffer: match request.browser.event_buffer {
            Some(n) => n,
            None => 1024,
        },
        deploy_concurrency: match request.browser.deploy_concurrency {
            Some(n) => n,
            None => 1,
        },
    }
}

// ---------------------------------------------------------------------
// Review packets
// ---------------------------------------------------------------------

/// The plain view of an artifact.
pub open spec fn artifact_view(a: JailgunArtifact) -> (Seq<char>, Seq<char>, Option<Seq<char>>, Option<u64>, Option<Seq<char>>, Option<(u64, usize, Seq<Seq<char>>, Seq<Seq<char>>, Option<Seq<char>>)>, Seq<Seq<char>>) {
    (
        a.kind@,
        a.path@,
        crate::text::opt_view(a.sha256),
        a.size_bytes,
        crate::text::opt_view(a.receipt_path),
        match a.tar_validation {
            Some(t) => Some(tar_view(t)),
            None => None,
        },
        views(a.changed_files@),
    )
}

fn copy_artifact(a: &JailgunArtifact) -> (r: JailgunArtifact)
    ensures
        artifact_view(r) == artifact_view(*a),
{
    let tar_validation = match &a.tar_validation {
        Some(t) => Some(copy_validation(t)),
        None => None,
    };
    let changed_files = copy_strings(&a.changed_files);
    JailgunArtifact {
        kind: a.kind.clone(),
        path: a.path.clone(),
        sha256: clone_opt(&a.sha256),
        size_bytes: a.size_bytes,
        receipt_path: clone_opt(&a.receipt_path),
        tar_validation,
        changed_files,
    }
}

fn copy_artifacts(v: &Vec<JailgunArtifact>) -> (r: Vec<JailgunArtifact>)
    ensures
        r@.len() == v@.len(),
        forall|i: int| 0 <= i < r@.len() ==> artifact_view(#[trigger] r@[i]) == artifact_view(v@[i]),
{
    let mut r: Vec<JailgunArtifact> = Vec::new();
    let mut i: usize = 0;
    while i < v.len()
        invariant
            i <= v.len(),
            r@.len() == i,
            forall|k: int| 0 <= k < i ==> artifact_view(#[trigger] r@[k]) == artifact_view(v@[k]),
        decreases v.len() - i,
    {
        r.push(copy_artifact(&v[i]));
        i += 1;
    }
    r
}

/// The paths of the changed files that are tests, in order.
pub open spec fn test_paths(files: Seq<(Seq<char>, Seq<char>, Option<Seq<char>>)>) -> Seq<Seq<char>>
    decreases files.len(),
{
    if files.len() == 0 {
        Seq::empty()
    } else {
        let rest = test_paths(files.drop_last());
        if is_test_path_spec(files.last().1) {
            rest.push(files.last().1)
        } else {
            rest
        }
    }
}

fn changed_tests_of(files: &Vec<JailgunChangedFile>) -> (r: Vec<String>)
    ensures
        views(r@) == test_paths(files@.map_values(|f: JailgunChangedFile| changed_view(f))),
{
    let ghost fv = files@.map_values(|f: JailgunChangedFile| changed_view(f));
    let mut r: Vec<String> = Vec::new();
    let mut i: usize = 0;
    assert(fv.take(0) =~= Seq::<(Seq<char>, Seq<char>, Option<Seq<char>>)>::empty());
    while i < files.len()
        invariant
            i <= files.len(),
            fv == files@.map_values(|f: JailgunChangedFile| changed_view(f)),
            views(r@) == test_paths(fv.take(i as int)),
        decreases files.len() - i,
    {
        assert(fv.take(i + 1).drop_last() =~= fv.take(i as int));
        assert(fv.take(i + 1).last() == changed_view(files@[i as int]));
        if is_test_path(files[i].path.as_str()) {
            let ghost r0 = views(r@);
            r.push(files[i].path.clone());
            assert(views(r@) =~= r0.push(files@[i as int].path@));
        }
        i += 1;
    }
    assert(fv.take(fv.len() as int) == fv);
    r
}

/// The review packet of a run between two commits, from the run's summary
/// and what `git` printed: the commits, the diff stat, the changed files
/// (with the tests among them), the patch capped at `patch_bytes`, the
/// run's artifacts and receipts, and where it all came from.
pub fn build_review_packet(
    summary: JailgunAgentRunSummary,
    summary_json: &str,
    repo: &str,
    base_rev_output: &str,
    head_rev_output: &str,
    diff_stat: String,
    name_status_text: &str,
    patch_text: String,
    patch_bytes: usize,
    generated_at: String,
) -> (r: JailgunReviewPacket)
    ensures
        r.version == JAILGUN_AGENT_INTERFACE_VERSION,
        r.generated_at == generated_at,
        r.run_id == summary.run_id,
        r.prompt_ref == summary.prompt_ref,
        r.base_sha@ == trim_seq(base_rev_output@),
        r.head_sha@ == trim_seq(head_rev_output@),
        r.diff_stat == diff_stat,
        r.name_status@.map_values(|f: JailgunChangedFile| changed_view(f)) == name_status_spec(lines_seq(name_status_text@)),
        r.patch@ == cap_utf8_spec(patch_text@, patch_bytes as nat),
        views(r.changed_tests@) == test_paths(name_status_spec(lines_seq(name_status_text@))),
        r.artifacts@.len() == summary.artifacts@.len(),
        forall|i: int| 0 <= i < r.artifacts@.len() ==> artifact_view(#[trigger] r.artifacts@[i]) == artifact_view(summary.artifacts@[i]),
        views(r.receipt_paths@) == views(summary.receipt_paths@),
        r.summary == summary,
        r.source_metadata.wf(),
        r.source_metadata@ == map![
            "repo_path"@ => repo@,
            "summary_json"@ => summary_json@,
            "events_jsonl"@ => summary.events_jsonl@,
            "interface_version"@ => decimal(JAILGUN_AGENT_INTERFACE_VERSION as nat),
        ],
{
    let base_sha = crate::text::trim(base_rev_output);
    let head_sha = crate::text::trim(head_rev_output);
    let patch = cap_utf8(patch_text, patch_bytes);
    let name_status = parse_name_status(name_status_text);
    let changed_tests = changed_tests_of(&name_status);
    let mut source_metadata = FieldMap::new();
    source_metadata.insert(owned("repo_path"), owned(repo));
    source_metadata.insert(owned("summary_json"), owned(summary_json));
    source_metadata.insert(owned("events_jsonl"), summary.events_jsonl.clone());
    source_metadata.insert(owned("interface_version"), crate::text::decimal_string(JAILGUN_AGENT_INTERFACE_VERSION as u64));
    assert(source_metadata@ =~= map![
        "repo_path"@ => repo@,
        "summary_json"@ => summary_json@,
        "events_jsonl"@ => summary.events_jsonl@,
        "interface_version"@ => decimal(JAILGUN_AGENT_INTERFACE_VERSION as nat),
    ]);
    let artifacts = copy_artifacts(&summary.artifacts);
    let receipt_paths = copy_strings(&summary.receipt_paths);
    JailgunReviewPacket {
        version: JAILGUN_AGENT_INTERFACE_VERSION,
        generated_at,
        run_id: summary.run_id.clone(),
        prompt_ref: summary.prompt_ref.clone(),
        base_sha,
        head_sha,
        diff_stat,
        name_status,
        patch,
        changed_tests,
        artifacts,
        receipt_paths,
        summary,
        source_metadata,
    }
}

// ---------------------------------------------------------------------
// A prepared run
// ---------------------------------------------------------------------

/// Where an agent run writes its events and its summary.
#[derive(Debug, Clone, PartialEq, Eq)]
pub struct AgentRunPaths {
    pub events_jsonl: String,
    pub summary_json: String,
}

/// Everything a run needs before it starts.
pub struct PreparedAgentRun {
    pub request: JailgunAgentRunRequest,
    pub config: JailgunConfig,
    pub repo_url: String,
    pub tabs: u16,
    pub max_runtime_seconds: u64,
    pub deploy_expected_top_level: Option<String>,
    pub started_at: String,
    pub prompt_text: String,
    pub output_paths: AgentRunPaths,
    pub opts: RunOptions,
}

/// What the environment and the machine give a run: the values of the
/// variables the configuration names, and the default directories.
pub struct AgentRunEnvironment {
    pub repo_url: Option<String>,
    pub downloads_dir: Option<String>,
    pub profile_dir: Option<String>,
    pub remote_host: Option<String>,
    pub remote_dir: Option<String>,
    pub remote_command: Option<String>,
    pub default_profile_dir: String,
    pub default_state_dir: String,
    pub default_run_id: String,
    pub bridge_cmd: Vec<String>,
}

/// A value needed only when deploying.
fn deploy_setting(enabled: bool, arg: Option<String>, env_value: Option<String>, env_name: &str, label: &str) -> (r: Result<Option<String>, String>)
    ensures
        !enabled ==> r == Ok::<Option<String>, String>(None),
        enabled ==> match arg {
            Some(a) => r == Ok::<Option<String>, String>(Some(a)),
            None => match env_value {
                Some(v) => r == Ok::<Option<String>, String>(Some(v)),
                None => r matches Err(m) && m@ == "missing "@ + label@ + ": pass it explicitly or set "@ + env_name@,
            },
        },
{
    if !enabled {
        return Ok(None);
    }
    match crate::cli::arg_or_env(arg, env_value, env_name, label) {
        Ok(v) => Ok(Some(v)),
        Err(e) => Err(e),
    }
}

/// A value the request gives, else one from the environment.
pub open spec fn request_or_env(arg: Option<String>, env_value: Option<String>) -> Option<Seq<char>> {
    match arg {
        Some(a) => Some(a@),
        None => match env_value {
            Some(v) => Some(v@),
            None => None,
        },
    }
}

/// The artifacts directory of an agent run: the request's, else the
/// configured one.
pub open spec fn agent_artifacts_dir(request: JailgunAgentRunRequest, config: JailgunConfig) -> Seq<char> {
    match request.browser.artifacts_dir {
        Some(d) => d@,
        None => config.paths.artifacts_dir@,
    }
}

/// Why an agent run cannot be prepared: the request breaks a rule, or the
/// run deploys and its remote host, directory or command is given neither
/// by the request nor by the environment.
pub open spec fn prepare_error(request: JailgunAgentRunRequest, config: JailgunConfig, env: AgentRunEnvironment) -> Option<Seq<char>> {
    if validate_spec(request, config.browser.tabs) is Err {
        Some(validate_spec(request, config.browser.tabs)->Err_0)
    } else if request.deploy.enabled && request_or_env(request.deploy.remote_host, env.remote_host) is None {
        Some("missing "@ + "remote host"@ + ": pass it explicitly or set "@ + config.deploy.remote_host_env@)
    } else if request.deploy.enabled && request_or_env(request.deploy.remote_dir, env.remote_dir) is None {
        Some("missing "@ + "remote dir"@ + ": pass it explicitly or set "@ + config.deploy.remote_dir_env@)
    } else if request.deploy.enabled && request_or_env(request.deploy.remote_command, env.remote_command) is None {
        Some("missing "@ + "remote command"@ + ": pass it explicitly or set "@ + config.deploy.remote_command_env@)
    } else {
        None
    }
}

/// Prepares a run from a request and the loaded configuration: the
/// request is checked and applied to the configuration, the repository,
/// directories and bridge environment are resolved (the request first,
/// then the environment, then defaults), and the deploy target is
/// required only when the run deploys.
pub fn prepare_agent_run(
    request: JailgunAgentRunRequest,
    config: JailgunConfig,
    output_paths: AgentRunPaths,
    prompt_text: String,
    env: AgentRunEnvironment,
    started_at: String,
) -> (r: Result<PreparedAgentRun, String>)
    requires
        request.browser.bridge_env.wf(),
    ensures
        validate_spec(request, config.browser.tabs) is Err ==> (r matches Err(m) && Err::<(), Seq<char>>(m@) == validate_spec(request, config.browser.tabs)),
        r matches Ok(p) ==> {
            &&& validate_spec(request, config.browser.tabs) is Ok
            &&& p.request == request
            &&& p.output_paths == output_paths
            &&& p.prompt_text == prompt_text
            &&& p.started_at == started_at
            &&& Ok::<u16, Seq<char>>(p.tabs) == effective_tabs_spec(request.tabs, config.browser.tabs)
            &&& Ok::<u64, Seq<char>>(p.max_runtime_seconds) == effective_runtime_spec(request.max_runtime_seconds)
            &&& p.config.deploy.enabled == request.deploy.enabled
            &&& p.config.deploy.dry_run == (!request.deploy.enabled || request.deploy.dry_run)
            &&& p.repo_url@ == match request.source_archive.repo_url {
                Some(x) => x@,
                None => match request.repo.repository {
                    Some(x) => x@,
                    None => match env.repo_url {
                        Some(x) => x@,
                        None => config.project.repository@,
                    },
                },
            }
            &&& p.deploy_expected_top_level == match request.deploy.expected_top_level {
                Some(x) => Some(x),
                None => request.source_archive.expected_top_level,
            }
            &&& p.opts.run_id == match request.run_id {
                Some(id) => id,
                None => env.default_run_id,
            }
            &&& p.opts.tabs_override == Some(p.tabs)
            &&& applies_request(p.config, config, request)
            &&& same_config(p.opts.config, p.config)
            &&& p.opts.repo_url == p.repo_url
            &&& p.opts.bridge_cmd == env.bridge_cmd
            &&& (!request.deploy.enabled ==> p.opts.deploy_remote_host is None && p.opts.deploy_remote_dir is None
                && p.opts.deploy_remote_command is None)
            &&& (request.deploy.enabled ==> p.opts.deploy_remote_host is Some && p.opts.deploy_remote_dir is Some
                && p.opts.deploy_remote_command is Some)
            &&& p.opts.bridge_env.wf()
            &&& p.opts.prompt_text == prompt_text
            &&& p.opts.no_deploy == !request.deploy.enabled
            &&& p.opts.dry_run == (!request.deploy.enabled || request.deploy.dry_run)
            &&& p.opts.loop_count == 0
            &&& p.opts.artifacts_dir@ == agent_artifacts_dir(request, config)
            &&& p.opts.downloads_dir@ == match request_or_env(request.browser.downloads_dir, env.downloads_dir) {
                Some(d) => d,
                None => crate::text::path_join(agent_artifacts_dir(request, config), "downloads"@),
            }
            &&& p.opts.profile_dir@ == match request_or_env(request.browser.profile_dir, env.profile_dir) {
                Some(d) => d,
                None => env.default_profile_dir@,
            }
            &&& p.opts.bridge_env@ == crate::cli::bridge_env_spec(
                request.browser.bridge_env@,
                p.opts.downloads_dir@,
                p.opts.artifacts_dir@,
                crate::text::opt_view(request.source_archive.tar_target_name),
                config.browser.profile_dir_env@,
                p.opts.profile_dir@,
                config.browser.state_dir_env@,
                env.default_state_dir@,
            )
            &&& (request.deploy.enabled ==> {
                &&& crate::text::opt_view(p.opts.deploy_remote_host) == request_or_env(request.deploy.remote_host, env.remote_host)
                &&& crate::text::opt_view(p.opts.deploy_remote_dir) == request_or_env(request.deploy.remote_dir, env.remote_dir)
                &&& crate::text::opt_view(p.opts.deploy_remote_command) == request_or_env(request.deploy.remote_command, env.remote_command)
            })
            &&& p.opts.ci_tracker_enabled == request.ci.enabled
            &&& crate::text::opt_view(p.opts.ci_repo) == match request.ci.repo {
                Some(x) => Some(x@),
                None => crate::cli::github_repo_spec(p.repo_url@),
            }
            &&& p.opts.ci_branch@ == match request.ci.branch {
                Some(b) => b@,
                None => "main"@,
            }
            &&& p.opts.ci_max_attempts == match request.ci.max_attempts {
                Some(n) => n,
                None => 20u32,
            }
            &&& p.opts.ci_poll_seconds == match request.ci.poll_seconds {
                Some(n) => n,
                None => 30u16,
            }
            &&& p.opts.status_max_minutes == runtime_minutes_spec(p.max_runtime_seconds)
            &&& p.opts.event_buffer == match request.browser.event_buffer {
                Some(n) => n,
                None => 1024usize,
            }
            &&& p.opts.deploy_concurrency == match request.browser.deploy_concurrency {
                Some(n) => n,
                None => 1u16,
            }
        },
        match prepare_error(request, config, env) {
            Some(m) => r matches Err(e) && e@ == m,
            None => r is Ok,
        },
{
    let settings = match apply_agent_request(config, &request) {
        Ok(s) => s,
        Err(e) => {
            return Err(e);
        },
    };
    let config = &settings.config;
    let artifacts_dir = match &request.browser.artifacts_dir {
        Some(d) => d.clone(),
        None => config.paths.artifacts_dir.clone(),
    };
    let downloads_default = crate::text::join_path(artifacts_dir.as_str(), "downloads");
    let downloads_dir = crate::cli::arg_or_env_or_default(
        clone_opt(&request.browser.downloads_dir),
        env.downloads_dir,
        downloads_default,
    );
    let profile_dir = crate::cli::arg_or_env_or_default(
        clone_opt(&request.browser.profile_dir),
        env.profile_dir,
        env.default_profile_dir,
    );
    let repo_url = agent_repo_url(&request, env.repo_url, config);
    let enabled = config.deploy.enabled;
    let remote_host = match deploy_setting(enabled, clone_opt(&request.deploy.remote_host), env.remote_host, config.deploy.remote_host_env.as_str(), "remote host") {
        Ok(v) => v,
        Err(e) => {
            return Err(e);
        },
    };
    let remote_dir = match deploy_setting(enabled, clone_opt(&request.deploy.remote_dir), env.remote_dir, config.deploy.remote_dir_env.as_str(), "remote dir") {
        Ok(v) => v,
        Err(e) => {
            return Err(e);
        },
    };
    let remote_command = match deploy_setting(enabled, clone_opt(&request.deploy.remote_command), env.remote_command, config.deploy.remote_command_env.as_str(), "remote command") {
        Ok(v) => v,
        Err(e) => {
            return Err(e);
        },
    };
    let bridge_env = crate::cli::complete_bridge_env(
        request.browser.bridge_env.duplicate(),
        downloads_dir.as_str(),
        artifacts_dir.as_str(),
        clone_opt(&request.source_archive.tar_target_name),
        config.browser.profile_dir_env.as_str(),
        profile_dir.as_str(),
        config.browser.state_dir_env.as_str(),
        env.default_state_dir.as_str(),
    );
    let run_id = match &request.run_id {
        Some(id) => id.clone(),
        None => env.default_run_id,
    };
    let config_copy = config.duplicate();
    let tabs = settings.tabs;
    let max_runtime_seconds = settings.max_runtime_seconds;
    let repo_copy = repo_url.clone();
    let opts = agent_run_options(
        &request,
        settings,
        run_id,
        prompt_text.clone(),
        profile_dir,
        downloads_dir,
        artifacts_dir,
        env.bridge_cmd,
        bridge_env,
        repo_copy,
        remote_host,
        remote_dir,
        remote_command,
    );
    let deploy_expected_top_level = agent_expected_top_level(&request);
    Ok(PreparedAgentRun {
        request,
        config: config_copy,
        repo_url,
        tabs,
        max_runtime_seconds,
        deploy_expected_top_level,
        started_at,
        prompt_text,
        output_paths,
        opts,
    })
}

/// Receives what an agent run produces, as it is produced.
pub trait AgentRunEventSink {
    /// One event of the run; nothing by default.
    fn on_event(&self, event: &JailgunEvent) -> (r: Result<(), String>)
        default_ensures
            r == Ok::<(), String>(()),
    {
        Ok(())
    }

    /// The summary of the finished run; nothing by default.
    fn on_summary(&self, summary: &JailgunAgentRunSummary) -> (r: Result<(), String>)
        default_ensures
            r == Ok::<(), String>(()),
    {
        Ok(())
    }
}

/// A sink that keeps nothing.
pub struct NoopAgentRunEventSink;

impl AgentRunEventSink for NoopAgentRunEventSink {}

/// The backend that starts runs with the real orchestrator.
pub struct DefaultAgentRunBackend;

proof fn lemma_archive_events_prefix(evs: Seq<JailgunEvent>, k: int)
    requires
        0 <= k <= evs.len(),
    ensures
        archive_events(evs.take(k)).len() <= archive_events(evs).len(),
        archive_events(evs.take(k)) == archive_events(evs).take(archive_events(evs.take(k)).len() as int),
    decreases evs.len() - k,
{
    if k < evs.len() {
        lemma_archive_events_prefix(evs, k + 1);
        assert(evs.take(k + 1).drop_last() == evs.take(k));
        let a = archive_events(evs.take(k));
        let b = archive_events(evs.take(k + 1));
        let full = archive_events(evs);
        assert(b == full.take(b.len() as int));
        if b.len() == a.len() + 1 {
            assert(a == b.drop_last());
            assert(full.take(a.len() as int) == b.take(a.len() as int));
        } else {
            assert(a == b);
        }
    } else {
        assert(evs.take(k) == evs);
    }
}

} // verus!
