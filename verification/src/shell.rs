//! The remote side over SSH and the `gh` CLI: the commands sent to the
//! remote host, quoted for its shell, and how their output is read.
use vstd::prelude::*;
use crate::cleanup::RemoteSnapshot;
use crate::deploy::{job_id, job_id_spec, CiState, JobHandle};
use crate::text::{
    chars_of, decimal, lines_of, lines_seq, occurs_at, owned, push_decimal, push_str,
    replace_all, replace_seq, starts_with, str_eq, str_starts_with, string_of_range, trim, trim_seq,
    views,
};

verus! {

// ---------------------------------------------------------------------
// Quoting and commands
// ---------------------------------------------------------------------

/// A value quoted for a POSIX shell: in single quotes, each single quote
/// written as `'\''`.
pub open spec fn shell_quote_spec(v: Seq<char>) -> Seq<char> {
    "'"@ + replace_seq(v, "'"@, "'\\''"@) + "'"@
}

/// Quotes a value for the remote shell.
pub fn shell_quote(value: &str) -> (r: String)
    ensures
        r@ == shell_quote_spec(value@),
{
    let mut r = owned("'");
    let inner = replace_all(value, "'", "'\\''");
    push_str(&mut r, inner.as_str());
    push_str(&mut r, "'");
    r
}

/// Whether a path is absolute.
pub fn ensure_absolute(path: &str) -> (r: bool)
    ensures
        r == (path@.len() > 0 && path@[0] == '/'),
{
    let v = chars_of(path);
    v.len() > 0 && v[0] == '/'
}

/// `<prefix><quoted value><suffix>`.
fn quoted_command(prefix: &str, value: &str, suffix: &str) -> (r: String)
    ensures
        r@ == prefix@ + shell_quote_spec(value@) + suffix@,
{
    let mut r = owned(prefix);
    let q = shell_quote(value);
    push_str(&mut r, q.as_str());
    push_str(&mut r, suffix);
    r
}

/// Git on the remote host, with receipts written locally.
#[derive(Debug)]
pub struct SshRemoteGit {
    pub host: String,
    pub receipt_dir: String,
}

/// The script that prints the remote head, origin's main, and the short
/// status after a `__STATUS__` line.
pub const SNAPSHOT_SCRIPT: &'static str = "printf 'head=%s\\n' \"$(git rev-parse HEAD 2>/dev/null || true)\"; printf 'origin_main=%s\\n' \"$(git rev-parse origin/main 2>/dev/null || true)\"; printf '__STATUS__\\n'; git status --short 2>/dev/null || true";

impl SshRemoteGit {
    /// Git on `host`, with receipts under `receipt_dir`.
    pub fn new(host: String, receipt_dir: String) -> (g: SshRemoteGit)
        ensures
            g.host == host,
            g.receipt_dir == receipt_dir,
    {
        SshRemoteGit { host, receipt_dir }
    }

    /// A script run inside the remote checkout.
    pub fn script_in(remote_dir: &str, script: &str) -> (r: String)
        ensures
            r@ == "cd "@ + shell_quote_spec(remote_dir@) + " && "@ + script@,
    {
        quoted_command("cd ", remote_dir, {
            let mut s = owned(" && ");
            push_str(&mut s, script);
            s
        }.as_str())
    }

    /// The command that records `sha` under `ref_name`.
    pub fn create_ref_script(ref_name: &str, sha: &str) -> (r: String)
        ensures
            r@ == "git update-ref "@ + shell_quote_spec(ref_name@) + " "@ + shell_quote_spec(sha@),
    {
        let mut r = quoted_command("git update-ref ", ref_name, " ");
        let q = shell_quote(sha);
        push_str(&mut r, q.as_str());
        r
    }

    /// The command that resets the checkout to `target` and removes
    /// untracked files.
    pub fn reset_script(target: &str) -> (r: String)
        ensures
            r@ == "git reset --hard "@ + shell_quote_spec(target@) + " && git clean -fd"@,
    {
        quoted_command("git reset --hard ", target, " && git clean -fd")
    }

    /// Where a cleanup receipt goes when it names no path.
    pub fn default_receipt_path(&self, run_id: &str) -> (r: String)
        ensures
            r@ == crate::text::path_join(self.receipt_dir@, run_id@ + "-remote-cleanup.json"@),
    {
        let mut name = owned(run_id);
        push_str(&mut name, "-remote-cleanup.json");
        crate::text::join_path(self.receipt_dir.as_str(), name.as_str())
    }
}

/// Uploads over `scp` and SSH.
#[derive(Debug)]
pub struct SshRemoteUpload {
    pub host: String,
}

impl SshRemoteUpload {
    /// Uploads to `host`.
    pub fn new(host: String) -> (u: SshRemoteUpload)
        ensures
            u.host == host,
    {
        SshRemoteUpload { host }
    }

    /// The command that creates the remote upload directory.
    pub fn ensure_dir_command(remote_dir: &str) -> (r: String)
        ensures
            r@ == "mkdir -p "@ + shell_quote_spec(remote_dir@),
    {
        proof {
            reveal_strlit("");
        }
        let r = quoted_command("mkdir -p ", remote_dir, "");
        assert(r@ =~= "mkdir -p "@ + shell_quote_spec(remote_dir@));
        r
    }

    /// The command that prints the SHA-256 of the remote archive.
    pub fn sha256_command(remote_path: &str) -> (r: String)
        ensures
            r@ == "sha256sum "@ + shell_quote_spec(remote_path@) + " | awk '{print $1}'"@,
    {
        quoted_command("sha256sum ", remote_path, " | awk '{print $1}'")
    }

    /// The command that removes the remote archive.
    pub fn remove_command(remote_path: &str) -> (r: String)
        ensures
            r@ == "rm -f "@ + shell_quote_spec(remote_path@),
    {
        proof {
            reveal_strlit("");
        }
        let r = quoted_command("rm -f ", remote_path, "");
        assert(r@ =~= "rm -f "@ + shell_quote_spec(remote_path@));
        r
    }

    /// The `scp` destination of an upload.
    pub fn scp_target(&self, remote_path: &str) -> (r: String)
        ensures
            r@ == self.host@ + ":"@ + remote_path@,
    {
        let mut r = self.host.clone();
        push_str(&mut r, ":");
        push_str(&mut r, remote_path);
        r
    }
}

/// The digest a remote `sha256sum` printed: its first line, trimmed.
pub open spec fn first_line_trimmed(output: Seq<char>) -> Seq<char> {
    let ls = lines_seq(output);
    if ls.len() == 0 {
        Seq::empty()
    } else {
        trim_seq(ls[0])
    }
}

/// Reads the digest a remote `sha256sum` printed.
pub fn parse_remote_sha256(output: &str) -> (r: String)
    ensures
        r@ == first_line_trimmed(output@),
{
    let ls = lines_of(output);
    if ls.len() == 0 {
        String::new()
    } else {
        trim(ls[0].as_str())
    }
}

/// Launched jobs over SSH.
#[derive(Debug)]
pub struct SshRemoteJob {
    pub host: String,
}

impl SshRemoteJob {
    /// Jobs on `host`.
    pub fn new(host: String) -> (j: SshRemoteJob)
        ensures
            j.host == host,
    {
        SshRemoteJob { host }
    }

    /// The files of a job under `/tmp/jailgun-runs/<job>`.
    pub fn job_handle(run_id: &str, tab_id: u16) -> (h: JobHandle)
        ensures
            h.job_id@ == job_id_spec(run_id@, tab_id),
            h.launcher_dir@ == "/tmp/jailgun-runs/"@ + h.job_id@,
            h.launcher_path@ == h.launcher_dir@ + "/launcher.sh"@,
            h.status_path@ == h.launcher_dir@ + "/status.json"@,
            h.log_path@ == h.launcher_dir@ + "/launch.log"@,
            h.failure_marker_path@ == h.launcher_dir@ + "/deploy.failed"@,
    {
        let job = job_id(run_id, tab_id);
        let mut dir = owned("/tmp/jailgun-runs/");
        push_str(&mut dir, job.as_str());
        let mut launcher_path = dir.clone();
        push_str(&mut launcher_path, "/launcher.sh");
        let mut status_path = dir.clone();
        push_str(&mut status_path, "/status.json");
        let mut log_path = dir.clone();
        push_str(&mut log_path, "/launch.log");
        let mut failure_marker_path = dir.clone();
        push_str(&mut failure_marker_path, "/deploy.failed");
        JobHandle { job_id: job, launcher_dir: dir, launcher_path, status_path, log_path, failure_marker_path }
    }

    /// The command that installs the launcher read from standard input.
    pub fn install_command(handle: &JobHandle) -> (r: String)
        ensures
            r@ == "mkdir -p "@ + shell_quote_spec(handle.launcher_dir@) + " && cat > "@ + shell_quote_spec(
                handle.launcher_path@,
            ) + " && chmod +x "@ + shell_quote_spec(handle.launcher_path@),
    {
        let mut r = quoted_command("mkdir -p ", handle.launcher_dir.as_str(), " && cat > ");
        let q = shell_quote(handle.launcher_path.as_str());
        push_str(&mut r, q.as_str());
        push_str(&mut r, " && chmod +x ");
        push_str(&mut r, q.as_str());
        r
    }

    /// The command that starts the launcher in the background.
    pub fn start_command(handle: &JobHandle) -> (r: String)
        ensures
            r@ == "nohup "@ + shell_quote_spec(handle.launcher_path@) + " > "@ + shell_quote_spec(handle.log_path@)
                + " 2>&1 < /dev/null &"@,
    {
        let mut r = quoted_command("nohup ", handle.launcher_path.as_str(), " > ");
        let q = shell_quote(handle.log_path.as_str());
        push_str(&mut r, q.as_str());
        push_str(&mut r, " 2>&1 < /dev/null &");
        r
    }

    /// The command that prints the status file, if any.
    pub fn status_command(handle: &JobHandle) -> (r: String)
        ensures
            r@ == "cat "@ + shell_quote_spec(handle.status_path@) + " 2>/dev/null || true"@,
    {
        quoted_command("cat ", handle.status_path.as_str(), " 2>/dev/null || true")
    }

    /// The command that prints the last lines of the log.
    pub fn log_tail_command(handle: &JobHandle, last_n_lines: u64) -> (r: String)
        ensures
            r@ == "tail -n "@ + decimal(last_n_lines as nat) + " "@ + shell_quote_spec(handle.log_path@)
                + " 2>/dev/null || true"@,
    {
        let mut r = owned("tail -n ");
        push_decimal(&mut r, last_n_lines);
        push_str(&mut r, " ");
        let q = shell_quote(handle.log_path.as_str());
        push_str(&mut r, q.as_str());
        push_str(&mut r, " 2>/dev/null || true");
        r
    }
}

// ---------------------------------------------------------------------
// Reading a snapshot of the remote checkout
// ---------------------------------------------------------------------

/// The first split of `s` around `pat`.
pub open spec fn split_once_str_spec(s: Seq<char>, pat: Seq<char>, r: Option<(Seq<char>, Seq<char>)>) -> bool {
    match r {
        Some((a, b)) => s == a + pat + b && forall|j: int| 0 <= j < a.len() ==> !occurs_at(s, pat, j),
        None => forall|j: int| 0 <= j ==> !occurs_at(s, pat, j),
    }
}

/// `str::split_once` on a pattern.
pub fn split_once_str(s: &str, pat: &str) -> (r: Option<(String, String)>)
    ensures
        split_once_str_spec(s@, pat@, match r {
            Some((a, b)) => Some((a@, b@)),
            None => None,
        }),
{
    let v = chars_of(s);
    let pv = chars_of(pat);
    if pv.len() > v.len() {
        return None;
    }
    let last = v.len() - pv.len();
    let mut i: usize = 0;
    loop
        invariant
            v@ == s@,
            pv@ == pat@,
            last == v.len() - pv.len(),
            i <= last,
            forall|j: int| 0 <= j < i ==> !occurs_at(s@, pat@, j),
        ensures
            forall|j: int| 0 <= j <= last ==> !occurs_at(s@, pat@, j),
        decreases last - i,
    {
        if crate::text::chars_match_at(&v, &pv, i) {
            let a = string_of_range(&v, 0, i);
            let b = string_of_range(&v, i + pv.len(), v.len());
            assert(v@ =~= a@ + pat@ + b@) by {
                assert(v@.subrange(i as int, i + pv@.len()) == pat@);
            }
            return Some((a, b));
        }
        if i == last {
            break;
        }
        i += 1;
    }
    None
}

/// The last value a line of `prefix<value>` gives, trimmed, among lines
/// with a non-blank value.
pub open spec fn last_value(lines: Seq<Seq<char>>, prefix: Seq<char>) -> Option<Seq<char>>
    decreases lines.len(),
{
    if lines.len() == 0 {
        None
    } else {
        let l = lines.last();
        if starts_with(l, prefix) && trim_seq(l.skip(prefix.len() as int)).len() > 0 {
            Some(trim_seq(l.skip(prefix.len() as int)))
        } else {
            last_value(lines.drop_last(), prefix)
        }
    }
}

fn last_value_exec(lines: &Vec<String>, prefix: &str) -> (r: Option<String>)
    ensures
        crate::text::opt_view(r) == last_value(views(lines@), prefix@),
{
    let ghost ls = views(lines@);
    let pn = chars_of(prefix).len();
    let mut out: Option<String> = None;
    let mut i: usize = 0;
    assert(ls.take(0) =~= Seq::<Seq<char>>::empty());
    while i < lines.len()
        invariant
            i <= lines.len(),
            ls == views(lines@),
            pn == prefix@.len(),
            crate::text::opt_view(out) == last_value(ls.take(i as int), prefix@),
        decreases lines.len() - i,
    {
        assert(ls.take(i + 1).drop_last() =~= ls.take(i as int));
        assert(ls.take(i + 1).last() == lines@[i as int]@);
        let line = lines[i].as_str();
        if str_starts_with(line, prefix) {
            let lv = chars_of(line);
            let rest = string_of_range(&lv, pn, lv.len());
            let value = trim(rest.as_str());
            assert(rest@ == lines@[i as int]@.skip(prefix@.len() as int));
            if value.as_str().unicode_len() > 0 {
                out = Some(value);
            }
        }
        i += 1;
    }
    assert(ls.take(ls.len() as int) == ls);
    out
}

/// The snapshot the script's output describes: the last non-blank head and
/// origin main before the status marker, and the status after it (all
/// output is the head part when the marker is missing).
pub open spec fn snapshot_spec(output: Seq<char>, head: Option<Seq<char>>, origin_main: Option<Seq<char>>, status: Seq<char>) -> bool {
    exists|meta: Seq<char>, st: Seq<char>| #![trigger lines_seq(meta), trim_seq(st)] {
        &&& ((split_once_str_spec(output, "__STATUS__\n"@, Some((meta, st)))) || (split_once_str_spec(
            output,
            "__STATUS__\n"@,
            None,
        ) && meta == output && st.len() == 0))
        &&& head == last_value(lines_seq(meta), "head="@)
        &&& origin_main == last_value(lines_seq(meta), "origin_main="@)
        &&& status == trim_seq(st)
    }
}

/// Reads the output of the snapshot script.
pub fn parse_snapshot(output: &str) -> (s: RemoteSnapshot)
    ensures
        snapshot_spec(output@, crate::text::opt_view(s.head), crate::text::opt_view(s.origin_main), s.status_short@),
{
    let split = split_once_str(output, "__STATUS__\n");
    let ghost found = split is Some;
    let (meta, status) = match split {
        Some((m, st)) => (m, st),
        None => (owned(output), String::new()),
    };
    let lines = lines_of(meta.as_str());
    let head = last_value_exec(&lines, "head=");
    let origin_main = last_value_exec(&lines, "origin_main=");
    let status_short = trim(status.as_str());
    let s = RemoteSnapshot { head, origin_main, status_short };
    proof {
        let m = meta@;
        let st = status@;
        assert((split_once_str_spec(output@, "__STATUS__\n"@, Some((m, st)))) || (split_once_str_spec(
            output@,
            "__STATUS__\n"@,
            None,
        ) && m == output@ && st.len() == 0));
        assert(crate::text::opt_view(s.head) == last_value(lines_seq(m), "head="@));
        assert(s.status_short@ == trim_seq(st));
    }
    s
}

// ---------------------------------------------------------------------
// CI through `gh`
// ---------------------------------------------------------------------

/// CI runs are looked up with the `gh` CLI.
#[derive(Debug)]
pub struct SshCiTracker;

impl SshCiTracker {
    /// A tracker that asks `gh`.
    pub fn new() -> (t: SshCiTracker) {
        SshCiTracker
    }
}

impl Default for SshCiTracker {
    fn default() -> (t: SshCiTracker) {
        SshCiTracker::new()
    }
}

/// One run as `gh run list --json databaseId,status,conclusion,url`
/// prints it.
#[derive(Debug, Clone, PartialEq, Eq)]
pub struct GhRun {
    pub database_id: Option<u64>,
    pub status: Option<String>,
    pub conclusion: Option<String>,
    pub url: Option<String>,
}

/// A string field, empty when absent.
pub open spec fn or_empty(o: Option<String>) -> Seq<char> {
    match o {
        Some(s) => s@,
        None => Seq::empty(),
    }
}

/// The CI state of the latest run: pending while there is none or it is
/// not completed, passed when it succeeded, failed otherwise.
pub open spec fn gh_state_ok(run: Option<GhRun>, s: CiState) -> bool {
    match run {
        None => s == CiState::Pending { run_id: None },
        Some(r) => {
            let id = match r.database_id {
                Some(n) => decimal(n as nat),
                None => Seq::empty(),
            };
            if or_empty(r.status) != "completed"@ {
                s matches CiState::Pending { run_id } && crate::text::opt_view(run_id) == if id.len() == 0 {
                    None
                } else {
                    Some(id)
                }
            } else if or_empty(r.conclusion) == "success"@ {
                s matches CiState::Passed { run_id, run_url, conclusion } && run_id@ == id && run_url@ == or_empty(r.url)
                    && conclusion@ == "success"@
            } else {
                s matches CiState::Failed { run_id, run_url, conclusion, log_excerpt } && run_id@ == id && run_url@
                    == or_empty(r.url) && conclusion@ == or_empty(r.conclusion) && log_excerpt is None
            }
        },
    }
}

fn take_or_empty(o: Option<String>) -> (r: String)
    ensures
        r@ == or_empty(o),
{
    match o {
        Some(s) => s,
        None => String::new(),
    }
}

/// The CI state of the first run `gh run list` printed, if any.
pub fn ci_state_from_gh_runs(runs: Vec<GhRun>) -> (s: CiState)
    ensures
        gh_state_ok(if runs@.len() > 0 { Some(runs@[0]) } else { None }, s),
{
    let mut runs = runs;
    if runs.len() == 0 {
        return CiState::Pending { run_id: None };
    }
    let run = runs.remove(0);
    let run_id = match run.database_id {
        Some(n) => crate::text::decimal_string(n),
        None => String::new(),
    };
    let url = take_or_empty(run.url);
    let status = take_or_empty(run.status);
    let conclusion = take_or_empty(run.conclusion);
    proof {
        reveal_strlit("completed");
        reveal_strlit("success");
    }
    if !str_eq(status.as_str(), "completed") {
        let empty = run_id.as_str().unicode_len() == 0;
        return CiState::Pending { run_id: if empty { None } else { Some(run_id) } };
    }
    if str_eq(conclusion.as_str(), "success") {
        CiState::Passed { run_id, run_url: url, conclusion }
    } else {
        CiState::Failed { run_id, run_url: url, conclusion, log_excerpt: None }
    }
}

/// The arguments of `gh run list` for a commit on a branch.
pub fn gh_run_list_args(branch: &str, commit_sha: &str) -> (r: Vec<String>)
    ensures
        views(r@) == seq![
            "run"@, "list"@, "--branch"@, branch@, "--commit"@, commit_sha@, "--json"@,
            "databaseId,status,conclusion,url"@, "--limit"@, "1"@,
        ],
{
    let mut r: Vec<String> = Vec::new();
    r.push(owned("run"));
    r.push(owned("list"));
    r.push(owned("--branch"));
    r.push(owned(branch));
    r.push(owned("--commit"));
    r.push(owned(commit_sha));
    r.push(owned("--json"));
    r.push(owned("databaseId,status,conclusion,url"));
    r.push(owned("--limit"));
    r.push(owned("1"));
    assert(views(r@) =~= seq![
        "run"@, "list"@, "--branch"@, branch@, "--commit"@, commit_sha@, "--json"@,
        "databaseId,status,conclusion,url"@, "--limit"@, "1"@,
    ]);
    r
}

} // verus!
