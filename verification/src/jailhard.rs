//! Hardening runs over local source: which paths a run covers, the
//! manifest of files it may include, the order and uniqueness of the
//! selected files, and the configuration such a run uses.
use vstd::prelude::*;
use crate::config::JailgunConfig;
use crate::event::lex_lt;
use crate::pathorder::{keys_compare, keys_lt, lemma_keys_irreflexive, lemma_keys_transitive, lemma_keys_trichotomy, path_key, path_keys};
use crate::text::{lines_of, lines_seq, owned, push_str, split_char, split_seq, trim, trim_seq, views};

verus! {

/// The archive name of the source a hardening run uploads.
pub const SOURCE_ARCHIVE_FILENAME: &'static str = "source.tar.gz";

/// The largest source archive a hardening run builds by default.
pub const DEFAULT_MAX_BYTES: u64 = 209715200;

/// The review router asked by default.
pub const DEFAULT_ROUTER_URL: &'static str = "http://127.0.0.1:8765/mcp";

/// The arguments of a hardening run.
#[derive(Debug, Clone, PartialEq, Eq)]
pub struct JailhardArgs {
    pub paths: Vec<String>,
    pub accounts: Vec<String>,
    pub tabs: Option<u16>,
    pub config: String,
    pub router_url: String,
    pub download_only: bool,
    pub no_apply: bool,
    pub keep_temp: bool,
    pub target_count: Option<u16>,
    pub task_file: Option<String>,
    pub include_manifest: Option<String>,
    pub max_bytes: u64,
    pub bridge_cmd: Vec<String>,
    pub bridge_env: Vec<String>,
}

// ---------------------------------------------------------------------
// Scope
// ---------------------------------------------------------------------

/// One path a run covers, relative to where it was started.
#[derive(Debug, Clone, PartialEq, Eq)]
pub struct ScopeRoot {
    pub rel: String,
    pub is_file: bool,
}

/// The paths a run covers; `all` when one of them is the starting
/// directory itself.
#[derive(Debug, Clone, PartialEq, Eq)]
pub struct TargetScope {
    pub roots: Vec<ScopeRoot>,
    pub all: bool,
}

/// Whether a list of component keys starts with another.
pub open spec fn keys_prefix(prefix: Seq<Seq<char>>, s: Seq<Seq<char>>) -> bool {
    prefix.len() <= s.len() && s.take(prefix.len() as int) == prefix
}

/// Whether a root covers a path: a file root only itself, a directory
/// root itself and everything under it (compared component by
/// component).
pub open spec fn root_covers(root: ScopeRoot, path: Seq<char>) -> bool {
    if root.is_file {
        path_keys(path) == path_keys(root.rel@)
    } else {
        keys_prefix(path_keys(root.rel@), path_keys(path))
    }
}

/// Whether a scope covers a path.
pub open spec fn scope_allows(scope: TargetScope, path: Seq<char>) -> bool {
    scope.all || exists|i: int| 0 <= i < scope.roots@.len() && root_covers(#[trigger] scope.roots@[i], path)
}

fn keys_start_with(prefix: &Vec<String>, s: &Vec<String>) -> (r: bool)
    ensures
        r == keys_prefix(views(prefix@), views(s@)),
{
    if prefix.len() > s.len() {
        return false;
    }
    let mut i: usize = 0;
    while i < prefix.len()
        invariant
            i <= prefix.len() <= s.len(),
            forall|k: int| 0 <= k < i ==> #[trigger] prefix@[k]@ == s@[k]@,
        decreases prefix.len() - i,
    {
        if !crate::text::str_eq(prefix[i].as_str(), s[i].as_str()) {
            assert(views(s@).take(prefix@.len() as int)[i as int] != views(prefix@)[i as int]);
            return false;
        }
        i += 1;
    }
    assert(views(s@).take(prefix@.len() as int) =~= views(prefix@));
    true
}

impl TargetScope {
    /// Whether the scope covers a relative path.
    pub fn allows(&self, path: &str) -> (r: bool)
        ensures
            r == scope_allows(*self, path@),
    {
        if self.all {
            return true;
        }
        let pk = path_key(path);
        let mut i: usize = 0;
        while i < self.roots.len()
            invariant
                i <= self.roots.len(),
                !self.all,
                views(pk@) == path_keys(path@),
                forall|k: int| 0 <= k < i ==> !root_covers(#[trigger] self.roots@[k], path@),
            decreases self.roots.len() - i,
        {
            let rk = path_key(self.roots[i].rel.as_str());
            let covered = if self.roots[i].is_file {
                keys_compare(&pk, &rk) == 0
            } else {
                keys_start_with(&rk, &pk)
            };
            if covered {
                assert(root_covers(self.roots@[i as int], path@));
                return true;
            }
            i += 1;
        }
        false
    }

    /// The paths a run covers, for its receipt: `.` for everything.
    pub fn display_roots(&self) -> (r: Vec<String>)
        ensures
            self.all ==> views(r@) == seq!["."@],
            !self.all ==> r@.len() == self.roots@.len() && forall|i: int| 0 <= i < r@.len() ==> #[trigger] r@[i]@ == self.roots@[i].rel@,
    {
        let mut r: Vec<String> = Vec::new();
        if self.all {
            r.push(owned("."));
            assert(views(r@) =~= seq!["."@]);
            return r;
        }
        let mut i: usize = 0;
        while i < self.roots.len()
            invariant
                i <= self.roots.len(),
                r@.len() == i,
                forall|k: int| 0 <= k < i ==> #[trigger] r@[k]@ == self.roots@[k].rel@,
            decreases self.roots.len() - i,
        {
            r.push(self.roots[i].rel.clone());
            i += 1;
        }
        r
    }
}

// ---------------------------------------------------------------------
// The include manifest
// ---------------------------------------------------------------------

/// The non-empty trimmed pieces, in order.
pub open spec fn nonempty_trimmed(parts: Seq<Seq<char>>) -> Seq<Seq<char>>
    decreases parts.len(),
{
    if parts.len() == 0 {
        Seq::empty()
    } else {
        let rest = nonempty_trimmed(parts.drop_last());
        let t = trim_seq(parts.last());
        if t.len() == 0 {
            rest
        } else {
            rest.push(t)
        }
    }
}

/// The paths a manifest line lists: none for a blank line or a `#`
/// comment, else its comma-separated entries.
pub open spec fn line_paths(line: Seq<char>) -> Seq<Seq<char>> {
    let t = trim_seq(line);
    if t.len() == 0 || t[0] == '#' {
        Seq::empty()
    } else {
        nonempty_trimmed(split_seq(t, ','))
    }
}

/// The paths of manifest lines, in order.
pub open spec fn manifest_lines_paths(lines: Seq<Seq<char>>) -> Seq<Seq<char>>
    decreases lines.len(),
{
    if lines.len() == 0 {
        Seq::empty()
    } else {
        manifest_lines_paths(lines.drop_last()) + line_paths(lines.last())
    }
}

fn push_line_paths(out: &mut Vec<String>, line: &str)
    ensures
        views(final(out)@) == views(old(out)@) + line_paths(line@),
{
    let t = trim(line);
    let tv = crate::text::chars_of(t.as_str());
    if tv.len() == 0 || tv[0] == '#' {
        assert(views(out@) =~= views(out@) + Seq::<Seq<char>>::empty());
        return;
    }
    let parts = split_char(t.as_str(), ',');
    let ghost base = views(out@);
    let ghost ps = views(parts@);
    let mut i: usize = 0;
    assert(ps.take(0) =~= Seq::<Seq<char>>::empty());
    while i < parts.len()
        invariant
            i <= parts.len(),
            ps == views(parts@),
            ps == split_seq(t@, ','),
            views(out@) == base + nonempty_trimmed(ps.take(i as int)),
        decreases parts.len() - i,
    {
        let p = trim(parts[i].as_str());
        assert(ps.take(i + 1).drop_last() =~= ps.take(i as int));
        assert(ps.take(i + 1).last() == parts@[i as int]@);
        if p.as_str().unicode_len() > 0 {
            let ghost o0 = views(out@);
            out.push(p);
            assert(views(out@) =~= o0.push(trim_seq(parts@[i as int]@)));
        }
        i += 1;
    }
    assert(ps.take(ps.len() as int) == ps);
}

/// The paths an include manifest lists: entries separated by newlines or
/// commas, trimmed, with blank lines and `#` comment lines skipped; a
/// manifest that lists nothing is refused.
pub fn read_manifest_paths(text: &str, manifest_display: &str) -> (r: Result<Vec<String>, String>)
    ensures
        manifest_lines_paths(lines_seq(text@)).len() > 0 ==> (r matches Ok(v) && views(v@) == manifest_lines_paths(lines_seq(text@))),
        manifest_lines_paths(lines_seq(text@)).len() == 0 ==> (r matches Err(m) && m@ == "include-manifest "@ + manifest_display@ + " listed no files"@),
{
    let lines = lines_of(text);
    let ghost ls = views(lines@);
    let mut out: Vec<String> = Vec::new();
    let mut i: usize = 0;
    assert(ls.take(0) =~= Seq::<Seq<char>>::empty());
    while i < lines.len()
        invariant
            i <= lines.len(),
            ls == views(lines@),
            ls == lines_seq(text@),
            views(out@) == manifest_lines_paths(ls.take(i as int)),
        decreases lines.len() - i,
    {
        assert(ls.take(i + 1).drop_last() =~= ls.take(i as int));
        assert(ls.take(i + 1).last() == lines@[i as int]@);
        push_line_paths(&mut out, lines[i].as_str());
        i += 1;
    }
    assert(ls.take(ls.len() as int) == ls);
    if out.len() == 0 {
        let mut m = owned("include-manifest ");
        push_str(&mut m, manifest_display);
        push_str(&mut m, " listed no files");
        return Err(m);
    }
    Ok(out)
}

/// The check of one path an include manifest lists, in order: the
/// repository root is refused, then a path inside an excluded directory,
/// then a secret-like file name; any other path may be selected.
pub fn check_manifest_entry(rel: &str, in_excluded_dir: bool, secret_like_name: bool) -> (r: Result<(), String>)
    ensures
        rel@.len() == 0 ==> (r matches Err(m) && m@ == "include-manifest cannot select the repository root"@),
        rel@.len() > 0 && in_excluded_dir ==> (r matches Err(m) && m@
            == "include-manifest path is inside an excluded directory: "@ + rel@),
        rel@.len() > 0 && !in_excluded_dir && secret_like_name ==> (r matches Err(m) && m@
            == "include-manifest refuses a secret-like file: "@ + rel@),
        rel@.len() > 0 && !in_excluded_dir && !secret_like_name ==> r is Ok,
{
    if rel.unicode_len() == 0 {
        return Err(owned("include-manifest cannot select the repository root"));
    }
    if in_excluded_dir {
        let mut m = owned("include-manifest path is inside an excluded directory: ");
        push_str(&mut m, rel);
        return Err(m);
    }
    if secret_like_name {
        let mut m = owned("include-manifest refuses a secret-like file: ");
        push_str(&mut m, rel);
        return Err(m);
    }
    Ok(())
}

// ---------------------------------------------------------------------
// Selected files
// ---------------------------------------------------------------------

/// A file chosen for the source archive: where it is read from, its path
/// in the archive, and its size.
#[derive(Debug, Clone, PartialEq, Eq)]
pub struct SelectedFile {
    pub abs_path: String,
    pub entry_path: String,
    pub size_bytes: u64,
}

/// The component keys of a file's archive path.
pub open spec fn entry_keys(f: SelectedFile) -> Seq<Seq<char>> {
    path_keys(f.entry_path@)
}

/// The archive paths (as component keys) of some files.
pub open spec fn key_set(s: Seq<SelectedFile>) -> Set<Seq<Seq<char>>> {
    s.map_values(|f: SelectedFile| entry_keys(f)).to_set()
}

/// The first file of each archive path, in the given order.
pub open spec fn first_files(s: Seq<SelectedFile>) -> Seq<SelectedFile>
    decreases s.len(),
{
    if s.len() == 0 {
        Seq::empty()
    } else {
        let r = first_files(s.drop_last());
        if key_set(s.drop_last()).contains(entry_keys(s.last())) {
            r
        } else {
            r.push(s.last())
        }
    }
}

/// Files in strictly ascending archive path order.
pub open spec fn paths_ascending(s: Seq<SelectedFile>) -> bool {
    forall|a: int, b: int| 0 <= a < b < s.len() ==> keys_lt(entry_keys(#[trigger] s[a]), entry_keys(#[trigger] s[b]))
}

proof fn lemma_key_set_contains(s: Seq<SelectedFile>, x: Seq<Seq<char>>)
    ensures
        key_set(s).contains(x) <==> exists|i: int| 0 <= i < s.len() && #[trigger] entry_keys(s[i]) == x,
{
    let m = s.map_values(|f: SelectedFile| entry_keys(f));
    if key_set(s).contains(x) {
        assert(m.contains(x));
        let i = choose|i: int| 0 <= i < m.len() && m[i] == x;
        assert(entry_keys(s[i]) == x);
    }
    if exists|i: int| 0 <= i < s.len() && #[trigger] entry_keys(s[i]) == x {
        let i = choose|i: int| 0 <= i < s.len() && #[trigger] entry_keys(s[i]) == x;
        assert(m[i] == x);
        assert(m.contains(x));
    }
}

proof fn lemma_key_set_insert(s: Seq<SelectedFile>, p: int, f: SelectedFile)
    requires
        0 <= p <= s.len(),
    ensures
        key_set(s.insert(p, f)) == key_set(s).insert(entry_keys(f)),
{
    let t = s.insert(p, f);
    assert forall|x: Seq<Seq<char>>| key_set(t).contains(x) <==> key_set(s).insert(entry_keys(f)).contains(x) by {
        lemma_key_set_contains(t, x);
        lemma_key_set_contains(s, x);
        if key_set(t).contains(x) {
            let i = choose|i: int| 0 <= i < t.len() && #[trigger] entry_keys(t[i]) == x;
            if i < p {
                assert(t[i] == s[i]);
            } else if i > p {
                assert(t[i] == s[i - 1]);
            }
        }
        if key_set(s).contains(x) {
            let i = choose|i: int| 0 <= i < s.len() && #[trigger] entry_keys(s[i]) == x;
            if i < p {
                assert(t[i] == s[i]);
            } else {
                assert(t[i + 1] == s[i]);
            }
        }
        if x == entry_keys(f) {
            assert(t[p] == f);
        }
    }
    assert(key_set(t) =~= key_set(s).insert(entry_keys(f)));
}

proof fn lemma_key_set_push(s: Seq<SelectedFile>, f: SelectedFile)
    ensures
        key_set(s.push(f)) == key_set(s).insert(entry_keys(f)),
{
    assert(s.push(f) == s.insert(s.len() as int, f));
    lemma_key_set_insert(s, s.len() as int, f);
}

/// Orders selected files by archive path (component by component) and
/// keeps the first file of each path; no file at all is refused with
/// `empty_message`.
pub fn finish_selection(files: Vec<SelectedFile>, empty_message: &str) -> (r: Result<Vec<SelectedFile>, String>)
    ensures
        files@.len() == 0 ==> (r matches Err(m) && m@ == empty_message@),
        files@.len() > 0 ==> (r matches Ok(v) && paths_ascending(v@) && v@.to_multiset() == first_files(files@).to_multiset()),
{
    broadcast use vstd::seq_lib::group_to_multiset_ensures;

    if files.len() == 0 {
        return Err(owned(empty_message));
    }
    let ghost orig = files@;
    let mut rest = files;
    let mut out: Vec<SelectedFile> = Vec::new();
    let mut keys: Vec<Vec<String>> = Vec::new();
    let mut n: usize = 0;
    assert(orig.take(0) =~= Seq::<SelectedFile>::empty());
    assert(key_set(out@) =~= key_set(orig.take(0)));
    while rest.len() > 0
        invariant
            orig.len() == n + rest@.len(),
            orig.len() <= usize::MAX,
            rest@ == orig.skip(n as int),
            out@.len() == keys@.len(),
            forall|k: int| 0 <= k < keys@.len() ==> views(#[trigger] keys@[k]@) == entry_keys(out@[k]),
            paths_ascending(out@),
            out@.to_multiset() == first_files(orig.take(n as int)).to_multiset(),
            key_set(out@) == key_set(orig.take(n as int)),
        decreases rest.len(),
    {
        let f = rest.remove(0);
        assert(f == orig[n as int]);
        assert(rest@ =~= orig.skip(n + 1));
        let ghost tn = orig.take(n as int);
        assert(orig.take(n + 1).drop_last() =~= tn);
        assert(orig.take(n + 1).last() == f);
        let fk = path_key(f.entry_path.as_str());
        let ghost v0 = out@;
        let ghost k0 = keys@;
        let mut p: usize = 0;
        let mut dup = false;
        while p < keys.len()
            invariant_except_break
                !dup,
            invariant
                p <= keys.len(),
                keys@ == k0,
                out@ == v0,
                out@.len() == keys@.len(),
                forall|k: int| 0 <= k < keys@.len() ==> views(#[trigger] keys@[k]@) == entry_keys(out@[k]),
                views(fk@) == entry_keys(f),
                forall|q: int| 0 <= q < p ==> keys_lt(entry_keys(#[trigger] v0[q]), entry_keys(f)),
            ensures
                p <= keys.len(),
                forall|q: int| 0 <= q < p ==> keys_lt(entry_keys(#[trigger] v0[q]), entry_keys(f)),
                dup ==> p < keys.len() && entry_keys(v0[p as int]) == entry_keys(f),
                !dup && p < keys.len() ==> keys_lt(entry_keys(f), entry_keys(v0[p as int])),
            decreases keys.len() - p,
        {
            let c = keys_compare(&keys[p], &fk);
            if c == 0 {
                dup = true;
                break;
            }
            if c == 1 {
                break;
            }
            p += 1;
        }
        if dup {
            proof {
                lemma_key_set_contains(v0, entry_keys(f));
                assert(key_set(tn).contains(entry_keys(f)));
                lemma_key_set_push(tn, f);
                assert(orig.take(n + 1) == tn.push(f));
                assert(key_set(tn).insert(entry_keys(f)) =~= key_set(tn));
            }
        } else {
            out.insert(p, f);
            keys.insert(p, fk);
            proof {
                let v1 = out@;
                assert(v1 == v0.insert(p as int, f));
                assert forall|k: int| 0 <= k < keys@.len() implies views(#[trigger] keys@[k]@) == entry_keys(out@[k]) by {
                    if k < p {
                        assert(keys@[k] == k0[k] && out@[k] == v0[k]);
                    } else if k > p {
                        assert(keys@[k] == k0[k - 1] && out@[k] == v0[k - 1]);
                    }
                }
                assert forall|a: int, b: int| 0 <= a < b < v1.len() implies keys_lt(entry_keys(#[trigger] v1[a]), entry_keys(#[trigger] v1[b])) by {
                    if b < p {
                        assert(v1[a] == v0[a] && v1[b] == v0[b]);
                    } else if b == p {
                        assert(v1[a] == v0[a]);
                    } else if a == p {
                        assert(v1[b] == v0[b - 1]);
                        if b - 1 > p {
                            lemma_keys_transitive(entry_keys(f), entry_keys(v0[p as int]), entry_keys(v0[b - 1]));
                        }
                    } else if a < p {
                        assert(v1[a] == v0[a] && v1[b] == v0[b - 1]);
                        if b - 1 > p {
                            lemma_keys_transitive(entry_keys(f), entry_keys(v0[p as int]), entry_keys(v0[b - 1]));
                        }
                        lemma_keys_transitive(entry_keys(v0[a]), entry_keys(f), entry_keys(v0[b - 1]));
                    } else {
                        assert(v1[a] == v0[a - 1] && v1[b] == v0[b - 1]);
                    }
                }
                assert(!key_set(v0).contains(entry_keys(f))) by {
                    lemma_key_set_contains(v0, entry_keys(f));
                    if key_set(v0).contains(entry_keys(f)) {
                        let k = choose|k: int| 0 <= k < v0.len() && #[trigger] entry_keys(v0[k]) == entry_keys(f);
                        if k < p {
                            lemma_keys_irreflexive(entry_keys(f));
                        } else {
                            if k > p {
                                lemma_keys_transitive(entry_keys(f), entry_keys(v0[p as int]), entry_keys(v0[k]));
                            }
                            lemma_keys_irreflexive(entry_keys(f));
                        }
                    }
                }
                lemma_key_set_insert(v0, p as int, f);
                lemma_key_set_push(tn, f);
                assert(orig.take(n + 1) == tn.push(f));
                vstd::seq_lib::to_multiset_insert(v0, p as int, f);
                vstd::seq_lib::to_multiset_build(first_files(tn), f);
            }
        }
        n += 1;
    }
    assert(orig.take(orig.len() as int) == orig);
    Ok(out)
}

// ---------------------------------------------------------------------
// The run
// ---------------------------------------------------------------------

/// The configuration of a hardening run: the source archive uploaded as
/// `source.tar.gz` and deleted after, and no deploy (dry, nothing
/// stripped).
pub fn jailhard_config(config: JailgunConfig) -> (r: JailgunConfig)
    ensures
        r.source_archive.enabled,
        r.source_archive.archive_filename@ == "source.tar.gz"@,
        r.source_archive.delete_after_upload,
        !r.deploy.enabled,
        r.deploy.dry_run,
        r.deploy.remote_strip_components == 0,
        r.project == config.project,
        r.paths == config.paths,
        r.browser == config.browser,
        r.prompt_policy == config.prompt_policy,
        r.source_archive.repo_url_env == config.source_archive.repo_url_env,
        r.source_archive.ref_name == config.source_archive.ref_name,
        r.source_archive.prefix == config.source_archive.prefix,
        r.deploy.remote_host_env == config.deploy.remote_host_env,
        r.deploy.remote_dir_env == config.deploy.remote_dir_env,
        r.deploy.remote_command_env == config.deploy.remote_command_env,
        r.deploy.remote_cleanup_policy == config.deploy.remote_cleanup_policy,
        r.deploy.remote_status_poll_seconds == config.deploy.remote_status_poll_seconds,
{
    let mut config = config;
    config.source_archive.enabled = true;
    config.source_archive.archive_filename = owned(SOURCE_ARCHIVE_FILENAME);
    config.source_archive.delete_after_upload = true;
    config.deploy.enabled = false;
    config.deploy.dry_run = true;
    config.deploy.remote_strip_components = 0;
    config
}

/// The tabs of a hardening run: the requested count, else one per
/// browser account; at least one.
pub fn jailhard_tabs(requested: Option<u16>, account_count: u16) -> (t: u16)
    ensures
        t == (match requested {
            Some(n) => if n < 1 { 1 } else { n },
            None => if account_count < 1 { 1 } else { account_count },
        }),
{
    let n = match requested {
        Some(n) => n,
        None => account_count,
    };
    if n < 1 {
        1
    } else {
        n
    }
}

/// Whether a returned patch is applied, and why not: only when neither
/// `--download-only` nor `--no-apply` was given.
pub fn apply_skip_reason(download_only: bool, no_apply: bool) -> (r: Option<&'static str>)
    ensures
        download_only ==> (r matches Some(s) && s@ == "download-only"@),
        !download_only && no_apply ==> (r matches Some(s) && s@ == "no-apply"@),
        !download_only && !no_apply ==> r is None,
{
    if download_only {
        Some("download-only")
    } else if no_apply {
        Some("no-apply")
    } else {
        None
    }
}

/// The refusal of a patch that two or more review models found
/// high-risk.
pub fn review_gate_failure(high_risk_supporting_models: u64) -> (r: Option<String>)
    ensures
        high_risk_supporting_models < 2 ==> r is None,
        high_risk_supporting_models >= 2 ==> (r matches Some(m) && m@ == "router review gate rejected patch: "@
            + crate::text::decimal(high_risk_supporting_models as nat)
            + " supporting model(s) reported high-risk correctness/regression/security findings"@),
{
    if high_risk_supporting_models >= 2 {
        let mut m = owned("router review gate rejected patch: ");
        crate::text::push_decimal(&mut m, high_risk_supporting_models);
        push_str(&mut m, " supporting model(s) reported high-risk correctness/regression/security findings");
        Some(m)
    } else {
        None
    }
}

} // verus!
