//! The decisions of the command line: flags over configuration, bridge
//! environment overrides, archive checks and repository inference.
use vstd::prelude::*;
use crate::config::JailgunConfig;
use crate::event::FieldMap;
use crate::run::{top_level_message, top_level_mismatch};
use crate::tarball::TarValidation;
use crate::text::{
    chars_of, ends_with, is_blank, owned, push_str, starts_with, str_ends_with, str_starts_with,
    string_of_range, trim_seq,
};

verus! {

/// Whether a deploy runs dry: `--dry-run` wins, then `--deploy`, then the
/// configuration.
pub fn resolve_deploy_dry_run(config_dry_run: bool, deploy: bool, dry_run: bool) -> (r: bool)
    ensures
        r == (dry_run || (!deploy && config_dry_run)),
{
    if dry_run {
        true
    } else if deploy {
        false
    } else {
        config_dry_run
    }
}

/// Whether a run deploys: never with `--no-deploy`, else with `--deploy`
/// or when the configuration enables it.
pub fn resolve_deploy_enabled(config_enabled: bool, deploy: bool, no_deploy: bool) -> (r: bool)
    ensures
        r == (!no_deploy && (deploy || config_enabled)),
{
    !no_deploy && (deploy || config_enabled)
}

/// The configuration of a run after its flags: a source ref, and the
/// deploy switches.
pub fn apply_run_flags(
    config: JailgunConfig,
    source_ref: Option<String>,
    deploy: bool,
    no_deploy: bool,
    dry_run: bool,
) -> (r: JailgunConfig)
    ensures
        r.source_archive.ref_name == match source_ref {
            Some(s) => s,
            None => config.source_archive.ref_name,
        },
        r.deploy.enabled == (!no_deploy && (deploy || config.deploy.enabled)),
        r.deploy.dry_run == (dry_run || (!deploy && config.deploy.dry_run)),
        r.project == config.project,
        r.paths == config.paths,
        r.browser == config.browser,
        r.prompt_policy == config.prompt_policy,
        r.deploy.remote_host_env == config.deploy.remote_host_env,
        r.deploy.remote_dir_env == config.deploy.remote_dir_env,
        r.deploy.remote_command_env == config.deploy.remote_command_env,
        r.deploy.remote_strip_components == config.deploy.remote_strip_components,
        r.deploy.remote_cleanup_policy == config.deploy.remote_cleanup_policy,
        r.deploy.remote_status_poll_seconds == config.deploy.remote_status_poll_seconds,
        r.source_archive.enabled == config.source_archive.enabled,
        r.source_archive.repo_url_env == config.source_archive.repo_url_env,
        r.source_archive.prefix == config.source_archive.prefix,
        r.source_archive.archive_filename == config.source_archive.archive_filename,
        r.source_archive.delete_after_upload == config.source_archive.delete_after_upload,
{
    let mut config = config;
    match source_ref {
        Some(s) => {
            config.source_archive.ref_name = s;
        },
        None => {},
    }
    config.deploy.enabled = resolve_deploy_enabled(config.deploy.enabled, deploy, no_deploy);
    config.deploy.dry_run = resolve_deploy_dry_run(config.deploy.dry_run, deploy, dry_run);
    config
}

/// The first split of `s` at `c`: the text before the first `c` and the
/// text after it.
pub open spec fn split_once_spec(s: Seq<char>, c: char) -> Option<(Seq<char>, Seq<char>)>
    decreases s.len(),
{
    if s.len() == 0 {
        None
    } else if s[0] == c {
        Some((Seq::empty(), s.drop_first()))
    } else {
        match split_once_spec(s.drop_first(), c) {
            None => None,
            Some((a, b)) => Some((seq![s[0]] + a, b)),
        }
    }
}

/// A character is found in a sequence with one more element exactly when
/// it is that element or already there.
pub proof fn lemma_push_contains(s: Seq<char>, x: char, c: char)
    ensures
        s.push(x).contains(c) <==> (s.contains(c) || x == c),
{
    if s.push(x).contains(c) {
        let w = choose|w: int| 0 <= w < s.push(x).len() && s.push(x)[w] == c;
        if w < s.len() {
            assert(s[w] == c);
        }
    }
    if s.contains(c) {
        let w = choose|w: int| 0 <= w < s.len() && s[w] == c;
        assert(s.push(x)[w] == c);
    }
    if x == c {
        assert(s.push(x)[s.len() as int] == c);
    }
}

proof fn lemma_split_once_absent(s: Seq<char>, c: char)
    requires
        !s.contains(c),
    ensures
        split_once_spec(s, c) is None,
    decreases s.len(),
{
    if s.len() > 0 {
        assert(s[0] != c);
        assert(!s.drop_first().contains(c)) by {
            if s.drop_first().contains(c) {
                let w = choose|w: int| 0 <= w < s.drop_first().len() && s.drop_first()[w] == c;
                assert(s[w + 1] == c);
            }
        }
        lemma_split_once_absent(s.drop_first(), c);
    }
}

/// `str::split_once` on a character.
pub fn split_once_char(s: &str, c: char) -> (r: Option<(String, String)>)
    ensures
        match r {
            Some((a, b)) => s@ == a@ + seq![c] + b@ && !a@.contains(c),
            None => !s@.contains(c),
        },
        r is Some <==> s@.contains(c),
{
    let v = chars_of(s);
    let mut i: usize = 0;
    while i < v.len()
        invariant
            v@ == s@,
            i <= v.len(),
            forall|k: int| 0 <= k < i ==> v@[k] != c,
        decreases v.len() - i,
    {
        if v[i] == c {
            let a = string_of_range(&v, 0, i);
            let b = string_of_range(&v, i + 1, v.len());
            proof {
                assert(v@ =~= a@ + seq![c] + b@);
                assert(!a@.contains(c)) by {
                    if a@.contains(c) {
                        let k = choose|k: int| 0 <= k < a@.len() && a@[k] == c;
                        assert(v@[k] == c);
                    }
                }
            }
            return Some((a, b));
        }
        i += 1;
    }
    proof {
        assert(!s@.contains(c)) by {
            if s@.contains(c) {
                let k = choose|k: int| 0 <= k < s@.len() && s@[k] == c;
                assert(v@[k] == c);
            }
        }
    }
    None
}

/// What `{:?}` prints for a string: the string quoted, with escapes.
pub uninterp spec fn debug_str(s: Seq<char>) -> Seq<char>;

/// Formats a string with `{:?}` (std's `Debug` for `str`).
#[verifier::external_body]
fn debug_quoted(s: &str) -> (r: String)
    ensures
        r@ == debug_str(s@),
{
    format!("{s:?}")
}

/// The refusal of a `--bridge-env` value without `=`.
pub open spec fn bridge_env_form_message(value: Seq<char>) -> Seq<char> {
    "--bridge-env must be KEY=VALUE, got "@ + debug_str(value)
}

/// The refusal of a `--bridge-env` value with a blank key.
pub open spec fn bridge_env_key_message() -> Seq<char> {
    "--bridge-env key cannot be empty"@
}

/// One `KEY=VALUE` override applied to what came before it.
pub open spec fn env_step(acc: Result<Map<Seq<char>, Seq<char>>, Seq<char>>, v: Seq<char>) -> Result<Map<Seq<char>, Seq<char>>, Seq<char>> {
    match acc {
        Err(e) => Err(e),
        Ok(m) => match split_once_spec(v, '=') {
            None => Err(bridge_env_form_message(v)),
            Some((k, x)) => if trim_seq(k).len() == 0 {
                Err(bridge_env_key_message())
            } else {
                Ok(m.insert(k, x))
            },
        },
    }
}

/// The outcome of parsing `KEY=VALUE` overrides in order: the first bad
/// one is refused, a later key replaces an earlier one.
pub open spec fn env_overrides_spec(values: Seq<Seq<char>>) -> Result<Map<Seq<char>, Seq<char>>, Seq<char>>
    decreases values.len(),
{
    if values.len() == 0 {
        Ok(Map::empty())
    } else {
        env_step(env_overrides_spec(values.drop_last()), values.last())
    }
}

proof fn lemma_env_prefix_step(vs: Seq<Seq<char>>, i: int)
    requires
        0 <= i < vs.len(),
    ensures
        env_overrides_spec(vs.take(i + 1)) == env_step(env_overrides_spec(vs.take(i)), vs[i]),
{
    assert(vs.take(i + 1).drop_last() =~= vs.take(i));
    assert(vs.take(i + 1).last() == vs[i]);
}

proof fn lemma_split_once_unique(s: Seq<char>, c: char, a: Seq<char>, b: Seq<char>)
    requires
        s == a + seq![c] + b,
        !a.contains(c),
    ensures
        split_once_spec(s, c) == Some((a, b)),
    decreases a.len(),
{
    if a.len() == 0 {
        assert(s[0] == c);
        assert(s.drop_first() =~= b);
    } else {
        assert(s[0] == a[0]);
        assert(a[0] != c);
        assert(!a.drop_first().contains(c)) by {
            if a.drop_first().contains(c) {
                let w = choose|w: int| 0 <= w < a.drop_first().len() && a.drop_first()[w] == c;
                assert(a[w + 1] == c);
            }
        }
        assert(s.drop_first() =~= a.drop_first() + seq![c] + b);
        lemma_split_once_unique(s.drop_first(), c, a.drop_first(), b);
        assert(seq![s[0]] + a.drop_first() =~= a);
    }
}

fn env_override_step(value: &String, envs: &mut FieldMap) -> (r: Result<(), String>)
    requires
        old(envs).wf(),
    ensures
        final(envs).wf(),
        match split_once_spec(value@, '=') {
            None => r matches Err(m) && m@ == bridge_env_form_message(value@),
            Some((k, x)) => if trim_seq(k).len() == 0 {
                r matches Err(m) && m@ == bridge_env_key_message()
            } else {
                r is Ok && final(envs)@ == old(envs)@.insert(k, x)
            },
        },
{
    match split_once_char(value.as_str(), '=') {
        None => {
            proof {
                lemma_split_once_absent(value@, '=');
            }
            let mut m = owned("--bridge-env must be KEY=VALUE, got ");
            let q = debug_quoted(value.as_str());
            push_str(&mut m, q.as_str());
            Err(m)
        },
        Some((key, val)) => {
            proof {
                lemma_split_once_unique(value@, '=', key@, val@);
            }
            if is_blank(key.as_str()) {
                return Err(owned("--bridge-env key cannot be empty"));
            }
            envs.insert(key, val);
            Ok(())
        },
    }
}

/// `--bridge-env KEY=VALUE` overrides as a map.
pub fn parse_env_overrides(values: &Vec<String>) -> (r: Result<FieldMap, String>)
    ensures
        match env_overrides_spec(crate::text::views(values@)) {
            Ok(m) => r matches Ok(f) && f.wf() && f@ == m,
            Err(e) => r matches Err(x) && x@ == e,
        },
{
    let ghost vs = crate::text::views(values@);
    let mut envs = FieldMap::new();
    let mut i: usize = 0;
    assert(vs.take(0) =~= Seq::<Seq<char>>::empty());
    while i < values.len()
        invariant
            i <= values.len(),
            vs == crate::text::views(values@),
            envs.wf(),
            env_overrides_spec(vs.take(i as int)) == Ok::<Map<Seq<char>, Seq<char>>, Seq<char>>(envs@),
        decreases values.len() - i,
    {
        proof {
            lemma_env_prefix_step(vs, i as int);
            assert(vs[i as int] == values@[i as int]@);
        }
        match env_override_step(&values[i], &mut envs) {
            Ok(()) => {},
            Err(e) => {
                proof {
                    lemma_env_overrides_err(vs, i as int + 1);
                }
                return Err(e);
            },
        }
        i += 1;
    }
    assert(vs.take(vs.len() as int) == vs);
    Ok(envs)
}

/// Once a prefix is refused, the whole list is refused the same way.
proof fn lemma_env_overrides_err(values: Seq<Seq<char>>, n: int)
    requires
        0 <= n <= values.len(),
        env_overrides_spec(values.take(n)) is Err,
    ensures
        env_overrides_spec(values) == env_overrides_spec(values.take(n)),
    decreases values.len() - n,
{
    if n < values.len() {
        lemma_env_prefix_step(values, n);
        lemma_env_overrides_err(values, n + 1);
    } else {
        assert(values.take(n) =~= values);
    }
}

/// The environment handed to the browser bridge: the `--bridge-env`
/// overrides, then the download and artifact directories and the tar
/// target name, which replace any override; the profile and state
/// directories only where no override names them.
pub fn build_bridge_env(
    values: &Vec<String>,
    downloads_dir: &str,
    artifacts_dir: &str,
    tar_target_name: Option<String>,
    profile_dir_env: &str,
    profile_dir: &str,
    state_dir_env: &str,
    state_dir: &str,
) -> (r: Result<FieldMap, String>)
    ensures
        match env_overrides_spec(crate::text::views(values@)) {
            Ok(m) => r matches Ok(f) && f.wf() && f@ == bridge_env_spec(
                m,
                downloads_dir@,
                artifacts_dir@,
                crate::text::opt_view(tar_target_name),
                profile_dir_env@,
                profile_dir@,
                state_dir_env@,
                state_dir@,
            ),
            Err(e) => r matches Err(x) && x@ == e,
        },
{
    match parse_env_overrides(values) {
        Ok(m) => Ok(
            complete_bridge_env(
                m,
                downloads_dir,
                artifacts_dir,
                tar_target_name,
                profile_dir_env,
                profile_dir,
                state_dir_env,
                state_dir,
            ),
        ),
        Err(e) => Err(e),
    }
}

/// Adds the run's directories and tar target name to bridge overrides
/// (replacing any override of them), and the profile and state
/// directories where no override names them.
pub fn complete_bridge_env(
    envs: FieldMap,
    downloads_dir: &str,
    artifacts_dir: &str,
    tar_target_name: Option<String>,
    profile_dir_env: &str,
    profile_dir: &str,
    state_dir_env: &str,
    state_dir: &str,
) -> (r: FieldMap)
    requires
        envs.wf(),
    ensures
        r.wf(),
        r@ == bridge_env_spec(
            envs@,
            downloads_dir@,
            artifacts_dir@,
            crate::text::opt_view(tar_target_name),
            profile_dir_env@,
            profile_dir@,
            state_dir_env@,
            state_dir@,
        ),
{
    let mut envs = envs;
    envs.insert(owned("JAILGUN_DOWNLOADS_DIR"), owned(downloads_dir));
    envs.insert(owned("JAILGUN_ARTIFACTS_DIR"), owned(artifacts_dir));
    match tar_target_name {
        Some(t) => envs.insert(owned("JAILGUN_TAR_TARGET_NAME"), t),
        None => {},
    }
    if envs.get(profile_dir_env).is_none() {
        envs.insert(owned(profile_dir_env), owned(profile_dir));
    }
    if envs.get(state_dir_env).is_none() {
        envs.insert(owned(state_dir_env), owned(state_dir));
    }
    envs
}

/// A value given on the command line, else one from the environment.
pub fn arg_or_env(arg: Option<String>, env_value: Option<String>, env_name: &str, label: &str) -> (r: Result<String, String>)
    ensures
        match arg {
            Some(a) => r == Ok::<String, String>(a),
            None => match env_value {
                Some(v) => r == Ok::<String, String>(v),
                None => r matches Err(m) && m@ == "missing "@ + label@ + ": pass it explicitly or set "@ + env_name@,
            },
        },
{
    match arg {
        Some(a) => Ok(a),
        None => match env_value {
            Some(v) => Ok(v),
            None => {
                let mut m = owned("missing ");
                push_str(&mut m, label);
                push_str(&mut m, ": pass it explicitly or set ");
                push_str(&mut m, env_name);
                Err(m)
            },
        },
    }
}

/// A path given on the command line, else one from the environment,
/// else the default.
pub fn arg_or_env_or_default(arg: Option<String>, env_value: Option<String>, default: String) -> (r: String)
    ensures
        r == match arg {
            Some(a) => a,
            None => match env_value {
                Some(v) => v,
                None => default,
            },
        },
{
    match arg {
        Some(a) => a,
        None => match env_value {
            Some(v) => v,
            None => default,
        },
    }
}

/// Inserts `k` only where the map has no entry for it.
pub open spec fn insert_missing(m: Map<Seq<char>, Seq<char>>, k: Seq<char>, v: Seq<char>) -> Map<Seq<char>, Seq<char>> {
    if m.contains_key(k) {
        m
    } else {
        m.insert(k, v)
    }
}

/// The bridge environment built from parsed overrides.
pub open spec fn bridge_env_spec(
    overrides: Map<Seq<char>, Seq<char>>,
    downloads_dir: Seq<char>,
    artifacts_dir: Seq<char>,
    tar_target_name: Option<Seq<char>>,
    profile_dir_env: Seq<char>,
    profile_dir: Seq<char>,
    state_dir_env: Seq<char>,
    state_dir: Seq<char>,
) -> Map<Seq<char>, Seq<char>> {
    let m1 = overrides.insert("JAILGUN_DOWNLOADS_DIR"@, downloads_dir).insert(
        "JAILGUN_ARTIFACTS_DIR"@,
        artifacts_dir,
    );
    let m2 = match tar_target_name {
        Some(t) => m1.insert("JAILGUN_TAR_TARGET_NAME"@, t),
        None => m1,
    };
    insert_missing(insert_missing(m2, profile_dir_env, profile_dir), state_dir_env, state_dir)
}

/// The refusal of an archive whose single top level is not the expected
/// one.
pub fn ensure_expected_top_level(validation: &TarValidation, expected: &str) -> (r: Result<(), String>)
    ensures
        (validation.top_level.is_some() && validation.top_level.unwrap()@ == expected@) ==> r is Ok,
        !(validation.top_level.is_some() && validation.top_level.unwrap()@ == expected@) ==> (r matches Err(
            m,
        ) && m@ == top_level_message(expected@, validation.top_level)),
{
    match top_level_mismatch(&Some(owned(expected)), validation) {
        Some(m) => Err(m),
        None => Ok(()),
    }
}

/// The `owner/repo` of a GitHub remote URL (SSH, HTTPS or `ssh://`), with
/// one `.git` suffix dropped; nothing for other hosts or deeper paths.
pub open spec fn github_repo_spec(url: Seq<char>) -> Option<Seq<char>> {
    let rest = if starts_with(url, "git@github.com:"@) {
        Some(url.skip("git@github.com:"@.len() as int))
    } else if starts_with(url, "https://github.com/"@) {
        Some(url.skip("https://github.com/"@.len() as int))
    } else if starts_with(url, "ssh://git@github.com/"@) {
        Some(url.skip("ssh://git@github.com/"@.len() as int))
    } else {
        None
    };
    match rest {
        None => None,
        Some(r) => {
            let path = if ends_with(r, ".git"@) {
                r.take(r.len() - 4)
            } else {
                r
            };
            if owner_repo(path) {
                Some(path)
            } else {
                None
            }
        },
    }
}

/// Exactly two non-empty parts around one `/`.
pub open spec fn owner_repo(p: Seq<char>) -> bool {
    exists|i: int|
        0 < i < p.len() - 1 && p[i] == '/' && !p.take(i).contains('/') && !p.skip(i + 1).contains(
            '/',
        )
}

fn skip_prefix(s: &str, n: usize) -> (r: String)
    requires
        n <= s@.len(),
    ensures
        r@ == s@.skip(n as int),
{
    let v = chars_of(s);
    string_of_range(&v, n, v.len())
}

/// The `owner/repo` of a GitHub remote, for CI tracking.
pub fn infer_github_repo(url: &str) -> (r: Option<String>)
    ensures
        crate::text::opt_view(r) == github_repo_spec(url@),
{
    proof {
        reveal_strlit("git@github.com:");
        reveal_strlit("https://github.com/");
        reveal_strlit("ssh://git@github.com/");
        reveal_strlit(".git");
    }
    let rest = if str_starts_with(url, "git@github.com:") {
        skip_prefix(url, 15)
    } else if str_starts_with(url, "https://github.com/") {
        skip_prefix(url, 19)
    } else if str_starts_with(url, "ssh://git@github.com/") {
        skip_prefix(url, 21)
    } else {
        return None;
    };
    let path = if str_ends_with(rest.as_str(), ".git") {
        let v = chars_of(rest.as_str());
        string_of_range(&v, 0, v.len() - 4)
    } else {
        rest
    };
    let v = chars_of(path.as_str());
    let mut i: usize = 0;
    let mut slash: Option<usize> = None;
    let mut count: usize = 0;
    while i < v.len()
        invariant
            v@ == path@,
            i <= v.len(),
            count <= i,
            count == 0 <==> !v@.take(i as int).contains('/'),
            count >= 1 ==> (slash matches Some(k) && k < i && v@[k as int] == '/' && !v@.take(
                k as int,
            ).contains('/')),
            count == 1 ==> (slash matches Some(k) && !v@.subrange(k + 1, i as int).contains('/')),
            count >= 2 ==> (slash matches Some(k) && v@.subrange(k + 1, i as int).contains('/')),
        decreases v.len() - i,
    {
        if v[i] == '/' {
            if count == 0 {
                slash = Some(i);
            }
            if count < 2 {
                count += 1;
            }
        }
        proof {
            assert(v@.take(i + 1) =~= v@.take(i as int).push(v@[i as int]));
            lemma_push_contains(v@.take(i as int), v@[i as int], '/');
            match slash {
                Some(k) => {
                    if k < i {
                        assert(v@.subrange(k + 1, i + 1) =~= v@.subrange(k + 1, i as int).push(v@[i as int]));
                        lemma_push_contains(v@.subrange(k + 1, i as int), v@[i as int], '/');
                    } else if k == i {
                        assert(v@.subrange(k + 1, i + 1) =~= Seq::<char>::empty());
                    }
                },
                None => {},
            }
        }
        i += 1;
    }
    let ok = match slash {
        Some(k) => count == 1 && k > 0 && k + 1 < v.len(),
        None => false,
    };
    proof {
        assert(v@.take(v@.len() as int) == v@);
        if let Some(k) = slash {
            if count >= 1 {
                assert(v@.subrange(k + 1, v@.len() as int) == v@.skip(k + 1));
            }
        }
        if ok {
            let k = slash.unwrap();
            assert(owner_repo(path@)) by {
                assert(0 < k < path@.len() - 1 && path@[k as int] == '/');
            }
        } else {
            assert(!owner_repo(path@)) by {
                if owner_repo(path@) {
                    let j = choose|j: int|
                        0 < j < path@.len() - 1 && path@[j] == '/' && !path@.take(j).contains('/')
                            && !path@.skip(j + 1).contains('/');
                    assert(v@.take(v@.len() as int).contains('/')) by {
                        assert(v@[j] == '/');
                    }
                    let k = slash.unwrap();
                    if k < j {
                        assert(path@.take(j)[k as int] == '/');
                    } else if k > j {
                        assert(path@.skip(j + 1)[k - j - 1] == '/');
                    } else {
                        if count >= 2 {
                            let tail = v@.subrange(k + 1, v@.len() as int);
                            let w = choose|w: int| 0 <= w < tail.len() && #[trigger] tail[w] == '/';
                            assert(path@.skip(j + 1)[w] == '/');
                        }
                    }
                }
            }
        }
    }
    if ok {
        Some(path)
    } else {
        None
    }
}

/// Telegram notifications need a chat id (from the token file or the
/// chat id cache) that is not blank.
pub fn validate_telegram_notify(chat_id: &Option<String>, token_file: &str, chat_id_cache: &str) -> (r: Result<(), String>)
    ensures
        (chat_id matches Some(c) && trim_seq(c@).len() > 0) ==> r is Ok,
        !(chat_id matches Some(c) && trim_seq(c@).len() > 0) ==> (r matches Err(m) && m@
            == "--notify-telegram requires a chat id in "@ + token_file@ + " or "@ + chat_id_cache@),
{
    let usable = match chat_id {
        Some(c) => !is_blank(c.as_str()),
        None => false,
    };
    if usable {
        Ok(())
    } else {
        let mut m = owned("--notify-telegram requires a chat id in ");
        push_str(&mut m, token_file);
        push_str(&mut m, " or ");
        push_str(&mut m, chat_id_cache);
        Err(m)
    }
}

/// The name an archive is uploaded under: its file name, or
/// `chatgpt-output.tar.gz` when its path has none.
pub fn archive_upload_name(archive_path: &str) -> (r: String)
    ensures
        r@ == match crate::run::file_name_spec(archive_path@) {
            Some(n) => n,
            None => "chatgpt-output.tar.gz"@,
        },
{
    match crate::run::file_name(archive_path) {
        Some(n) => n,
        None => owned("chatgpt-output.tar.gz"),
    }
}

} // verus!
