//! Downloaded archives: which entries a `.tar.gz` holds and whether it is
//! safe to unpack, the changed files it carries, and the ranking of the
//! download links a chat page offers.
use vstd::prelude::*;
use crate::event::{lemma_lex_irreflexive, lex_lt};
use crate::strset::{insert_sorted, strictly_sorted};
use crate::text::{
    ascii_lower, contains_seq, join_seq, join_strings, owned, push_str, split_char, split_seq,
    str_eq, views,
};

verus! {

/// Why an archive was refused.
#[derive(Debug, Clone, PartialEq, Eq)]
pub enum TarError {
    Open { path: String, source: String },
    Read { path: String, source: String },
    UnsafeEntry(String),
    Empty,
    MultipleTopLevels(String),
    MissingChildEntry,
}

/// The message of a tar error.
pub open spec fn tar_error_message(e: TarError) -> Seq<char> {
    match e {
        TarError::Open { path, source } => "could not open archive "@ + path@ + ": "@ + source@,
        TarError::Read { path, source } => "could not read archive "@ + path@ + ": "@ + source@,
        TarError::UnsafeEntry(p) => "archive contains unsafe entry: "@ + p@,
        TarError::Empty => "archive has no entries"@,
        TarError::MultipleTopLevels(t) => "archive must contain exactly one top-level directory; found: "@
            + t@,
        TarError::MissingChildEntry => "archive must contain files under its top-level directory"@,
    }
}

impl TarError {
    /// The message a user sees for this error.
    pub fn message(&self) -> (s: String)
        ensures
            s@ == tar_error_message(*self),
    {
        let mut s = String::new();
        match self {
            TarError::Open { path, source } => {
                push_str(&mut s, "could not open archive ");
                push_str(&mut s, path.as_str());
                push_str(&mut s, ": ");
                push_str(&mut s, source.as_str());
            },
            TarError::Read { path, source } => {
                push_str(&mut s, "could not read archive ");
                push_str(&mut s, path.as_str());
                push_str(&mut s, ": ");
                push_str(&mut s, source.as_str());
            },
            TarError::UnsafeEntry(p) => {
                push_str(&mut s, "archive contains unsafe entry: ");
                push_str(&mut s, p.as_str());
            },
            TarError::Empty => {
                push_str(&mut s, "archive has no entries");
            },
            TarError::MultipleTopLevels(t) => {
                push_str(&mut s, "archive must contain exactly one top-level directory; found: ");
                push_str(&mut s, t.as_str());
            },
            TarError::MissingChildEntry => {
                push_str(&mut s, "archive must contain files under its top-level directory");
            },
        }
        s
    }
}

/// What a valid archive holds.
#[derive(Debug, Clone, PartialEq, Eq)]
pub struct TarValidation {
    pub size_bytes: u64,
    pub entry_count: usize,
    pub files: Vec<String>,
    pub top_levels: Vec<String>,
    pub top_level: Option<String>,
}

/// A download link on a chat page, with its score.
#[derive(Debug, Clone, PartialEq, Eq)]
pub struct TarCandidate {
    pub index: usize,
    pub text: String,
    pub href: String,
    pub download: String,
    pub aria: String,
    pub title: String,
    pub base_score: i32,
    pub final_score: i32,
}

// ---------------------------------------------------------------------
// Entries
// ---------------------------------------------------------------------

/// One entry header as read from an archive: its type byte, and its path
/// (or why the path could not be read).
#[derive(Debug, PartialEq, Eq)]
pub struct TarEntryInfo {
    pub entry_type: u8,
    pub path: Result<String, String>,
}

/// The plain view of an entry.
pub open spec fn entry_view(e: TarEntryInfo) -> (u8, Result<Seq<char>, Seq<char>>) {
    (
        e.entry_type,
        match e.path {
            Ok(p) => Ok(p@),
            Err(m) => Err(m@),
        },
    )
}

/// The plain view of a list of entries.
pub open spec fn entry_views(es: Seq<TarEntryInfo>) -> Seq<(u8, Result<Seq<char>, Seq<char>>)> {
    es.map_values(|e: TarEntryInfo| entry_view(e))
}

/// What the `tar` crate reads from a gzip-compressed archive: the entries
/// it could read, in order, and the error that stopped it, if any.
pub uninterp spec fn tar_gz_listing(bytes: Seq<u8>) -> (
    Seq<(u8, Result<Seq<char>, Seq<char>>)>,
    Option<Seq<char>>,
);

/// `tar::Archive::entries` over `flate2::read::GzDecoder`: each entry's
/// header type byte and its path (lossily as text), up to the first read
/// error.  Claimed: the result is the listing of exactly these bytes.
#[verifier::external_body]
fn read_tar_gz_entries(bytes: &[u8]) -> (r: (Vec<TarEntryInfo>, Option<String>))
    ensures
        (entry_views(r.0@), match r.1 {
            Some(m) => Some(m@),
            None => None,
        }) == tar_gz_listing(bytes@),
{
    let mut out = Vec::new();
    let mut archive = tar::Archive::new(flate2::read::GzDecoder::new(bytes));
    let entries = match archive.entries() {
        Ok(entries) => entries,
        Err(error) => return (out, Some(error.to_string())),
    };
    for entry in entries {
        let entry = match entry {
            Ok(entry) => entry,
            Err(error) => return (out, Some(error.to_string())),
        };
        let path = entry.path().map(|p| p.to_string_lossy().into_owned()).map_err(|e| e.to_string());
        out.push(TarEntryInfo { entry_type: entry.header().entry_type().as_byte(), path });
    }
    (out, None)
}

/// PAX global and local extension headers and GNU long name and long link
/// headers describe other entries.
pub open spec fn is_metadata_type(b: u8) -> bool {
    b == 0x67 || b == 0x78 || b == 0x4c || b == 0x4b
}

/// A regular file (`0` or a NUL type byte).
pub open spec fn is_regular_type(b: u8) -> bool {
    b == 0 || b == 0x30
}

/// The normal components of a relative entry path, in order; none when
/// the path is absolute or has a parent or `.git` component.  Empty and
/// `.` components are dropped.
pub open spec fn clean_parts(parts: Seq<Seq<char>>) -> Option<Seq<Seq<char>>>
    decreases parts.len(),
{
    if parts.len() == 0 {
        Some(Seq::empty())
    } else {
        match clean_parts(parts.drop_last()) {
            None => None,
            Some(r) => {
                let x = parts.last();
                if x == ".."@ || x == ".git"@ {
                    None
                } else if x.len() == 0 || x == "."@ {
                    Some(r)
                } else {
                    Some(r.push(x))
                }
            },
        }
    }
}

/// The safe components of an entry path.
pub open spec fn entry_parts(p: Seq<char>) -> Option<Seq<Seq<char>>> {
    if p.len() > 0 && p[0] == '/' {
        None
    } else {
        clean_parts(split_seq(p, '/'))
    }
}

/// The components of a tar entry path, refused when it is absolute or
/// has a `..` or `.git` component (`.` and empty pieces are dropped).
pub fn validate_entry_path(path: &str) -> (r: Result<Vec<String>, TarError>)
    ensures
        match entry_parts(path@) {
            Some(parts) => r matches Ok(v) && views(v@) == parts,
            None => r matches Err(TarError::UnsafeEntry(p)) && p@ == path@,
        },
{
    match entry_components(path) {
        Some(v) => Ok(v),
        None => Err(TarError::UnsafeEntry(crate::text::owned(path))),
    }
}

/// What the scan of the entries has found so far.
pub struct ScanView {
    pub files: Seq<Seq<char>>,
    pub tops: Set<Seq<char>>,
    pub child: bool,
    pub count: nat,
}

/// The scan goes on, or stopped at an unsafe or unreadable entry.
pub enum ScanResult {
    Going(ScanView),
    Unsafe(Seq<char>),
    ReadFailed(Seq<char>),
}

/// One entry of the scan: metadata headers are skipped; every other entry
/// counts, adds its top-level component, and (when a regular file) its
/// cleaned path.
pub open spec fn scan_step(s: ScanResult, e: (u8, Result<Seq<char>, Seq<char>>)) -> ScanResult {
    match s {
        ScanResult::Going(v) => if is_metadata_type(e.0) {
            s
        } else {
            match e.1 {
                Err(m) => ScanResult::ReadFailed(m),
                Ok(p) => match entry_parts(p) {
                    None => ScanResult::Unsafe(p),
                    Some(parts) => if parts.len() == 0 {
                        ScanResult::Unsafe(p)
                    } else {
                        ScanResult::Going(
                            ScanView {
                                files: if is_regular_type(e.0) {
                                    v.files.push(join_seq(parts, "/"@))
                                } else {
                                    v.files
                                },
                                tops: v.tops.insert(parts[0]),
                                child: v.child || parts.len() > 1,
                                count: v.count + 1,
                            },
                        )
                    },
                },
            }
        },
        _ => s,
    }
}

/// The scan of a list of entries, in order.
pub open spec fn scan(es: Seq<(u8, Result<Seq<char>, Seq<char>>)>) -> ScanResult
    decreases es.len(),
{
    if es.len() == 0 {
        ScanResult::Going(ScanView { files: Seq::empty(), tops: Set::empty(), child: false, count: 0 })
    } else {
        scan_step(scan(es.drop_last()), es.last())
    }
}

/// Only regular files are listed: while the scan goes on, an entry that
/// is not a regular file (type `0` or NUL) — a directory (`5`), a link, a
/// metadata header — leaves the files as they were, and a regular file
/// with a safe path adds exactly its cleaned path, after those before it.
pub proof fn lemma_scan_lists_regular_files(
    es: Seq<(u8, Result<Seq<char>, Seq<char>>)>,
    e: (u8, Result<Seq<char>, Seq<char>>),
)
    requires
        scan(es) is Going,
    ensures
        scan(es.push(e)) matches ScanResult::Going(v2) ==> {
            let v = scan(es)->Going_0;
            &&& (e.0 != 0 && e.0 != 0x30 ==> v2.files == v.files)
            &&& (e.0 == 0 || e.0 == 0x30) ==> (e.1 matches Ok(p) && entry_parts(p) matches Some(parts)
                && v2.files == v.files.push(join_seq(parts, "/"@)))
        },
        e.0 == 0x35 && scan(es.push(e)) is Going ==> scan(es.push(e))->Going_0.files == scan(es)->Going_0.files,
{
    assert(es.push(e).drop_last() == es);
    assert(es.push(e).last() == e);
}

/// The verdict on an archive of `size` bytes whose listing is `es` then
/// `trailing`.
pub open spec fn validation_is(
    r: Result<TarValidation, TarError>,
    path: Seq<char>,
    size: u64,
    es: Seq<(u8, Result<Seq<char>, Seq<char>>)>,
    trailing: Option<Seq<char>>,
    require_single_top_level: bool,
) -> bool {
    match scan(es) {
        ScanResult::Unsafe(p) => r matches Err(TarError::UnsafeEntry(m)) && m@ == p,
        ScanResult::ReadFailed(m) => r matches Err(TarError::Read { path: x, source }) && x@ == path
            && source@ == m,
        ScanResult::Going(v) => match trailing {
            Some(m) => r matches Err(TarError::Read { path: x, source }) && x@ == path && source@
                == m,
            None => if v.count == 0 {
                r == Err::<TarValidation, TarError>(TarError::Empty)
            } else if require_single_top_level && v.tops.len() != 1 {
                r matches Err(TarError::MultipleTopLevels(m)) && exists|t: Seq<Seq<char>>|
                    strictly_sorted(t) && t.to_set() == v.tops && m@ == join_seq(t, ", "@)
            } else if require_single_top_level && !v.child {
                r == Err::<TarValidation, TarError>(TarError::MissingChildEntry)
            } else {
                r matches Ok(val) && val.size_bytes == size && val.entry_count == v.count && views(
                    val.files@,
                ) == v.files && strictly_sorted(views(val.top_levels@)) && views(
                    val.top_levels@,
                ).to_set() == v.tops && (if v.tops.len() == 1 {
                    val.top_levels@.len() == 1 && val.top_level == Some(val.top_levels@[0])
                } else {
                    val.top_level is None
                })
            },
        },
    }
}

/// The safe components of an entry path (`Path::components`, refusing a
/// root, a parent and a `.git` component).
pub fn entry_components(p: &str) -> (r: Option<Vec<String>>)
    ensures
        match r {
            Some(v) => entry_parts(p@) == Some(views(v@)),
            None => entry_parts(p@) is None,
        },
{
    let cs = crate::text::chars_of(p);
    if cs.len() > 0 && cs[0] == '/' {
        return None;
    }
    let parts = split_char(p, '/');
    let ghost ps = views(parts@);
    let mut out: Vec<String> = Vec::new();
    let mut k: usize = 0;
    while k < parts.len()
        invariant
            k <= parts.len(),
            ps == views(parts@),
            ps == split_seq(p@, '/'),
            !(p@.len() > 0 && p@[0] == '/'),
            clean_parts(ps.take(k as int)) == Some(views(out@)),
        decreases parts.len() - k,
    {
        let x = parts[k].as_str();
        assert(ps.take(k + 1).drop_last() == ps.take(k as int));
        assert(ps.take(k + 1).last() == x@);
        proof {
            reveal_strlit("..");
            reveal_strlit(".git");
            reveal_strlit(".");
        }
        if str_eq(x, "..") || str_eq(x, ".git") {
            proof {
                lemma_clean_parts_none(ps, k as int + 1);
            }
            return None;
        }
        if !(x.unicode_len() == 0 || str_eq(x, ".")) {
            let ghost before = out@;
            out.push(parts[k].clone());
            assert(views(out@) =~= views(before).push(x@));
        }
        k += 1;
    }
    assert(ps.take(ps.len() as int) == ps);
    Some(out)
}

proof fn lemma_clean_parts_none(ps: Seq<Seq<char>>, k: int)
    requires
        0 <= k <= ps.len(),
        clean_parts(ps.take(k)) is None,
    ensures
        clean_parts(ps) is None,
    decreases ps.len() - k,
{
    if k < ps.len() {
        assert(ps.take(k + 1).drop_last() == ps.take(k));
        lemma_clean_parts_none(ps, k + 1);
    } else {
        assert(ps.take(k) == ps);
    }
}

proof fn lemma_scan_stays_stopped(es: Seq<(u8, Result<Seq<char>, Seq<char>>)>, k: int)
    requires
        0 <= k <= es.len(),
        !(scan(es.take(k)) is Going),
    ensures
        scan(es) == scan(es.take(k)),
    decreases es.len() - k,
{
    if k < es.len() {
        assert(es.take(k + 1).drop_last() == es.take(k));
        lemma_scan_stays_stopped(es, k + 1);
    } else {
        assert(es.take(k) == es);
    }
}

proof fn lemma_sorted_set_len(t: Seq<Seq<char>>)
    requires
        strictly_sorted(t),
    ensures
        t.to_set().len() == t.len(),
        t.to_set().finite(),
{
    assert(t.no_duplicates()) by {
        assert forall|i: int, j: int| 0 <= i < t.len() && 0 <= j < t.len() && i != j implies t[i]
            != t[j] by {
            lemma_lex_irreflexive(t[i]);
            if i < j {
                assert(lex_lt(t[i], t[j]));
            } else {
                assert(lex_lt(t[j], t[i]));
            }
        }
    }
    t.unique_seq_to_set();
}

/// The verdict on an archive from its listing: the entries read, then the
/// read error that stopped the listing, if any.
pub fn validation_from_entries(
    path: &str,
    size: u64,
    entries: &Vec<TarEntryInfo>,
    trailing: &Option<String>,
    require_single_top_level: bool,
) -> (r: Result<TarValidation, TarError>)
    ensures
        validation_is(
            r,
            path@,
            size,
            entry_views(entries@),
            match *trailing {
                Some(m) => Some(m@),
                None => None,
            },
            require_single_top_level,
        ),
{
    let ghost es = entry_views(entries@);
    let mut files: Vec<String> = Vec::new();
    let mut tops: Vec<String> = Vec::new();
    let mut child = false;
    let mut count: usize = 0;
    let mut k: usize = 0;
    assert(es.take(0) =~= Seq::<(u8, Result<Seq<char>, Seq<char>>)>::empty());
    assert(views(tops@).to_set() =~= Set::<Seq<char>>::empty());
    assert(views(files@) =~= Seq::<Seq<char>>::empty());
    assert(scan(es.take(0)) == ScanResult::Going(
        ScanView { files: views(files@), tops: views(tops@).to_set(), child, count: 0 },
    ));
    while k < entries.len()
        invariant
            k <= entries.len(),
            es == entry_views(entries@),
            count <= k,
            strictly_sorted(views(tops@)),
            scan(es.take(k as int)) == ScanResult::Going(
                ScanView { files: views(files@), tops: views(tops@).to_set(), child, count: count as nat },
            ),
        decreases entries.len() - k,
    {
        let e = &entries[k];
        assert(es.take(k + 1).drop_last() == es.take(k as int));
        assert(es.take(k + 1).last() == entry_view(*e));
        let t = e.entry_type;
        if t == 0x67 || t == 0x78 || t == 0x4c || t == 0x4b {
            k += 1;
            continue;
        }
        match &e.path {
            Err(m) => {
                proof {
                    lemma_scan_stays_stopped(es, k + 1);
                }
                return Err(TarError::Read { path: owned(path), source: m.clone() });
            },
            Ok(p) => {
                match entry_components(p.as_str()) {
                    None => {
                        proof {
                            lemma_scan_stays_stopped(es, k + 1);
                        }
                        return Err(TarError::UnsafeEntry(p.clone()));
                    },
                    Some(parts) => {
                        if parts.len() == 0 {
                            proof {
                                lemma_scan_stays_stopped(es, k + 1);
                            }
                            return Err(TarError::UnsafeEntry(p.clone()));
                        }
                        let ghost f0 = files@;
                        let ghost t0 = views(tops@).to_set();
                        insert_sorted(&mut tops, parts[0].clone());
                        if parts.len() > 1 {
                            child = true;
                        }
                        if t == 0 || t == 0x30 {
                            let joined = join_strings(&parts, "/");
                            files.push(joined);
                            assert(views(files@) =~= views(f0).push(join_seq(views(parts@), "/"@)));
                        }
                        count = count + 1;
                    },
                }
            },
        }
        k += 1;
    }
    assert(es.take(entries.len() as int) == es);
    match trailing {
        Some(m) => {
            return Err(TarError::Read { path: owned(path), source: m.clone() });
        },
        None => {},
    }
    if count == 0 {
        return Err(TarError::Empty);
    }
    proof {
        lemma_sorted_set_len(views(tops@));
    }
    if require_single_top_level && tops.len() != 1 {
        let m = join_strings(&tops, ", ");
        assert(strictly_sorted(views(tops@)) && views(tops@).to_set() == views(tops@).to_set()
            && m@ == join_seq(views(tops@), ", "@));
        return Err(TarError::MultipleTopLevels(m));
    }
    if require_single_top_level && !child {
        return Err(TarError::MissingChildEntry);
    }
    let top_level = if tops.len() == 1 {
        Some(tops[0].clone())
    } else {
        None
    };
    Ok(TarValidation { size_bytes: size, entry_count: count, files, top_levels: tops, top_level })
}

/// Validates the bytes of a `.tar.gz` read from `path`: every entry must
/// be relative, free of `..` and `.git`, and (when asked) under a single
/// top-level directory that has children.
pub fn validate_tar_gz(path: &str, bytes: &[u8], require_single_top_level: bool) -> (r: Result<
    TarValidation,
    TarError,
>)
    ensures
        validation_is(
            r,
            path@,
            bytes@.len() as u64,
            tar_gz_listing(bytes@).0,
            tar_gz_listing(bytes@).1,
            require_single_top_level,
        ),
{
    let (entries, trailing) = read_tar_gz_entries(bytes);
    validation_from_entries(path, bytes.len() as u64, &entries, &trailing, require_single_top_level)
}

// ---------------------------------------------------------------------
// Changed files
// ---------------------------------------------------------------------

/// The non-empty pieces of a split path.
pub open spec fn nonempty_parts(parts: Seq<Seq<char>>) -> Seq<Seq<char>>
    decreases parts.len(),
{
    if parts.len() == 0 {
        Seq::empty()
    } else if parts.last().len() > 0 {
        nonempty_parts(parts.drop_last()).push(parts.last())
    } else {
        nonempty_parts(parts.drop_last())
    }
}

/// A file path with its first `strip` components removed.
pub open spec fn stripped_path(file: Seq<char>, strip: nat) -> Seq<char> {
    let parts = nonempty_parts(split_seq(file, '/'));
    if strip <= parts.len() {
        join_seq(parts.skip(strip as int), "/"@)
    } else {
        Seq::empty()
    }
}

/// The files of an archive below its first `strip` components, those that
/// are not empty then.
pub open spec fn changed_paths_spec(files: Seq<Seq<char>>, strip: nat) -> Seq<Seq<char>>
    decreases files.len(),
{
    if files.len() == 0 {
        Seq::empty()
    } else {
        let rest = changed_paths_spec(files.drop_last(), strip);
        let p = stripped_path(files.last(), strip);
        if p.len() > 0 {
            rest.push(p)
        } else {
            rest
        }
    }
}

fn strip_file_path(file: &str, strip: usize) -> (r: String)
    ensures
        r@ == stripped_path(file@, strip as nat),
{
    let parts = split_char(file, '/');
    let ghost ps = views(parts@);
    let mut kept: Vec<String> = Vec::new();
    let mut k: usize = 0;
    while k < parts.len()
        invariant
            k <= parts.len(),
            ps == views(parts@),
            views(kept@) == nonempty_parts(ps.take(k as int)),
        decreases parts.len() - k,
    {
        assert(ps.take(k + 1).drop_last() == ps.take(k as int));
        if parts[k].as_str().unicode_len() > 0 {
            let ghost before = kept@;
            kept.push(parts[k].clone());
            assert(views(kept@) =~= views(before).push(ps[k as int]));
        }
        k += 1;
    }
    assert(ps.take(ps.len() as int) == ps);
    if strip > kept.len() {
        return String::new();
    }
    let mut tail: Vec<String> = Vec::new();
    let mut j: usize = strip;
    while j < kept.len()
        invariant
            strip <= j <= kept.len(),
            views(tail@) == views(kept@).subrange(strip as int, j as int),
        decreases kept.len() - j,
    {
        let ghost before = tail@;
        tail.push(kept[j].clone());
        assert(views(tail@) =~= views(before).push(views(kept@)[j as int]));
        assert(views(tail@) =~= views(kept@).subrange(strip as int, j + 1));
        j += 1;
    }
    assert(views(kept@).subrange(strip as int, kept@.len() as int) == views(kept@).skip(
        strip as int,
    ));
    join_strings(&tail, "/")
}

/// The changed files an archive carries, below `strip_components`.
pub fn derive_changed_file_paths(validation: &TarValidation, strip_components: usize) -> (r: Vec<
    String,
>)
    ensures
        views(r@) == changed_paths_spec(views(validation.files@), strip_components as nat),
{
    let ghost fs = views(validation.files@);
    let mut out: Vec<String> = Vec::new();
    let mut k: usize = 0;
    while k < validation.files.len()
        invariant
            k <= validation.files.len(),
            fs == views(validation.files@),
            views(out@) == changed_paths_spec(fs.take(k as int), strip_components as nat),
        decreases validation.files.len() - k,
    {
        assert(fs.take(k + 1).drop_last() == fs.take(k as int));
        let p = strip_file_path(validation.files[k].as_str(), strip_components);
        if p.as_str().unicode_len() > 0 {
            let ghost before = out@;
            out.push(p);
            assert(views(out@) =~= views(before).push(stripped_path(fs[k as int], strip_components as nat)));
        }
        k += 1;
    }
    assert(fs.take(fs.len() as int) == fs);
    out
}

/// The changed paths are the archive's files in its order, each below its
/// first `strip` components, without those that are then empty: so none of
/// them is empty, and there are no more of them than files.
pub proof fn lemma_changed_paths_shape(files: Seq<Seq<char>>, strip: nat)
    ensures
        changed_paths_spec(files, strip) == files.map_values(|f: Seq<char>| stripped_path(f, strip)).filter(
            |p: Seq<char>| p.len() > 0,
        ),
        changed_paths_spec(files, strip).len() <= files.len(),
        forall|k: int|
            0 <= k < changed_paths_spec(files, strip).len() ==> #[trigger] changed_paths_spec(
                files,
                strip,
            )[k].len() > 0,
    decreases files.len(),
{
    let pred = |p: Seq<char>| p.len() > 0;
    let m = files.map_values(|f: Seq<char>| stripped_path(f, strip));
    if files.len() == 0 {
        reveal(Seq::filter);
        assert(m =~= Seq::<Seq<char>>::empty());
    } else {
        lemma_changed_paths_shape(files.drop_last(), strip);
        let m0 = files.drop_last().map_values(|f: Seq<char>| stripped_path(f, strip));
        assert(m =~= m0.push(stripped_path(files.last(), strip)));
        m0.lemma_filter_push(stripped_path(files.last(), strip), pred);
    }
    m.lemma_filter_len(pred);
    assert forall|k: int| 0 <= k < m.filter(pred).len() implies #[trigger] m.filter(pred)[k].len() > 0 by {
        m.lemma_filter_pred(pred, k);
    }
}

// ---------------------------------------------------------------------
// Ranking download links
// ---------------------------------------------------------------------

/// `s` with every trailing `suf` removed (`str::trim_end_matches`).
pub open spec fn strip_suffix_all(s: Seq<char>, suf: Seq<char>) -> Seq<char>
    decreases s.len(),
{
    if suf.len() > 0 && crate::text::ends_with(s, suf) {
        strip_suffix_all(s.take(s.len() - suf.len()), suf)
    } else {
        s
    }
}

/// The ASCII letters and digits of `s`, lowercased.
pub open spec fn alnum_lower(s: Seq<char>) -> Seq<char>
    decreases s.len(),
{
    if s.len() == 0 {
        Seq::empty()
    } else if crate::text::is_ascii_alnum(s.last()) {
        alnum_lower(s.drop_last()).push(crate::text::lower_char(s.last()))
    } else {
        alnum_lower(s.drop_last())
    }
}

/// A name reduced for comparison: trimmed, without `.tar.gz` suffixes,
/// only lowercase letters and digits.
pub open spec fn normalize_spec(v: Seq<char>) -> Seq<char> {
    alnum_lower(strip_suffix_all(crate::text::trim_seq(v), ".tar.gz"@))
}

/// Reduces a name for comparison.
pub fn normalize_tar_name(value: &str) -> (r: String)
    ensures
        r@ == normalize_spec(value@),
{
    let mut t = crate::text::trim(value);
    proof {
        reveal_strlit(".tar.gz");
    }
    while crate::text::str_ends_with(t.as_str(), ".tar.gz")
        invariant
            strip_suffix_all(t@, ".tar.gz"@) == strip_suffix_all(crate::text::trim_seq(value@), ".tar.gz"@),
            ".tar.gz"@.len() == 7,
        decreases t@.len(),
    {
        let n = t.as_str().unicode_len();
        t = crate::text::take_chars(t.as_str(), n - 7);
    }
    let v = crate::text::chars_of(t.as_str());
    let mut r = String::new();
    let mut i: usize = 0;
    while i < v.len()
        invariant
            i <= v.len(),
            r@ == alnum_lower(v@.take(i as int)),
        decreases v.len() - i,
    {
        assert(v@.take(i + 1).drop_last() == v@.take(i as int));
        let c = v[i];
        if ('0' <= c && c <= '9') || ('a' <= c && c <= 'z') || ('A' <= c && c <= 'Z') {
            crate::text::push_char(&mut r, crate::text::char_lower(c));
        }
        i += 1;
    }
    assert(v@.take(v@.len() as int) == v@);
    r
}

/// The text a link is matched on: its fields joined by spaces.
pub open spec fn haystack_spec(c: TarCandidate) -> Seq<char> {
    c.text@ + " "@ + c.href@ + " "@ + c.download@ + " "@ + c.aria@ + " "@ + c.title@
}

/// The bonus of a link: 850 for the target name exactly, 250 when one
/// contains the other, 150 for a `.tar.gz`, 60 for a download.
pub open spec fn bonus_spec(c: TarCandidate, target: Seq<char>) -> int {
    let h = haystack_spec(c);
    let n = normalize_spec(h);
    let name = if target.len() > 0 {
        if n == target {
            850int
        } else if contains_seq(n, target) || contains_seq(target, n) {
            250int
        } else {
            0int
        }
    } else {
        0int
    };
    let tgz = if contains_seq(ascii_lower(h), ".tar.gz"@) {
        150int
    } else {
        0int
    };
    let dl = if contains_seq(ascii_lower(h), "download"@) {
        60int
    } else {
        0int
    };
    name + tgz + dl
}

/// A link with its final score.
pub open spec fn scored_spec(c: TarCandidate, target: Seq<char>) -> TarCandidate {
    TarCandidate { final_score: (c.base_score + bonus_spec(c, target)) as i32, ..c }
}

/// Higher scores first; equal scores by index.
pub open spec fn rank_before(a: TarCandidate, b: TarCandidate) -> bool {
    a.final_score > b.final_score || (a.final_score == b.final_score && a.index <= b.index)
}

/// Where a link is placed in a ranked list: after the leading links that
/// rank before it or tie with it.
pub open spec fn rank_slot(s: Seq<TarCandidate>, c: TarCandidate) -> nat
    decreases s.len(),
{
    if s.len() > 0 && rank_before(s[0], c) {
        1 + rank_slot(s.drop_first(), c)
    } else {
        0
    }
}

/// Links ranked one by one in their given order, each placed after the
/// links already ranked before it: the stable order by descending score,
/// then ascending index.
pub open spec fn ranked_spec(s: Seq<TarCandidate>) -> Seq<TarCandidate>
    decreases s.len(),
{
    if s.len() == 0 {
        Seq::empty()
    } else {
        let r = ranked_spec(s.drop_last());
        r.insert(rank_slot(r, s.last()) as int, s.last())
    }
}

proof fn lemma_rank_slot(s: Seq<TarCandidate>, c: TarCandidate, p: int)
    requires
        0 <= p <= s.len(),
        forall|q: int| 0 <= q < p ==> rank_before(#[trigger] s[q], c),
        p == s.len() || !rank_before(s[p], c),
    ensures
        rank_slot(s, c) == p,
    decreases p,
{
    if p > 0 {
        let t = s.drop_first();
        assert forall|q: int| 0 <= q < p - 1 implies rank_before(#[trigger] t[q], c) by {
            assert(t[q] == s[q + 1]);
        }
        assert(p - 1 == t.len() || t[p - 1] == s[p]);
        lemma_rank_slot(t, c, p - 1);
    }
}

fn score_candidate(c: &TarCandidate, target: &str) -> (r: TarCandidate)
    requires
        c.base_score + bonus_spec(*c, target@) <= i32::MAX,
    ensures
        r == scored_spec(*c, target@),
{
    let mut h = c.text.clone();
    push_str(&mut h, " ");
    push_str(&mut h, c.href.as_str());
    push_str(&mut h, " ");
    push_str(&mut h, c.download.as_str());
    push_str(&mut h, " ");
    push_str(&mut h, c.aria.as_str());
    push_str(&mut h, " ");
    push_str(&mut h, c.title.as_str());
    let mut bonus: i32 = 0;
    if target.unicode_len() > 0 {
        let n = normalize_tar_name(h.as_str());
        if str_eq(n.as_str(), target) {
            bonus = 850;
        } else if crate::text::str_contains(n.as_str(), target) || crate::text::str_contains(
            target,
            n.as_str(),
        ) {
            bonus = 250;
        }
    }
    let lower = crate::text::to_ascii_lower(h.as_str());
    if crate::text::str_contains(lower.as_str(), ".tar.gz") {
        bonus = bonus + 150;
    }
    if crate::text::str_contains(lower.as_str(), "download") {
        bonus = bonus + 60;
    }
    TarCandidate {
        index: c.index,
        text: c.text.clone(),
        href: c.href.clone(),
        download: c.download.clone(),
        aria: c.aria.clone(),
        title: c.title.clone(),
        base_score: c.base_score,
        final_score: c.base_score + bonus,
    }
}

/// Scores every link against the target name and orders them, best
/// first (ties by index, in their given order): each link comes out
/// scored, and the order is the stable one of `ranked_spec`.
pub fn rank_tar_candidates(candidates: &Vec<TarCandidate>, target_name: &str) -> (r: Vec<
    TarCandidate,
>)
    requires
        forall|i: int|
            0 <= i < candidates@.len() ==> #[trigger] candidates@[i].base_score + bonus_spec(
                candidates@[i],
                normalize_spec(target_name@),
            ) <= i32::MAX,
    ensures
        r@.to_multiset() == candidates@.map_values(
            |c: TarCandidate| scored_spec(c, normalize_spec(target_name@)),
        ).to_multiset(),
        forall|i: int, j: int| 0 <= i < j < r@.len() ==> rank_before(#[trigger] r@[i], #[trigger] r@[j]),
        forall|k: int| 0 <= k < r@.len() ==> exists|i: int| 0 <= i < candidates@.len() && #[trigger] r@[k]
            == scored_spec(#[trigger] candidates@[i], normalize_spec(target_name@)),
        r@ == ranked_spec(
            candidates@.map_values(|c: TarCandidate| scored_spec(c, normalize_spec(target_name@))),
        ),
{
    broadcast use vstd::seq_lib::group_to_multiset_ensures;

    let target = normalize_tar_name(target_name);
    let ghost sc = candidates@.map_values(|c: TarCandidate| scored_spec(c, target@));
    let mut ranked: Vec<TarCandidate> = Vec::new();
    let mut k: usize = 0;
    assert(sc.take(0) =~= Seq::<TarCandidate>::empty());
    while k < candidates.len()
        invariant
            k <= candidates.len(),
            sc == candidates@.map_values(|c: TarCandidate| scored_spec(c, target@)),
            forall|i: int|
                0 <= i < candidates@.len() ==> #[trigger] candidates@[i].base_score + bonus_spec(
                    candidates@[i],
                    target@,
                ) <= i32::MAX,
            ranked@.to_multiset() == sc.take(k as int).to_multiset(),
            forall|i: int, j: int| 0 <= i < j < ranked@.len() ==> rank_before(#[trigger] ranked@[i], #[trigger] ranked@[j]),
            ranked@ == ranked_spec(sc.take(k as int)),
        decreases candidates.len() - k,
    {
        let c = score_candidate(&candidates[k], target.as_str());
        assert(c == sc[k as int]);
        let ghost v0 = ranked@;
        let mut p: usize = 0;
        while p < ranked.len() && rank_before_exec(&ranked[p], &c)
            invariant
                p <= ranked.len(),
                ranked@ == v0,
                forall|q: int| 0 <= q < p ==> rank_before(#[trigger] v0[q], c),
            decreases ranked.len() - p,
        {
            p += 1;
        }
        proof {
            lemma_rank_slot(v0, c, p as int);
            assert(sc.take(k + 1).drop_last() == sc.take(k as int));
            assert(sc.take(k + 1).last() == c);
        }
        ranked.insert(p, c);
        proof {
            vstd::seq_lib::to_multiset_insert(v0, p as int, c);
            assert(sc.take(k + 1) == sc.take(k as int).push(c));
            vstd::seq_lib::to_multiset_build(sc.take(k as int), c);
            assert(ranked@.to_multiset() == sc.take(k + 1).to_multiset());
            let v1 = ranked@;
            assert(v1 == v0.insert(p as int, c));
            assert forall|a: int, b: int| 0 <= a < b < v1.len() implies rank_before(#[trigger] v1[a], #[trigger] v1[b]) by {
                if b < p {
                    assert(v1[a] == v0[a] && v1[b] == v0[b]);
                } else if b == p {
                    assert(v1[a] == v0[a]);
                } else if a == p {
                    assert(v1[b] == v0[b - 1]);
                    assert(!rank_before(v0[p as int], c));
                    if b - 1 > p {
                        assert(rank_before(v0[p as int], v0[b - 1]));
                    }
                } else if a < p {
                    assert(v1[a] == v0[a] && v1[b] == v0[b - 1]);
                    assert(rank_before(v0[a], c));
                    assert(!rank_before(v0[p as int], c));
                    if b - 1 > p {
                        assert(rank_before(v0[p as int], v0[b - 1]));
                    }
                } else {
                    assert(v1[a] == v0[a - 1] && v1[b] == v0[b - 1]);
                }
            }
        }
        k += 1;
    }
    assert(sc.take(candidates@.len() as int) == sc);
    proof {
        assert forall|k: int| 0 <= k < ranked@.len() implies exists|i: int| 0 <= i < candidates@.len()
            && #[trigger] ranked@[k] == scored_spec(#[trigger] candidates@[i], target@) by {
            assert(ranked@.contains(ranked@[k]));
            assert(ranked@.to_multiset().count(ranked@[k]) > 0);
            assert(sc.contains(ranked@[k]));
            let i = choose|i: int| 0 <= i < sc.len() && sc[i] == ranked@[k];
            assert(sc[i] == scored_spec(candidates@[i], target@));
        }
    }
    ranked
}

fn rank_before_exec(a: &TarCandidate, b: &TarCandidate) -> (r: bool)
    ensures
        r == rank_before(*a, *b),
{
    a.final_score > b.final_score || (a.final_score == b.final_score && a.index <= b.index)
}

} // verus!
