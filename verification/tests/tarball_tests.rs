use std::io::Write;

use flate2::{write::GzEncoder, Compression};
use jailgun::tarball::{
    derive_changed_file_paths, normalize_tar_name, rank_tar_candidates, validate_entry_path,
    validate_tar_gz, TarCandidate, TarError, TarValidation,
};
use tar::{Builder, EntryType, Header};

fn finish(builder: Builder<GzEncoder<Vec<u8>>>) -> Vec<u8> {
    let mut encoder = builder.into_inner().expect("encoder");
    encoder.flush().expect("flush");
    encoder.finish().expect("gzip finish")
}

fn archive(entries: &[(&str, &[u8])]) -> Vec<u8> {
    let encoder = GzEncoder::new(Vec::new(), Compression::default());
    let mut builder = Builder::new(encoder);
    for (name, bytes) in entries {
        let mut header = Header::new_gnu();
        header.set_size(bytes.len() as u64);
        header.set_mode(0o644);
        header.set_cksum();
        builder.append_data(&mut header, *name, *bytes).expect("append");
    }
    builder.finish().expect("finish");
    finish(builder)
}

fn archive_with_pax_global_header() -> Vec<u8> {
    let encoder = GzEncoder::new(Vec::new(), Compression::default());
    let mut builder = Builder::new(encoder);
    let pax_bytes = b"24 comment=git archive\n";
    let mut pax_header = Header::new_ustar();
    pax_header.set_entry_type(EntryType::XGlobalHeader);
    pax_header.set_size(pax_bytes.len() as u64);
    pax_header.set_mode(0o644);
    pax_header.set_cksum();
    builder.append_data(&mut pax_header, "pax_global_header", &pax_bytes[..]).expect("append pax header");
    let bytes = b"ok";
    let mut file_header = Header::new_gnu();
    file_header.set_size(bytes.len() as u64);
    file_header.set_mode(0o644);
    file_header.set_cksum();
    builder.append_data(&mut file_header, "root/src/lib.rs", &bytes[..]).expect("append file");
    builder.finish().expect("finish");
    finish(builder)
}

fn archive_with_raw_path(raw_path: &[u8], bytes: &[u8]) -> Vec<u8> {
    let encoder = GzEncoder::new(Vec::new(), Compression::default());
    let mut builder = Builder::new(encoder);
    let mut header = Header::new_gnu();
    header.set_size(bytes.len() as u64);
    header.set_mode(0o644);
    header.as_mut_bytes()[..raw_path.len()].copy_from_slice(raw_path);
    header.set_cksum();
    builder.append(&header, bytes).expect("append raw path");
    builder.finish().expect("finish");
    finish(builder)
}

#[test]
fn validates_safe_archive_and_changed_files() {
    let bytes = archive(&[("root/src/lib.rs", b"ok")]);
    let validation = validate_tar_gz("source.tar.gz", &bytes, true).expect("valid");
    assert_eq!(validation.top_level.as_deref(), Some("root"));
    assert_eq!(derive_changed_file_paths(&validation, 1), vec!["src/lib.rs"]);
    assert_eq!(validation.size_bytes, bytes.len() as u64);
}

#[test]
fn ignores_git_archive_pax_global_header_for_top_level_validation() {
    let bytes = archive_with_pax_global_header();
    let validation = validate_tar_gz("source.tar.gz", &bytes, true).expect("valid");
    assert_eq!(validation.top_level.as_deref(), Some("root"));
    assert_eq!(validation.top_levels, vec!["root"]);
    assert_eq!(validation.files, vec!["root/src/lib.rs"]);
}

#[test]
fn rejects_parent_traversal() {
    let bytes = archive_with_raw_path(b"root/../escape.txt", b"no");
    let error = validate_tar_gz("unsafe.tar.gz", &bytes, false).expect_err("unsafe");
    assert!(error.message().contains("unsafe entry"));
}

#[test]
fn rejects_git_directory_and_absolute_paths() {
    assert!(matches!(validate_entry_path("root/.git/config"), Err(TarError::UnsafeEntry(_))));
    assert!(matches!(validate_entry_path("/etc/passwd"), Err(TarError::UnsafeEntry(_))));
    assert_eq!(validate_entry_path("./root//src/./lib.rs").unwrap(), vec!["root", "src", "lib.rs"]);
}

#[test]
fn multiple_top_levels_are_refused_only_when_required() {
    let bytes = archive(&[("a/x.rs", b"1"), ("b/y.rs", b"2")]);
    let relaxed = validate_tar_gz("two.tar.gz", &bytes, false).expect("valid");
    assert_eq!(relaxed.top_level, None);
    assert_eq!(relaxed.top_levels, vec!["a", "b"]);
    assert_eq!(relaxed.entry_count, 2);
    assert!(matches!(validate_tar_gz("two.tar.gz", &bytes, true), Err(TarError::MultipleTopLevels(_))));
}

#[test]
fn empty_archive_is_refused() {
    let bytes = archive(&[]);
    assert!(matches!(validate_tar_gz("empty.tar.gz", &bytes, false), Err(TarError::Empty)));
}

#[test]
fn ranks_target_archive_first() {
    let candidates = vec![
        TarCandidate {
            index: 0,
            text: "Download notes.md".into(),
            href: "https://example.invalid/notes.md".into(),
            download: String::new(),
            aria: String::new(),
            title: String::new(),
            base_score: 100,
            final_score: 0,
        },
        TarCandidate {
            index: 1,
            text: "Download example-source.tar.gz".into(),
            href: "https://example.invalid/example-source.tar.gz".into(),
            download: "example-source.tar.gz".into(),
            aria: String::new(),
            title: String::new(),
            base_score: 90,
            final_score: 0,
        },
    ];
    let ranked = rank_tar_candidates(&candidates, "example-source.tar.gz");
    assert_eq!(ranked[0].index, 1);
    assert_eq!(ranked[0].final_score, 90 + 250 + 150 + 60);
    assert_eq!(ranked[1].final_score, 100 + 60);
}

#[test]
fn tar_names_normalize_to_lowercase_alphanumerics() {
    assert_eq!(normalize_tar_name(" Example-Source.tar.gz "), "examplesource");
    assert_eq!(normalize_tar_name("Example-Source.TAR.GZ"), "examplesourcetargz");
    assert_eq!(normalize_tar_name("a.tar.gz.tar.gz"), "a");
}

fn link(index: usize, text: &str, base_score: i32) -> TarCandidate {
    TarCandidate {
        index,
        text: text.into(),
        href: String::new(),
        download: String::new(),
        aria: String::new(),
        title: String::new(),
        base_score,
        final_score: 0,
    }
}

#[test]
fn equal_links_keep_their_given_order() {
    let candidates = vec![link(4, "first", 10), link(2, "second", 10), link(4, "third", 10)];
    let ranked = rank_tar_candidates(&candidates, "");
    let texts: Vec<&str> = ranked.iter().map(|c| c.text.as_str()).collect();
    assert_eq!(texts, vec!["second", "first", "third"]);
    let reversed = vec![link(4, "third", 10), link(2, "second", 10), link(4, "first", 10)];
    let ranked = rank_tar_candidates(&reversed, "");
    let texts: Vec<&str> = ranked.iter().map(|c| c.text.as_str()).collect();
    assert_eq!(texts, vec!["second", "third", "first"]);
}

#[test]
fn changed_paths_keep_order_and_drop_empty_ones() {
    let validation = TarValidation {
        size_bytes: 0,
        entry_count: 4,
        top_levels: vec!["root".into()],
        top_level: Some("root".into()),
        files: vec!["root/b.rs".into(), "root".into(), "root//src/a.rs".into(), "root/".into()],
    };
    assert_eq!(derive_changed_file_paths(&validation, 1), vec!["b.rs", "src/a.rs"]);
    assert_eq!(derive_changed_file_paths(&validation, 0), vec!["root/b.rs", "root", "root/src/a.rs", "root"]);
    assert!(derive_changed_file_paths(&validation, 3).is_empty());
}

#[test]
fn a_score_may_reach_the_largest_i32() {
    let candidates = vec![link(0, "download", i32::MAX - 60)];
    let ranked = rank_tar_candidates(&candidates, "");
    assert_eq!(ranked[0].final_score, i32::MAX);
}
