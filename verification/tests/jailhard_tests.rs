use jailgun::jailhard::check_manifest_entry;

#[test]
fn manifest_entries_are_checked_in_order() {
    assert_eq!(
        check_manifest_entry("", true, true),
        Err("include-manifest cannot select the repository root".to_string())
    );
    assert_eq!(
        check_manifest_entry("target/out.txt", true, true),
        Err("include-manifest path is inside an excluded directory: target/out.txt".to_string())
    );
    assert_eq!(
        check_manifest_entry("config/.env", false, true),
        Err("include-manifest refuses a secret-like file: config/.env".to_string())
    );
    assert_eq!(check_manifest_entry("docs/paper.cff", false, false), Ok(()));
}
