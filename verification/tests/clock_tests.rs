use jailgun::clock::timestamp_now;

#[test]
fn timestamps_are_rfc3339() {
    let s: Vec<char> = timestamp_now().chars().collect();
    assert!(s.len() >= 20);
    for i in [0, 1, 2, 3, 5, 6, 8, 9, 11, 12, 14, 15, 17, 18] {
        assert!(s[i].is_ascii_digit(), "position {i}");
    }
    assert_eq!(s[4], '-');
    assert_eq!(s[7], '-');
    assert_eq!(s[10], 'T');
    assert_eq!(s[13], ':');
    assert_eq!(s[16], ':');
    assert_eq!(*s.last().unwrap(), 'Z');
}
