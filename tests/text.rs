use loadgen::text::{parse_size, same_text};

#[test]
fn sizes_are_read_with_blanks_around() {
    assert_eq!(parse_size("512"), Some(512));
    assert_eq!(parse_size("  64\n"), Some(64));
    assert_eq!(parse_size("0"), Some(0));
    assert_eq!(parse_size("18446744073709551615"), Some(usize::MAX));
}

#[test]
fn bad_sizes_are_refused() {
    assert_eq!(parse_size(""), None);
    assert_eq!(parse_size("   "), None);
    assert_eq!(parse_size("12MB"), None);
    assert_eq!(parse_size("1 2"), None);
    assert_eq!(parse_size("-3"), None);
    assert_eq!(parse_size("18446744073709551616"), None);
}

#[test]
fn texts_compare_by_characters() {
    assert!(same_text("cpu", "cpu"));
    assert!(!same_text("cpu", "cpus"));
    assert!(!same_text("ram", "rom"));
    assert!(same_text("", ""));
}
