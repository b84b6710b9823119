use duners::text::{decimal_text, same_text};

#[test]
fn decimal_text_writes_base_ten() {
    assert_eq!(decimal_text(0), "0");
    assert_eq!(decimal_text(9), "9");
    assert_eq!(decimal_text(10), "10");
    assert_eq!(decimal_text(99), "99");
    assert_eq!(decimal_text(100), "100");
    assert_eq!(decimal_text(1234567890), "1234567890");
    assert_eq!(decimal_text(u32::MAX), "4294967295");
    for n in (0..200_000u32).chain((u32::MAX - 1000)..=u32::MAX) {
        assert_eq!(decimal_text(n), n.to_string());
    }
}

#[test]
fn same_text_compares_whole_texts() {
    assert!(same_text("", ""));
    assert!(same_text("a", "a"));
    assert!(same_text("héllo ✓", "héllo ✓"));
    assert!(!same_text("", "a"));
    assert!(!same_text("a", ""));
    assert!(!same_text("a", "b"));
    assert!(!same_text("ab", "a"));
    assert!(!same_text("ab", "ac"));
    assert!(!same_text("é", "e"));
    assert!(!same_text("QUERY_STATE_COMPLETED", "QUERY_STATE_COMPLETE"));
}
