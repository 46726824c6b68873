use dom_naming::text::{prefix_underscore, same_text, starts_with_ascii_digit};

#[test]
fn ascii_digits_are_found() {
    assert!(starts_with_ascii_digit("0"));
    assert!(starts_with_ascii_digit("9"));
    assert!(starts_with_ascii_digit("5abc"));
    assert!(starts_with_ascii_digit("12"));
}

#[test]
fn other_first_characters_are_not_digits() {
    assert!(!starts_with_ascii_digit(""));
    assert!(!starts_with_ascii_digit("a1"));
    assert!(!starts_with_ascii_digit("_0"));
    assert!(!starts_with_ascii_digit("/"));
    assert!(!starts_with_ascii_digit(":"));
    assert!(!starts_with_ascii_digit(" 1"));
    assert!(!starts_with_ascii_digit("\u{663}"));
    assert!(!starts_with_ascii_digit("\u{ff11}"));
    assert!(!starts_with_ascii_digit("\u{e9}1"));
}

#[test]
fn same_text_agrees_with_equality() {
    let samples = ["", "a", "A", "ab", "ba", "abc", "\u{e9}", "e\u{301}", "\u{1f600}", "_0", "0"];
    for a in samples {
        for b in samples {
            assert_eq!(same_text(a, b), a == b);
        }
    }
}

#[test]
fn same_text_sees_a_late_difference() {
    assert!(!same_text("fieldName", "fieldNamf"));
    assert!(!same_text("fieldName", "fieldNam"));
    assert!(!same_text("fieldNam", "fieldName"));
    assert!(same_text("fieldName", "fieldName"));
}

#[test]
fn underscore_goes_in_front() {
    assert_eq!(prefix_underscore("0"), "_0");
    assert_eq!(prefix_underscore(""), "_");
    assert_eq!(prefix_underscore("_"), "__");
    assert_eq!(prefix_underscore("1st_Place"), "_1st_Place");
    assert_eq!(prefix_underscore("\u{e9}"), "_\u{e9}");
}
