use shotauto::text::{slice_le, text_eq, text_le};

#[test]
fn equal_texts_are_equal() {
    assert!(text_eq("", ""));
    assert!(text_eq("pending", "pending"));
    assert!(text_eq("caf\u{e9}", "caf\u{e9}"));
}

#[test]
fn different_texts_are_not_equal() {
    assert!(!text_eq("pending", "pendin"));
    assert!(!text_eq("pending", "pendinG"));
    assert!(!text_eq("", "a"));
    assert!(!text_eq("a", ""));
    assert!(!text_eq("caf\u{e9}", "cafe"));
}

#[test]
fn a_prefix_comes_first() {
    assert!(text_le("", ""));
    assert!(text_le("", "a"));
    assert!(!text_le("a", ""));
    assert!(text_le("2024-01-01", "2024-01-01 00:00:00"));
    assert!(!text_le("2024-01-01 00:00:00", "2024-01-01"));
}

#[test]
fn the_first_different_byte_decides() {
    assert!(text_le("2024-01-01 10:00:00", "2024-01-01 10:00:01"));
    assert!(!text_le("2024-01-01 10:00:01", "2024-01-01 10:00:00"));
    assert!(text_le("2023-12-31 23:59:59", "2024-01-01 00:00:00"));
    assert!(text_le("abc", "abd"));
    assert!(!text_le("abd", "abc"));
    assert!(text_le("Z", "a"));
    assert!(text_le("same", "same"));
}

#[test]
fn texts_are_ordered_by_their_stored_bytes() {
    assert!(text_le("z", "\u{e9}"));
    assert!(!text_le("\u{e9}", "z"));
    assert!(slice_le(&[1, 2, 3], &[1, 2, 3]));
    assert!(slice_le(&[1, 2], &[1, 2, 0]));
    assert!(slice_le(&[0, 255], &[1]));
    assert!(!slice_le(&[200], &[100, 255]));
}

#[test]
fn the_order_agrees_with_the_standard_library() {
    let texts = ["", "a", "ab", "b", "B", "2024-05-01T10:00:00+00:00", "2024-05-01 10:00:00", "\u{e9}", "\u{1f600}"];
    for a in texts {
        for b in texts {
            assert_eq!(text_le(a, b), a <= b, "{:?} {:?}", a, b);
            assert_eq!(text_eq(a, b), a == b, "{:?} {:?}", a, b);
        }
    }
}
