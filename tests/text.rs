use stu::text::{contains_text, decimal, pad_left, pad_right, trim};

#[test]
fn trim_removes_outer_white_space() {
    assert_eq!(trim("  name.txt \t"), "name.txt");
    assert_eq!(trim("   "), "");
    assert_eq!(trim("a b"), "a b");
    assert_eq!(trim("\u{3000}x\n"), "x");
}

#[test]
fn contains_text_finds_runs() {
    assert!(contains_text("foobar", "oba"));
    assert!(contains_text("foobar", ""));
    assert!(!contains_text("foo", "foobar"));
    assert!(!contains_text("bar", "rb"));
}

#[test]
fn decimal_and_padding() {
    assert_eq!(decimal(0), "0");
    assert_eq!(decimal(1234), "1234");
    assert_eq!(pad_left("5", 3), "  5");
    assert_eq!(pad_left("1234", 3), "1234");
    assert_eq!(pad_right("ab".to_string(), 4), "ab  ");
}

#[test]
fn trim_knows_unicode_spaces() {
    assert_eq!(trim("\u{85}\u{a0}x\u{2009}\u{202f}"), "x");
    assert_eq!(trim("\u{200b}x"), "\u{200b}x");
}
