use downtime::text::{
    chars_of, contains, decimal_i32, decimal_u64, glue, lines_of, write_lines,
};

fn strings(items: &[&str]) -> Vec<String> {
    items.iter().map(|item| item.to_string()).collect()
}

#[test]
fn chars_in_order() {
    assert_eq!(chars_of(""), Vec::<char>::new());
    assert_eq!(chars_of("a\u{e9}\u{1f600}z"), vec!['a', '\u{e9}', '\u{1f600}', 'z']);
}

#[test]
fn contains_finds_runs() {
    assert!(contains("", ""));
    assert!(contains("abc", ""));
    assert!(!contains("", "a"));
    assert!(contains("abc", "abc"));
    assert!(contains("abc", "a"));
    assert!(contains("abc", "bc"));
    assert!(contains("abc", "c"));
    assert!(!contains("abc", "abcd"));
    assert!(!contains("abc", "ac"));
    assert!(contains("aab", "ab"));
    assert!(contains("h\u{e9}llo w\u{f6}rld", "o w\u{f6}"));
    assert!(!contains("h\u{e9}llo", "e"));
}

#[test]
fn lines_are_cut_at_line_feeds() {
    assert_eq!(lines_of(""), strings(&[""]));
    assert_eq!(lines_of("abc"), strings(&["abc"]));
    assert_eq!(lines_of("\n"), strings(&["", ""]));
    assert_eq!(lines_of("a\nb"), strings(&["a", "b"]));
    assert_eq!(lines_of("a\n"), strings(&["a", ""]));
    assert_eq!(lines_of("\na"), strings(&["", "a"]));
    assert_eq!(lines_of("a\n\nb\r\nc\n"), strings(&["a", "", "b\r", "c", ""]));
    assert_eq!(lines_of("\u{e9}\n\u{1f600}"), strings(&["\u{e9}", "\u{1f600}"]));
}

#[test]
fn lines_agree_with_std_split() {
    for text in ["", "x", "\n\n\n", "a\nbb\n\nccc", "  stdout: one\n\ntwo\n"] {
        let expected: Vec<String> = text.split("\n").map(|piece| piece.to_string()).collect();
        assert_eq!(lines_of(text), expected);
        assert_eq!(lines_of(text).join("\n"), text);
    }
}

#[test]
fn blocks_indent_what_follows_the_first_line() {
    assert_eq!(write_lines(""), strings(&[""]));
    assert_eq!(write_lines("  stdout: "), strings(&["  stdout: "]));
    assert_eq!(write_lines("one"), strings(&["one"]));
    assert_eq!(write_lines("one\ntwo"), strings(&["one", "    two"]));
    assert_eq!(write_lines("one\n\ntwo\n"), strings(&["one", "    two"]));
    assert_eq!(write_lines("\n\n"), strings(&[""]));
    assert_eq!(write_lines("\nx"), strings(&["", "    x"]));
    assert_eq!(write_lines("a\n \nb"), strings(&["a", "     ", "    b"]));
}

#[test]
fn numbers_in_decimal() {
    assert_eq!(decimal_u64(0), "0");
    assert_eq!(decimal_u64(7), "7");
    assert_eq!(decimal_u64(10), "10");
    assert_eq!(decimal_u64(1_234_567_890), "1234567890");
    assert_eq!(decimal_u64(u64::MAX), "18446744073709551615");
    assert_eq!(decimal_i32(0), "0");
    assert_eq!(decimal_i32(2), "2");
    assert_eq!(decimal_i32(-1), "-1");
    assert_eq!(decimal_i32(255), "255");
    assert_eq!(decimal_i32(i32::MAX), i32::MAX.to_string());
    assert_eq!(decimal_i32(i32::MIN), i32::MIN.to_string());
}

#[test]
fn glue_joins() {
    assert_eq!(glue("", ""), "");
    assert_eq!(glue("  url: ", "8.8.8.8"), "  url: 8.8.8.8");
}
