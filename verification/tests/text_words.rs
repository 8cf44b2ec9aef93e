use committer::text::{chars_of, first_line, lines, same_text, string_of, string_of_range};
use committer::words::{contains, is_whitespace, trim};

#[test]
fn characters_and_strings_convert_both_ways() {
    let cs = chars_of("a\u{e9}\u{1f600}");
    assert_eq!(cs, vec!['a', '\u{e9}', '\u{1f600}']);
    assert_eq!(string_of(&cs), "a\u{e9}\u{1f600}");
    assert_eq!(string_of_range(&cs, 1, 3), "\u{e9}\u{1f600}");
    assert_eq!(string_of_range(&cs, 2, 2), "");
}

#[test]
fn same_text_compares_characters() {
    assert!(same_text("abc", "abc"));
    assert!(same_text("", ""));
    assert!(!same_text("abc", "abd"));
    assert!(!same_text("abc", "ab"));
}

#[test]
fn lines_end_at_line_feeds() {
    assert_eq!(lines(""), Vec::<String>::new());
    assert_eq!(lines("\n"), vec![""]);
    assert_eq!(lines("a"), vec!["a"]);
    assert_eq!(lines("a\n"), vec!["a"]);
    assert_eq!(lines("a\n\nb"), vec!["a", "", "b"]);
    assert_eq!(lines("a\r\nb\r"), vec!["a", "b\r"]);
    assert_eq!(lines("a\r\n\r\n"), vec!["a", ""]);
    assert_eq!(lines("\ra\n"), vec!["\ra"]);
}

#[test]
fn lines_agree_with_the_standard_library() {
    for text in ["", "x", "x\ny", "x\r\ny\n", "\n\n", "\r", "\r\n", "a\rb\n\rc", "tail\r"] {
        let expected: Vec<String> = text.lines().map(String::from).collect();
        assert_eq!(lines(text), expected);
    }
}

#[test]
fn the_first_line_of_a_text() {
    assert_eq!(first_line(""), "");
    assert_eq!(first_line("subject\n\nbody"), "subject");
    assert_eq!(first_line("subject\r\nbody"), "subject");
    assert_eq!(first_line("\nbody"), "");
    assert_eq!(first_line("only"), "only");
}

#[test]
fn white_space_is_what_unicode_says() {
    for c in [' ', '\t', '\n', '\u{b}', '\u{c}', '\r', '\u{85}', '\u{a0}', '\u{1680}', '\u{2000}',
        '\u{200a}', '\u{2028}', '\u{2029}', '\u{202f}', '\u{205f}', '\u{3000}']
    {
        assert!(is_whitespace(c));
    }
    for c in ['a', '0', '\u{8}', '\u{e}', '\u{200b}', '\u{feff}', '\u{1f600}'] {
        assert!(!is_whitespace(c));
    }
    for code in 0u32..0x3100 {
        if let Some(c) = char::from_u32(code) {
            assert_eq!(is_whitespace(c), c.is_whitespace());
        }
    }
}

#[test]
fn trim_takes_white_space_off_both_ends() {
    assert_eq!(trim("  a b \n"), "a b");
    assert_eq!(trim("a"), "a");
    assert_eq!(trim(" \t "), "");
    assert_eq!(trim(""), "");
    assert_eq!(trim("\u{a0}x\u{3000}"), "x");
}

#[test]
fn contains_finds_a_text_anywhere() {
    assert!(contains("Cargo.toml", "go.t"));
    assert!(contains("abc", ""));
    assert!(contains("", ""));
    assert!(contains("abc", "abc"));
    assert!(contains("abc", "c"));
    assert!(!contains("abc", "abcd"));
    assert!(!contains("abc", "ac"));
    assert!(!contains("", "a"));
    assert!(contains("a\u{e9}b", "\u{e9}b"));
}
