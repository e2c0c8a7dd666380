use session_driver::text::{
    char_is_whitespace, chars_of, is_blank_str, skip_chars, starts_with, trim,
};

#[test]
fn whitespace_is_what_std_calls_whitespace() {
    let mut code: u32 = 0;
    while code <= 0x10ffff {
        if let Some(c) = char::from_u32(code) {
            assert_eq!(char_is_whitespace(c), c.is_whitespace(), "U+{:04X}", code);
        }
        code += 1;
    }
}

#[test]
fn whitespace_examples() {
    assert!(char_is_whitespace(' '));
    assert!(char_is_whitespace('\n'));
    assert!(char_is_whitespace('\t'));
    assert!(char_is_whitespace('\u{a0}'));
    assert!(char_is_whitespace('\u{3000}'));
    assert!(!char_is_whitespace('a'));
    assert!(!char_is_whitespace('\u{200b}'));
    assert!(!char_is_whitespace('\u{180e}'));
}

#[test]
fn chars_of_gives_the_characters() {
    assert_eq!(chars_of(""), Vec::<char>::new());
    assert_eq!(chars_of("a b"), vec!['a', ' ', 'b']);
    assert_eq!(chars_of("h\u{e9}\u{4e16}"), vec!['h', '\u{e9}', '\u{4e16}']);
}

#[test]
fn trim_removes_both_ends() {
    assert_eq!(trim("  hello world \n"), "hello world");
    assert_eq!(trim("hello"), "hello");
    assert_eq!(trim("\thello"), "hello");
    assert_eq!(trim("hello\r\n"), "hello");
}

#[test]
fn trim_keeps_inner_whitespace() {
    assert_eq!(trim(" a \t b "), "a \t b");
}

#[test]
fn trim_of_blank_is_empty() {
    assert_eq!(trim(""), "");
    assert_eq!(trim(" "), "");
    assert_eq!(trim(" \t\r\n\u{a0}\u{2003}"), "");
}

#[test]
fn trim_single_character() {
    assert_eq!(trim("x"), "x");
    assert_eq!(trim(" x"), "x");
    assert_eq!(trim("x "), "x");
}

#[test]
fn trim_agrees_with_std() {
    let samples = [
        "",
        " ",
        "a",
        "  a",
        "a  ",
        "\u{3000}caf\u{e9} au lait\u{2028}",
        "\u{85}x\u{85}",
        "\u{200b} zero width is kept \u{200b}",
        "filter  bob  \n",
        "\n\n\n",
        "\u{1f600} \u{1f600}",
    ];
    for sample in samples {
        assert_eq!(trim(sample), sample.trim(), "{:?}", sample);
    }
}

#[test]
fn trim_is_idempotent_on_examples() {
    for sample in ["  a b  ", "", "\t", "x", " \u{a0}y z\u{a0} "] {
        let once = trim(sample);
        assert_eq!(trim(&once), once);
    }
}

#[test]
fn blank_lines() {
    assert!(is_blank_str(""));
    assert!(is_blank_str("\n"));
    assert!(is_blank_str("  \t \r\n"));
    assert!(!is_blank_str(" . "));
    assert!(!is_blank_str("sms"));
}

#[test]
fn prefix_check() {
    assert!(starts_with("filter bob", "filter "));
    assert!(starts_with("filter ", "filter "));
    assert!(starts_with("anything", ""));
    assert!(starts_with("", ""));
    assert!(!starts_with("filter", "filter "));
    assert!(!starts_with(" filter bob", "filter "));
    assert!(!starts_with("Filter bob", "filter "));
    assert!(!starts_with("", "f"));
    assert!(starts_with("\u{e9}t\u{e9}", "\u{e9}"));
}

#[test]
fn skip_chars_counts_characters() {
    assert_eq!(skip_chars("filter bob", 7), "bob");
    assert_eq!(skip_chars("abc", 0), "abc");
    assert_eq!(skip_chars("abc", 3), "");
    assert_eq!(skip_chars("\u{e9}\u{4e16}x", 2), "x");
    assert_eq!(skip_chars("abc", 4), "");
    assert_eq!(skip_chars("", 1), "");
}
