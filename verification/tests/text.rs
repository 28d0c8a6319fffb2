use dig_daemon::text::{find_char, first_line, is_whitespace, same_text, trim};

#[test]
fn white_space_is_what_unicode_says() {
    for code in 0..=0x10FFFFu32 {
        if let Some(c) = char::from_u32(code) {
            assert_eq!(is_whitespace(c), c.is_whitespace(), "U+{:04X}", code);
        }
    }
}

#[test]
fn white_space_on_named_characters() {
    for c in [' ', '\t', '\n', '\u{b}', '\u{c}', '\r', '\u{85}', '\u{a0}', '\u{1680}', '\u{2000}',
        '\u{200a}', '\u{2028}', '\u{2029}', '\u{202f}', '\u{205f}', '\u{3000}']
    {
        assert!(is_whitespace(c));
    }
    for c in ['a', '0', ',', '\u{8}', '\u{e}', '\u{1f}', '\u{200b}', '\u{180e}', '\u{feff}'] {
        assert!(!is_whitespace(c));
    }
}

#[test]
fn trim_takes_white_space_off_both_ends() {
    assert_eq!(trim(""), "");
    assert_eq!(trim("   "), "");
    assert_eq!(trim("a"), "a");
    assert_eq!(trim(" a"), "a");
    assert_eq!(trim("a "), "a");
    assert_eq!(trim("\t a b \r\n"), "a b");
    assert_eq!(trim("\u{3000}é\u{a0}"), "é");
}

#[test]
fn trim_agrees_with_the_standard_one() {
    for s in ["", " ", "x", "  x", "x  ", " x y ", "\n\n", "\u{2003}ab\u{2003}", "a\u{200b} ", "\u{feff} a"] {
        assert_eq!(trim(s), s.trim(), "text {:?}", s);
    }
}

#[test]
fn first_line_ends_at_the_line_feed() {
    assert_eq!(first_line(""), None);
    assert_eq!(first_line("abc"), Some("abc"));
    assert_eq!(first_line("abc\ndef"), Some("abc"));
    assert_eq!(first_line("abc\r\ndef"), Some("abc"));
    assert_eq!(first_line("\nabc"), Some(""));
    assert_eq!(first_line("\r\nabc"), Some(""));
    assert_eq!(first_line("abc\r"), Some("abc\r"));
    assert_eq!(first_line("abc\rdef\n"), Some("abc\rdef"));
    assert_eq!(first_line("abc\r\r\n"), Some("abc\r"));
    assert_eq!(first_line("é\nü"), Some("é"));
}

#[test]
fn first_line_agrees_with_the_standard_one() {
    for s in ["", "\n", "\r", "\r\n", "a\n", "a\r\n", "a\rb", "a\n\nb", "ab", "\n\r\n", "a\r\r\nb"] {
        assert_eq!(first_line(s), s.lines().next(), "text {:?}", s);
    }
}

#[test]
fn find_char_counts_characters_not_bytes() {
    assert_eq!(find_char("a,b,c", ',', 0), 1);
    assert_eq!(find_char("a,b,c", ',', 1), 1);
    assert_eq!(find_char("a,b,c", ',', 2), 3);
    assert_eq!(find_char("a,b,c", ',', 4), 5);
    assert_eq!(find_char("a,b,c", ',', 5), 5);
    assert_eq!(find_char("a,b,c", ',', 99), 5);
    assert_eq!(find_char("abc", ',', 0), 3);
    assert_eq!(find_char("", ',', 0), 0);
    assert_eq!(find_char("éé,é", ',', 0), 2);
}

#[test]
fn same_text_compares_every_character() {
    assert!(same_text("", ""));
    assert!(same_text("sleep", "sleep"));
    assert!(!same_text("sleep", "sleeP"));
    assert!(!same_text("sleep", "slee"));
    assert!(!same_text("slee", "sleep"));
    assert!(!same_text("xleep", "sleep"));
    assert!(same_text("é", "é"));
    assert!(!same_text("é", "e"));
}
