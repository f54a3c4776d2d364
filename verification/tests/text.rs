use chat::text::{
    char_is_space, estimate_tokens, from_chars, has_prefix, normalize_newlines,
    parse_i64, push_decimal, same_text, to_chars, trim, trim_bounds,
};

#[test]
fn trim_removes_surrounding_white_space() {
    assert_eq!(trim("  help \n"), "help");
    assert_eq!(trim("help"), "help");
    assert_eq!(trim(" a b "), "a b");
    assert_eq!(trim(""), "");
    assert_eq!(trim(" \t\r\n"), "");
}

#[test]
fn trim_knows_unicode_white_space() {
    assert_eq!(trim("\u{3000}clear\u{a0}\u{2003}"), "clear");
    assert_eq!(trim("\u{200b}x"), "\u{200b}x");
    assert!(char_is_space('\u{85}'));
    assert!(char_is_space('\u{1680}'));
    assert!(char_is_space('\u{2028}'));
    assert!(char_is_space('\u{205f}'));
    assert!(!char_is_space('\u{200b}'));
    assert!(!char_is_space('a'));
}

#[test]
fn trim_agrees_with_std() {
    let samples = [" x ", "\u{2000}\u{200a}y\u{202f}", "z\u{2029}", "\u{b}\u{c}w", "\u{1c}v"];
    for s in samples {
        assert_eq!(trim(s), s.trim());
    }
}

#[test]
fn trim_bounds_mark_the_kept_range() {
    let chars = to_chars("  ab  ");
    assert_eq!(trim_bounds(&chars), (2, 4));
    let blank = to_chars("   ");
    let (from, to) = trim_bounds(&blank);
    assert_eq!(from, to);
}

#[test]
fn chars_round_trip() {
    let chars = to_chars("héllo");
    assert_eq!(chars, vec!['h', 'é', 'l', 'l', 'o']);
    assert_eq!(from_chars(&chars, 1, 4), "éll");
    assert_eq!(from_chars(&chars, 2, 2), "");
}

#[test]
fn comparisons() {
    assert!(same_text("at", "at"));
    assert!(!same_text("at", "image"));
    let text = to_chars("  seedream cat");
    assert!(has_prefix(&text, 2, 14, &to_chars("seedream ")));
    assert!(!has_prefix(&text, 0, 14, &to_chars("seedream ")));
    assert!(!has_prefix(&text, 2, 6, &to_chars("seedream ")));
    assert!(has_prefix(&text, 2, 2, &to_chars("")));
}

#[test]
fn escaped_newline_becomes_line_break() {
    assert_eq!(normalize_newlines("line one\\nline two"), "line one\nline two");
    assert_eq!(normalize_newlines("\\n"), "\n");
    assert_eq!(normalize_newlines("a\\n\\nb"), "a\n\nb");
    assert_eq!(normalize_newlines("no escapes"), "no escapes");
    assert_eq!(normalize_newlines(""), "");
}

#[test]
fn lone_backslash_and_other_escapes_stay() {
    assert_eq!(normalize_newlines("a\\"), "a\\");
    assert_eq!(normalize_newlines("a\\tb"), "a\\tb");
    assert_eq!(normalize_newlines("\\\\n"), "\\\n");
    assert_eq!(normalize_newlines("\\\\\\n"), "\\\\\n");
}

#[test]
fn normalizing_twice_changes_nothing_more() {
    let samples = ["a\\nb", "\\\\n", "\\\\\\nn", "\\n\\n", "plain", "\\", "\\\\nn\\n"];
    for s in samples {
        let once = normalize_newlines(s);
        let twice = normalize_newlines(&once);
        assert_eq!(once, twice);
        assert_eq!(once, s.replace("\\n", "\n"));
    }
}

#[test]
fn parse_i64_reads_signed_decimals() {
    assert_eq!(parse_i64("0"), Some(0));
    assert_eq!(parse_i64("12345"), Some(12345));
    assert_eq!(parse_i64("-7"), Some(-7));
    assert_eq!(parse_i64("+7"), Some(7));
    assert_eq!(parse_i64("007"), Some(7));
    assert_eq!(parse_i64("-0"), Some(0));
}

#[test]
fn parse_i64_refuses_what_is_no_number() {
    assert_eq!(parse_i64(""), None);
    assert_eq!(parse_i64("+"), None);
    assert_eq!(parse_i64("-"), None);
    assert_eq!(parse_i64(" 1"), None);
    assert_eq!(parse_i64("1 "), None);
    assert_eq!(parse_i64("1_000"), None);
    assert_eq!(parse_i64("--1"), None);
    assert_eq!(parse_i64("12a"), None);
    assert_eq!(parse_i64("all"), None);
    assert_eq!(parse_i64("１２"), None);
}

#[test]
fn parse_i64_at_the_limits() {
    assert_eq!(parse_i64("9223372036854775807"), Some(i64::MAX));
    assert_eq!(parse_i64("9223372036854775808"), None);
    assert_eq!(parse_i64("-9223372036854775808"), Some(i64::MIN));
    assert_eq!(parse_i64("-9223372036854775809"), None);
    assert_eq!(parse_i64("00000000000000000000009223372036854775807"), Some(i64::MAX));
    assert_eq!(parse_i64("99999999999999999999999999"), None);
    assert_eq!(parse_i64("99999999999999999999999999x"), None);
}

#[test]
fn parse_i64_agrees_with_std() {
    let samples = ["42", "-42", "+42", "", "-", "4 2", "0042", "18446744073709551616", "-00"];
    for s in samples {
        assert_eq!(parse_i64(s), s.parse::<i64>().ok());
    }
}

#[test]
fn decimal_digits_are_appended() {
    let mut out = String::from("n=");
    push_decimal(&mut out, 0);
    assert_eq!(out, "n=0");
    push_decimal(&mut out, 9);
    push_decimal(&mut out, 10);
    push_decimal(&mut out, 1234567890);
    assert_eq!(out, "n=09101234567890");
    let mut big = String::new();
    push_decimal(&mut big, u64::MAX);
    assert_eq!(big, "18446744073709551615");
}

#[test]
fn tokens_are_a_quarter_of_the_characters_rounded_up() {
    assert_eq!(estimate_tokens(""), 0);
    assert_eq!(estimate_tokens("a"), 1);
    assert_eq!(estimate_tokens("abcd"), 1);
    assert_eq!(estimate_tokens("abcde"), 2);
    assert_eq!(estimate_tokens("abcdefgh"), 2);
    assert_eq!(estimate_tokens("可用命令历史"), 2);
}
