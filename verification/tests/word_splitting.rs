use ygptaskmgr::words::{is_space_char, parse_number, split_words};

fn strings(words: &[&str]) -> Vec<String> {
    words.iter().map(|w| w.to_string()).collect()
}

#[test]
fn split_words_at_runs_of_white_space() {
    assert_eq!(split_words("add buy milk"), strings(&["add", "buy", "milk"]));
    assert_eq!(split_words("  add \t buy\n milk  "), strings(&["add", "buy", "milk"]));
    assert_eq!(split_words("exit"), strings(&["exit"]));
    assert_eq!(split_words("a"), strings(&["a"]));
    assert_eq!(split_words(" a"), strings(&["a"]));
    assert_eq!(split_words("a "), strings(&["a"]));
}

#[test]
fn split_words_of_nothing() {
    assert_eq!(split_words(""), strings(&[]));
    assert_eq!(split_words("   "), strings(&[]));
    assert_eq!(split_words("\t\r\n"), strings(&[]));
}

#[test]
fn split_words_counts_characters_not_bytes() {
    assert_eq!(split_words("añadir café\u{3000}ñu"), strings(&["añadir", "café", "ñu"]));
    assert_eq!(split_words("\u{a0}x\u{2003}y\u{85}"), strings(&["x", "y"]));
}

#[test]
fn split_words_agrees_with_std() {
    let lines = [
        "list --status done --sort deadline",
        "  deadline 1   2099-01-01  ",
        "a\u{b}b\u{c}c\u{1680}d\u{2028}e\u{2029}f\u{202f}g\u{205f}h",
        "zero\u{200b}width is no space",
        "x\u{1c}y\u{1f}z",
    ];
    for line in lines {
        let expected: Vec<String> = line.split_whitespace().map(|w| w.to_string()).collect();
        assert_eq!(split_words(line), expected, "{:?}", line);
    }
}

#[test]
fn white_space_is_what_std_calls_white_space() {
    let mut code: u32 = 0;
    while code <= 0x3100 {
        if let Some(c) = char::from_u32(code) {
            assert_eq!(is_space_char(c), c.is_whitespace(), "{:#x}", code);
        }
        code += 1;
    }
    assert!(!is_space_char('\u{feff}'));
    assert!(!is_space_char('\u{10ffff}'));
}

#[test]
fn parse_number_reads_decimal_digits() {
    assert_eq!(parse_number("0"), Some(0));
    assert_eq!(parse_number("5"), Some(5));
    assert_eq!(parse_number("12"), Some(12));
    assert_eq!(parse_number("007"), Some(7));
    assert_eq!(parse_number("+12"), Some(12));
    assert_eq!(parse_number("1234567890"), Some(1_234_567_890));
}

#[test]
fn parse_number_rejects_what_is_no_number() {
    assert_eq!(parse_number(""), None);
    assert_eq!(parse_number("+"), None);
    assert_eq!(parse_number("-1"), None);
    assert_eq!(parse_number("++1"), None);
    assert_eq!(parse_number("1+"), None);
    assert_eq!(parse_number("1a"), None);
    assert_eq!(parse_number("a1"), None);
    assert_eq!(parse_number("1_000"), None);
    assert_eq!(parse_number("one"), None);
    assert_eq!(parse_number("１２"), None);
    assert_eq!(parse_number("1.0"), None);
}

#[test]
fn parse_number_stops_at_the_largest_usize() {
    let max = usize::MAX.to_string();
    assert_eq!(parse_number(&max), Some(usize::MAX));
    assert_eq!(parse_number(&format!("{}0", max)), None);
    assert_eq!(parse_number("340282366920938463463374607431768211456"), None);
    let mut bumped = max.clone().into_bytes();
    let last = bumped.len() - 1;
    bumped[last] += 1;
    assert_eq!(parse_number(&String::from_utf8(bumped).unwrap()), None);
}

#[test]
fn parse_number_agrees_with_std() {
    let words = [
        "0",
        "+0",
        "18446744073709551615",
        "18446744073709551616",
        "00000000000000000000001",
        "",
        "+",
        "9x",
        " 9",
    ];
    for word in words {
        assert_eq!(parse_number(word), word.parse::<usize>().ok(), "{:?}", word);
    }
}

#[test]
fn parse_number_reads_back_what_decimal_text_writes() {
    for n in [0usize, 1, 9, 10, 99, 100, 65_535, 4_294_967_295, usize::MAX] {
        assert_eq!(parse_number(&ygptaskmgr::text::decimal_text(n)), Some(n));
    }
}
