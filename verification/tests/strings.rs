//! Tests for the string helpers: tokenization, joining, line splitting,
//! decimal parsing and printing, and the log line format.

use frevi::config::filter_autoplug_lines;
use frevi::logfmt::{format_log_line, LogLevel};
use frevi::strutil::{
    join_lines, join_tokens, num_decimal_digits, parse_usize, split_lines, str_eq, tokenize,
    usize_to_string,
};

#[test]
fn tokenize_splits_on_any_whitespace() {
    let toks = tokenize("  one \t two\r\nthree ");
    assert_eq!(
        toks,
        vec!["one".to_string(), "two".to_string(), "three".to_string()]
    );
}

#[test]
fn tokenize_empty_and_blank() {
    assert_eq!(tokenize(""), Vec::<String>::new());
    assert_eq!(tokenize(" \t  "), Vec::<String>::new());
}

#[test]
fn tokenize_keeps_multibyte_tokens() {
    let toks = tokenize("héllo 漢字");
    assert_eq!(toks, vec!["héllo".to_string(), "漢字".to_string()]);
}

#[test]
fn join_tokens_single_spaces() {
    let toks = vec!["a".to_string(), "bb".to_string(), "c".to_string()];
    assert_eq!(join_tokens(&toks), "a bb c");
    assert_eq!(join_tokens(&Vec::new()), "");
    assert_eq!(join_tokens(&vec!["x".to_string()]), "x");
}

#[test]
fn split_lines_cases() {
    assert_eq!(split_lines("a\nb\n"), vec!["a".to_string(), "b".to_string()]);
    assert_eq!(split_lines("a\nb"), vec!["a".to_string(), "b".to_string()]);
    assert_eq!(split_lines(""), vec![String::new()]);
    assert_eq!(split_lines("\n"), vec![String::new()]);
    assert_eq!(split_lines("a\n\n"), vec!["a".to_string(), String::new()]);
}

#[test]
fn split_lines_strips_crlf_terminators() {
    assert_eq!(split_lines("a\r\nb\r\n"), vec!["a".to_string(), "b".to_string()]);
    assert_eq!(split_lines("a\r\nb"), vec!["a".to_string(), "b".to_string()]);
    // a carriage return not followed by a newline stays
    assert_eq!(split_lines("a\rb\n"), vec!["a\rb".to_string()]);
}

#[test]
fn join_lines_terminates_every_line() {
    assert_eq!(join_lines(&vec![String::new()]), "\n");
    assert_eq!(
        join_lines(&vec!["a".to_string(), String::new(), "b".to_string()]),
        "a\n\nb\n"
    );
}

#[test]
fn lines_round_trip() {
    let lines = vec!["a".to_string(), String::new(), "ö".to_string()];
    assert_eq!(split_lines(&join_lines(&lines)), lines);
}

#[test]
fn parse_usize_accepts_digits_only() {
    assert_eq!(parse_usize("0"), Some(0));
    assert_eq!(parse_usize("123"), Some(123));
    assert_eq!(parse_usize("18446744073709551615"), Some(usize::MAX));
    assert_eq!(parse_usize(""), None);
    assert_eq!(parse_usize("12a"), None);
    assert_eq!(parse_usize("-3"), None);
    assert_eq!(parse_usize("18446744073709551616"), None);
}

#[test]
fn decimal_digit_count() {
    assert_eq!(num_decimal_digits(0), 1);
    assert_eq!(num_decimal_digits(9), 1);
    assert_eq!(num_decimal_digits(10), 2);
    assert_eq!(num_decimal_digits(12345), 5);
    assert_eq!(num_decimal_digits(usize::MAX), 20);
}

#[test]
fn decimal_printing() {
    assert_eq!(usize_to_string(0), "0");
    assert_eq!(usize_to_string(7), "7");
    assert_eq!(usize_to_string(1066), "1066");
}

#[test]
fn str_eq_by_characters() {
    assert!(str_eq("", ""));
    assert!(str_eq("héllo", "héllo"));
    assert!(!str_eq("a", "b"));
    assert!(!str_eq("a", "ab"));
}

#[test]
fn log_line_format() {
    assert_eq!(
        format_log_line(&LogLevel::Info, "2024-01-02 03:04:05", "started"),
        "2024-01-02 03:04:05\tInfo: started\n"
    );
    assert_eq!(
        format_log_line(&LogLevel::PluginFault, "t", "boom"),
        "t\tPLUGIN ERROR: boom\n"
    );
    assert_eq!(format_log_line(&LogLevel::Warning, "t", "w"), "t\tWarning: w\n");
    assert_eq!(format_log_line(&LogLevel::Error, "t", "e"), "t\tERROR: e\n");
    assert_eq!(
        format_log_line(&LogLevel::CriticalError, "t", "c"),
        "t\tCRITICAL: c\n"
    );
}

#[test]
fn autoplug_comment_lines_are_skipped() {
    let lines = vec![
        "; a comment".to_string(),
        "plug_one.lua".to_string(),
        String::new(),
        ";another".to_string(),
        "plug_two.lua".to_string(),
    ];
    assert_eq!(
        filter_autoplug_lines(&lines),
        vec![
            "plug_one.lua".to_string(),
            String::new(),
            "plug_two.lua".to_string()
        ]
    );
}
