use agent_room::text::contains_substring;
use agent_room::text::decimal_string;
use agent_room::text::parse_u64_or;
use agent_room::text::repeat_fragment;
use agent_room::text::two_digit_string;

#[test]
fn decimal_renders_exactly() {
    assert_eq!(decimal_string(0), "0");
    assert_eq!(decimal_string(7), "7");
    assert_eq!(decimal_string(10), "10");
    assert_eq!(decimal_string(42), "42");
    assert_eq!(decimal_string(u64::MAX), "18446744073709551615");
}

#[test]
fn two_digit_pads_single_digits_only() {
    assert_eq!(two_digit_string(0), "00");
    assert_eq!(two_digit_string(5), "05");
    assert_eq!(two_digit_string(59), "59");
    assert_eq!(two_digit_string(100), "100");
}

#[test]
fn repeat_builds_copies() {
    assert_eq!(repeat_fragment("=", 0), "");
    assert_eq!(repeat_fragment("=", 4), "====");
    assert_eq!(repeat_fragment("ab", 3), "ababab");
}

#[test]
fn substring_search_finds_inner_matches() {
    assert!(contains_substring("conversation", "versa"));
    assert!(contains_substring("conversation", "con"));
    assert!(contains_substring("conversation", "tion"));
    assert!(!contains_substring("conversation", "verse"));
}

#[test]
fn substring_search_edge_cases() {
    assert!(contains_substring("", ""));
    assert!(contains_substring("abc", ""));
    assert!(!contains_substring("", "a"));
    assert!(!contains_substring("ab", "abc"));
    assert!(contains_substring("héllo wörld", "llo wö"));
}

#[test]
fn parse_reads_plain_decimal() {
    assert_eq!(parse_u64_or("5", 99), 5);
    assert_eq!(parse_u64_or("0", 99), 0);
    assert_eq!(parse_u64_or("1234567890", 99), 1234567890);
    assert_eq!(parse_u64_or("18446744073709551615", 99), u64::MAX);
}

#[test]
fn parse_falls_back_on_bad_input() {
    assert_eq!(parse_u64_or("", 5), 5);
    assert_eq!(parse_u64_or("12x", 5), 5);
    assert_eq!(parse_u64_or("-3", 5), 5);
    assert_eq!(parse_u64_or("+3", 5), 5);
    assert_eq!(parse_u64_or(" 3", 5), 5);
    assert_eq!(parse_u64_or("18446744073709551616", 5), 5);
    assert_eq!(parse_u64_or("99999999999999999999999", 5), 5);
}
