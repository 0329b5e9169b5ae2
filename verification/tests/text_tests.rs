use fetcher::text::{contains, find, i64_to_string, join, trim, trim_end, u64_to_string};

#[test]
fn find_returns_first_occurrence() {
    assert_eq!(find("abcabc", "bc"), Some(1));
    assert_eq!(find("abc", "zz"), None);
    assert_eq!(find("abc", ""), Some(0));
}

#[test]
fn contains_matches_substrings() {
    assert!(contains("hello world", "lo wo"));
    assert!(!contains("hello", "world"));
}

#[test]
fn trim_strips_blanks_on_both_sides() {
    assert_eq!(trim("  \t hi there \n"), "hi there");
    assert_eq!(trim("   \r\n"), "");
    assert_eq!(trim("x"), "x");
}

#[test]
fn trim_end_strips_only_trailing_blanks() {
    assert_eq!(trim_end("  x  "), "  x");
    assert_eq!(trim_end("x"), "x");
}

#[test]
fn join_puts_separator_between_neighbours() {
    let v = vec!["a".to_string(), "b".to_string(), "c".to_string()];
    assert_eq!(join(&v, ", "), "a, b, c");
    assert_eq!(join(&vec!["one".to_string()], ","), "one");
    assert_eq!(join(&vec![], ","), "");
}

#[test]
fn decimal_formatting_is_exact() {
    assert_eq!(u64_to_string(0), "0");
    assert_eq!(u64_to_string(90210), "90210");
    assert_eq!(u64_to_string(u64::MAX), "18446744073709551615");
    assert_eq!(i64_to_string(-1), "-1");
    assert_eq!(i64_to_string(i64::MIN), "-9223372036854775808");
    assert_eq!(i64_to_string(7), "7");
}
