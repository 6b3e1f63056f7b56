use tavern_supervisor::text::{concat3, contains_ci, eq_ci, i64_to_string, split_ws, str_eq, trim_str, u64_to_string};

#[test]
fn trim_removes_surrounding_whitespace() {
    assert_eq!(trim_str("  hello \t\r\n"), "hello");
    assert_eq!(trim_str("hello"), "hello");
    assert_eq!(trim_str("   "), "");
    assert_eq!(trim_str(""), "");
    assert_eq!(trim_str(" a b "), "a b");
}

#[test]
fn str_eq_compares_contents() {
    assert!(str_eq("abc", "abc"));
    assert!(!str_eq("abc", "abd"));
    assert!(!str_eq("abc", "ab"));
    assert!(str_eq("", ""));
}

#[test]
fn eq_ci_ignores_ascii_case() {
    assert!(eq_ci("Never", "never"));
    assert!(eq_ci("ALWAYS", "always"));
    assert!(!eq_ci("never", "ever"));
    assert!(eq_ci("", ""));
}

#[test]
fn contains_ci_finds_marker_in_any_case() {
    assert!(contains_ci("Already up to date.", "already up to date"));
    assert!(contains_ci("ALREADY UP TO DATE!", "already up to date"));
    assert!(contains_ci("xx Already Up To Date yy", "already up to date"));
    assert!(!contains_ci("Updating 1a2b..3c4d", "already up to date"));
    assert!(contains_ci("anything", ""));
    assert!(!contains_ci("", "x"));
}

#[test]
fn split_ws_drops_empty_tokens() {
    let toks = split_ws("  --listen  true \t --no-open ");
    let toks: Vec<&str> = toks.iter().map(|s| s.as_str()).collect();
    assert_eq!(toks, vec!["--listen", "true", "--no-open"]);
    assert_eq!(split_ws("").len(), 0);
    assert_eq!(split_ws("   ").len(), 0);
    let one = split_ws("solo");
    assert_eq!(one.len(), 1);
    assert_eq!(one[0], "solo");
}

#[test]
fn decimal_formatting_is_exact() {
    assert_eq!(u64_to_string(0), "0");
    assert_eq!(u64_to_string(8000), "8000");
    assert_eq!(u64_to_string(65535), "65535");
    assert_eq!(u64_to_string(18446744073709551615), "18446744073709551615");
    assert_eq!(i64_to_string(0), "0");
    assert_eq!(i64_to_string(127), "127");
    assert_eq!(i64_to_string(-1), "-1");
    assert_eq!(i64_to_string(i64::MIN), "-9223372036854775808");
}

#[test]
fn concat3_joins_in_order() {
    assert_eq!(concat3("a", "b", "c"), "abc");
    assert_eq!(concat3("", "x", ""), "x");
}
