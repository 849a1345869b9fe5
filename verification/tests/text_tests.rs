use vshell::text::join_path;
use vshell::text::parse_index;
use vshell::text::tokenize;
use vshell::text::trim;
use vshell::text::usize_to_string;

#[test]
fn tokenize_splits_on_whitespace() {
    let toks = tokenize("  cc   create\tbuild ");
    assert_eq!(toks, vec!["cc".to_string(), "create".to_string(), "build".to_string()]);
}

#[test]
fn tokenize_single_token() {
    assert_eq!(tokenize("exit"), vec!["exit".to_string()]);
}

#[test]
fn tokenize_empty_and_blank() {
    assert!(tokenize("").is_empty());
    assert!(tokenize(" \t\r\n ").is_empty());
}

#[test]
fn parse_index_plain_numbers() {
    assert_eq!(parse_index("7"), Some(7));
    assert_eq!(parse_index("0"), Some(0));
    assert_eq!(parse_index("007"), Some(7));
    assert_eq!(parse_index("+5"), Some(5));
}

#[test]
fn parse_index_rejects_garbage() {
    assert_eq!(parse_index("abc"), None);
    assert_eq!(parse_index(""), None);
    assert_eq!(parse_index("+"), None);
    assert_eq!(parse_index("1 2"), None);
    assert_eq!(parse_index("-1"), None);
    assert_eq!(parse_index("1.5"), None);
}

#[test]
fn parse_index_bounds() {
    assert_eq!(parse_index("18446744073709551615"), Some(usize::MAX));
    assert_eq!(parse_index("18446744073709551616"), None);
    assert_eq!(parse_index("99999999999999999999999999"), None);
}

#[test]
fn usize_to_string_renders_decimal() {
    assert_eq!(usize_to_string(0), "0");
    assert_eq!(usize_to_string(7), "7");
    assert_eq!(usize_to_string(10), "10");
    assert_eq!(usize_to_string(1234), "1234");
}

#[test]
fn join_path_relative() {
    assert_eq!(join_path("/a", "b"), "/a/b");
    assert_eq!(join_path("/a/", "b"), "/a/b");
}

#[test]
fn join_path_absolute_argument_wins() {
    assert_eq!(join_path("/a", "/b"), "/b");
}

#[test]
fn join_path_empty_base() {
    assert_eq!(join_path("", "b"), "b");
}

#[test]
fn trim_strips_both_ends() {
    assert_eq!(trim("  a b  "), "a b");
    assert_eq!(trim("\t x \r\n"), "x");
    assert_eq!(trim("   "), "");
    assert_eq!(trim("a"), "a");
}
