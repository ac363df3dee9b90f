use runseal::table::{rank, Rank, Table};
use runseal::text;
use runseal::tool::forgejo::token::{armour, basic};

fn strings(items: &[&str]) -> Vec<String> {
    items.iter().map(|s| s.to_string()).collect()
}

#[test]
fn a_table_reads_back_what_was_written() {
    let mut t: Table<String> = Table::new();
    t.insert("b".to_string(), "2".to_string());
    t.insert("a".to_string(), "1".to_string());
    t.insert("c".to_string(), "3".to_string());
    assert_eq!(t.get("a").unwrap(), "1");
    assert_eq!(t.len(), 3);
    t.insert("a".to_string(), "one".to_string());
    assert_eq!(t.get("a").unwrap(), "one");
    assert_eq!(t.len(), 3);
    let keys: Vec<String> = t.entries().iter().map(|(k, _)| k.clone()).collect();
    assert_eq!(keys, strings(&["a", "b", "c"]));
    t.remove("b");
    assert!(t.get("b").is_none());
    assert!(!t.contains("b"));
    assert!(t.contains("c"));
    t.remove("zzz");
    assert_eq!(t.len(), 2);
    assert_eq!(
        t.pairs(),
        vec![("a".to_string(), "one".to_string()), ("c".to_string(), "3".to_string())]
    );
}

#[test]
fn keys_sort_by_code_point() {
    assert!(matches!(rank("a", "b"), Rank::Below));
    assert!(matches!(rank("ab", "a"), Rank::Above));
    assert!(matches!(rank("", "a"), Rank::Below));
    assert!(matches!(rank("Z", "a"), Rank::Below));
    assert!(matches!(rank("x", "x"), Rank::Equal));
}

#[test]
fn searching_and_splitting() {
    assert_eq!(text::find("a/b/c", "/"), Some(1));
    assert_eq!(text::rfind("a/b/c", "/"), Some(3));
    assert_eq!(text::find("abc", "/"), None);
    assert_eq!(
        text::split_once_at("k=v=w", "="),
        Some(("k".to_string(), "v=w".to_string()))
    );
    assert_eq!(
        text::rsplit_once_at("o/r#12", "#"),
        Some(("o/r".to_string(), "12".to_string()))
    );
    assert_eq!(text::split_by("a,,b", ","), strings(&["a", "", "b"]));
    assert_eq!(text::split_by("", ","), strings(&[""]));
    assert_eq!(text::join_with(&strings(&["a", "b", "c"]), ", "), "a, b, c");
    assert_eq!(text::join_with(&[], ", "), "");
    assert_eq!(text::strip_prefix_of("@tool", "@"), Some("tool".to_string()));
    assert_eq!(text::strip_suffix_of("x.git", ".git"), Some("x".to_string()));
    assert_eq!(text::strip_prefix_of("tool", "@"), None);
    assert!(text::same("abc", "abc"));
    assert!(!text::same("abc", "abd"));
    assert!(text::starts_with("abc", "ab"));
    assert!(text::ends_with("abc", "bc"));
    assert!(text::contains("abc", "b"));
    assert_eq!(text::slice("héllo", 1, 3), "él");
}

#[test]
fn trimming() {
    assert_eq!(text::trimmed("  a b \n"), "a b");
    assert_eq!(text::trimmed("   "), "");
    assert_eq!(text::trim_end_matches("repo.git.git", ".git"), "repo");
    assert_eq!(text::trim_start_matches("///a/", "/"), "a/");
    assert_eq!(text::trim_matches("--a--", "-"), "a");
}

#[test]
fn numbers_read_and_written() {
    assert_eq!(text::parse_u64("42"), Some(42));
    assert_eq!(text::parse_u64("+7"), Some(7));
    assert_eq!(text::parse_u64("007"), Some(7));
    assert_eq!(text::parse_u64("18446744073709551615"), Some(u64::MAX));
    assert_eq!(text::parse_u64("18446744073709551616"), None);
    assert_eq!(text::parse_u64(""), None);
    assert_eq!(text::parse_u64("+"), None);
    assert_eq!(text::parse_u64("-1"), None);
    assert_eq!(text::parse_u64("1a"), None);
    assert_eq!(text::parse_usize("12"), Some(12));
    assert_eq!(text::decimal_of(0), "0");
    assert_eq!(text::decimal_of(1234567890), "1234567890");
    assert_eq!(text::decimal_of(u64::MAX), u64::MAX.to_string());
}

#[test]
fn percent_encoding_keeps_unreserved_bytes() {
    assert_eq!(text::percent_encode("AZaz09-_.~"), "AZaz09-_.~");
    assert_eq!(text::percent_encode("a b/c"), "a%20b%2Fc");
    assert_eq!(text::percent_encode("é"), "%C3%A9");
    assert_eq!(text::percent_encode(""), "");
}

#[test]
fn case_and_characters() {
    assert!(text::eq_ignore_case("Hello", "hELLO"));
    assert!(!text::eq_ignore_case("Hello", "Hell"));
    assert!(text::is_alnum('a'));
    assert!(!text::is_alnum('-'));
    assert!(text::is_ws(' '));
    assert!(!text::is_ws('x'));
}

#[test]
fn argument_shapes() {
    let args = strings(&["job", "log", "12", "3"]);
    assert!(text::shaped(&args, &["job", "log"], 2));
    assert!(!text::shaped(&args, &["job", "log"], 1));
    assert!(!text::shaped(&args, &["job", "list"], 2));
    assert_eq!(text::rest_from(&args, 2), strings(&["12", "3"]));
    assert_eq!(text::rest_from(&args, 4), Vec::<String>::new());
    assert_eq!(text::bools_from(&[true, false, true], 1), vec![false, true]);
}

#[test]
fn base64_matches_the_standard_alphabet() {
    assert_eq!(armour(b""), "");
    assert_eq!(armour(b"f"), "Zg==");
    assert_eq!(armour(b"fo"), "Zm8=");
    assert_eq!(armour(b"foo"), "Zm9v");
    assert_eq!(armour(b"foobar"), "Zm9vYmFy");
    assert_eq!(armour(&[0xfb, 0xff]), "+/8=");
    for n in 0..10usize {
        let bytes = vec![7u8; n];
        assert_eq!(armour(&bytes).len(), 4 * ((n + 2) / 3));
    }
}

#[test]
fn basic_sign_in_header() {
    assert_eq!(basic("user", "pass"), "Basic dXNlcjpwYXNz");
    assert_eq!(basic("", ""), "Basic Og==");
}
