use termcrypt::text::{
    repeat_char, split_collect, str_contains, str_ends_with, str_equal, str_starts_with, u64_to_decimal,
};

#[test]
fn equal_compares_characters() {
    assert!(str_equal("abc", "abc"));
    assert!(!str_equal("abc", "abd"));
    assert!(!str_equal("abc", "ab"));
    assert!(str_equal("", ""));
    assert!(str_equal("₿x", "₿x"));
}

#[test]
fn prefixes_and_suffixes() {
    assert!(str_ends_with("BTCUSDT", "USDT"));
    assert!(!str_ends_with("BTCUSDT", "USDC"));
    assert!(!str_ends_with("SDT", "USDT"));
    assert!(str_ends_with("abc", ""));
    assert!(str_starts_with("search btc", "search"));
    assert!(!str_starts_with("sear", "search"));
}

#[test]
fn contains_finds_any_position() {
    assert!(str_contains("BTCUSDT", "CUS"));
    assert!(str_contains("BTCUSDT", "BTC"));
    assert!(str_contains("BTCUSDT", "SDT"));
    assert!(!str_contains("BTCUSDT", "ETH"));
    assert!(str_contains("abc", ""));
    assert!(!str_contains("", "a"));
}

#[test]
fn split_collect_removes_each_occurrence() {
    assert_eq!(split_collect("search btc", "search "), "btc");
    assert_eq!(split_collect("pair ethusd", "pair "), "ethusd");
    assert_eq!(split_collect("xaxbxc", "x"), "abc");
    assert_eq!(split_collect("aaa", "aa"), "a");
    assert_eq!(split_collect("abc", ""), "abc");
    assert_eq!(split_collect("cowsay cowsay hi", "cowsay "), "hi");
    // Same as the standard library's split and collect.
    let s = "switch switchftx";
    assert_eq!(split_collect(s, "switch "), s.split("switch ").collect::<String>());
}

#[test]
fn repeat_builds_runs() {
    assert_eq!(repeat_char('_', 3), "___");
    assert_eq!(repeat_char('-', 0), "");
}

#[test]
fn decimal_formatting_matches_display() {
    assert_eq!(u64_to_decimal(0), "0");
    assert_eq!(u64_to_decimal(7), "7");
    assert_eq!(u64_to_decimal(10), "10");
    assert_eq!(u64_to_decimal(12345), "12345");
    assert_eq!(u64_to_decimal(u64::MAX), u64::MAX.to_string());
}

