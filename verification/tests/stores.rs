use cargo_unmaintained::cache::effective_refresh_age;
use cargo_unmaintained::digest::url_digest;
use cargo_unmaintained::is_current;
use cargo_unmaintained::numtext::{format_secs, parse_secs};

#[test]
fn digest_is_deterministic_across_calls() {
    let a = url_digest("https://github.com/dtolnay/anyhow");
    let b = url_digest("https://github.com/dtolnay/anyhow");
    assert_eq!(a, b);
}

#[test]
fn digest_matches_known_values() {
    assert_eq!(url_digest("abc"), "a9993e364706816aba3e25717850c26c9cd0d89d");
    assert_eq!(url_digest(""), "da39a3ee5e6b4b0d3255bfef95601890afd80709");
    assert_eq!(url_digest("hello"), "aaf4c61ddcc5e8a2dabede0f3b482cd9aea9434d");
    assert_eq!(
        url_digest("https://github.com/dtolnay/anyhow"),
        "2882b7cefa2ab6dc4d66c37be7284e4143236c9b"
    );
}

#[test]
fn digest_is_forty_lowercase_hex_characters() {
    let d = url_digest("https://example.com/a/b");
    assert_eq!(d.len(), 40);
    assert!(d.chars().all(|c| c.is_ascii_hexdigit() && !c.is_ascii_uppercase()));
    assert_ne!(d, "https://example.com/a/b");
}

#[test]
fn freshness_window_is_strict() {
    // 2 days of refresh age: fresh strictly below 172800 elapsed seconds.
    assert!(is_current(1000, 1000, 2));
    assert!(is_current(1000, 1000 + 172799, 2));
    assert!(!is_current(1000, 1000 + 172800, 2));
    // A timestamp from the future is never current.
    assert!(!is_current(2000, 1000, 2));
    // Age zero makes everything stale.
    assert!(!is_current(1000, 1000, 0));
    // A huge age never overflows and keeps everything fresh.
    assert!(is_current(0, u64::MAX, u64::MAX));
}

#[test]
fn timestamp_text_round_trip() {
    for n in [0u64, 1, 9, 10, 99, 100, 12345, 1_700_000_000, u64::MAX] {
        let text = format_secs(n);
        assert_eq!(parse_secs(&text), Some(n));
    }
}

#[test]
fn timestamp_text_exact_form() {
    assert_eq!(format_secs(0), "0");
    assert_eq!(format_secs(7), "7");
    assert_eq!(format_secs(1_700_000_000), "1700000000");
    assert_eq!(format_secs(u64::MAX), "18446744073709551615");
}

#[test]
fn malformed_timestamp_text_reads_as_absent() {
    assert_eq!(parse_secs(""), None);
    assert_eq!(parse_secs("12a"), None);
    assert_eq!(parse_secs("-5"), None);
    assert_eq!(parse_secs("007"), None);
    assert_eq!(parse_secs(" 42"), None);
    // One past u64::MAX overflows and is rejected.
    assert_eq!(parse_secs("18446744073709551616"), None);
    assert_eq!(parse_secs("18446744073709551615"), Some(u64::MAX));
}

#[test]
fn effective_refresh_age_is_bounded_by_the_default() {
    assert_eq!(effective_refresh_age(365), 30);
    assert_eq!(effective_refresh_age(30), 30);
    assert_eq!(effective_refresh_age(7), 7);
    assert_eq!(effective_refresh_age(0), 0);
}

#[test]
fn canonical_text_is_unique_per_value() {
    // Different values give different texts, and the canonical text has
    // no second spelling that the parser would accept for the value.
    assert_ne!(format_secs(7), format_secs(70));
    assert_eq!(parse_secs("7"), Some(7));
    assert_eq!(parse_secs("07"), None);
}
