use cargo_unmaintained::text::{dedup_strings, find_sub, split_at_cut_lines, split_at_first_cut_line, str_eq};
use cargo_unmaintained::url::{PackageInfo, Url, urls};

#[test]
fn trim_trailing_slash_drops_one_slash() {
    let u = Url::from("https://example.com/a/b/");
    assert_eq!(u.trim_trailing_slash().as_str(), "https://example.com/a/b");
    let v = Url::from("https://example.com/a/b");
    assert_eq!(v.trim_trailing_slash().as_str(), "https://example.com/a/b");
    let w = Url::from("");
    assert_eq!(w.trim_trailing_slash().as_str(), "");
}

#[test]
fn shorten_truncates_to_owner_and_repo() {
    let u = Url::from("https://github.com/dtolnay/anyhow/tree/master/src");
    assert_eq!(u.shorten().unwrap().as_str(), "https://github.com/dtolnay/anyhow");
    let v = Url::from("https://github.com/dtolnay/anyhow");
    assert_eq!(v.shorten().unwrap().as_str(), "https://github.com/dtolnay/anyhow");
    // Too few path segments: no shortened form.
    let w = Url::from("https://github.com/dtolnay");
    assert!(w.shorten().is_none());
    // Not an https URL: no shortened form.
    let x = Url::from("git://github.com/dtolnay/anyhow");
    assert!(x.shorten().is_none());
}

#[test]
fn urls_yields_declared_then_shortened() {
    let pkg = PackageInfo {
        name: "demo".to_string(),
        repository: Some("https://github.com/owner/repo/tree/main/".to_string()),
    };
    let us = urls(&pkg);
    assert_eq!(us.len(), 2);
    assert_eq!(us[0].as_str(), "https://github.com/owner/repo/tree/main");
    assert_eq!(us[1].as_str(), "https://github.com/owner/repo");

    let unnamed = PackageInfo { name: "demo".to_string(), repository: None };
    assert!(urls(&unnamed).is_empty());
}

#[test]
fn str_eq_compares_by_characters() {
    assert!(str_eq("abc", "abc"));
    assert!(!str_eq("abc", "abd"));
    assert!(!str_eq("abc", "ab"));
    assert!(str_eq("", ""));
}

#[test]
fn find_sub_returns_first_occurrence() {
    assert_eq!(find_sub("hello world", "world"), Some(6));
    assert_eq!(find_sub("aaa", "aa"), Some(0));
    assert_eq!(find_sub("hello", "x"), None);
    assert_eq!(find_sub("short", "longer pattern"), None);
    assert_eq!(find_sub("anything", ""), Some(0));
}

#[test]
fn split_at_first_cut_line_keeps_leading_newline() {
    let s = "top\n---\nbottom";
    let (a, b) = split_at_first_cut_line(s).unwrap();
    assert_eq!(a, "top\n");
    assert_eq!(b, "bottom");
    assert!(split_at_first_cut_line("no cut line here").is_none());
}

#[test]
fn split_at_cut_lines_yields_three_sections() {
    let s = "top\n---\nmiddle\n---\nbottom";
    let (a, b, c) = split_at_cut_lines(s).unwrap();
    assert_eq!(a, "top\n");
    assert_eq!(b, "middle\n");
    assert_eq!(c, "bottom");
    assert!(split_at_cut_lines("top\n---\nbottom").is_none());
}

#[test]
fn dedup_strings_drops_consecutive_duplicates() {
    let v = vec![
        "a".to_string(),
        "a".to_string(),
        "b".to_string(),
        "a".to_string(),
        "a".to_string(),
    ];
    let d = dedup_strings(v);
    assert_eq!(d, vec!["a".to_string(), "b".to_string(), "a".to_string()]);
    assert!(dedup_strings(Vec::new()).is_empty());
}
