use cargo_unmaintained::progress::Progress;
use cargo_unmaintained::repo_status::{RepoStatus, SerializableRepoStatus};
use cargo_unmaintained::reporting::{Outcome, Tee};
use cargo_unmaintained::url::Url;

#[test]
fn lib_repo_status_ord() {
    let ys = vec![
        RepoStatus::Uncloneable("f".into()),
        RepoStatus::Unnamed,
        RepoStatus::Success("e".into(), 0),
        RepoStatus::Success("d".into(), 1),
        RepoStatus::Unassociated("c".into()),
        RepoStatus::Nonexistent("b".into()),
        RepoStatus::Archived("a".into()),
    ];
    let mut xs = ys.clone();
    xs.sort_by_key(|repo_status| repo_status.clone().erase_url());
    assert_eq!(xs, ys);
}

#[test]
fn main_repo_status_ord() {
    let ys = vec![
        RepoStatus::Uncloneable("f".into()),
        RepoStatus::Unnamed,
        RepoStatus::Success("e".into(), 0),
        RepoStatus::Success("d".into(), 1),
        RepoStatus::Unassociated("c".into()),
        RepoStatus::Nonexistent("b".into()),
        RepoStatus::Archived("a".into()),
    ];
    let mut xs = ys.clone();
    xs.sort_by_key(|repo_status| repo_status.clone().erase_url());
    assert_eq!(xs, ys);
}

#[test]
fn success_accessors() {
    let s: RepoStatus<u64> = RepoStatus::Success(Url::from("https://example.com/a/b"), 42);
    assert!(s.is_success());
    assert!(!s.is_failure());
    let (url, value) = s.as_success().unwrap();
    assert_eq!(url.as_str(), "https://example.com/a/b");
    assert_eq!(*value, 42);

    let f: RepoStatus<u64> = RepoStatus::Nonexistent(Url::from("https://example.com/a/b"));
    assert!(!f.is_success());
    assert!(f.is_failure());
    assert!(f.as_success().is_none());
}

#[test]
fn map_applies_only_to_success() {
    let s: RepoStatus<u64> = RepoStatus::Success(Url::from("https://example.com/a/b"), 10);
    match s.map(|v: u64| v + 1) {
        RepoStatus::Success(_, v) => assert_eq!(v, 11),
        _ => panic!("map must keep the variant"),
    }
    let f: RepoStatus<u64> = RepoStatus::Archived(Url::from("https://example.com/a/b"));
    match f.map(|v: u64| v + 1) {
        RepoStatus::Archived(url) => assert_eq!(url.as_str(), "https://example.com/a/b"),
        _ => panic!("map must keep the variant"),
    }
}

#[test]
fn map_failure_carries_the_failure_over() {
    let f: RepoStatus<u64> = RepoStatus::Uncloneable(Url::from("https://example.com/a/b"));
    let g: RepoStatus<String> = f.map_failure();
    match g {
        RepoStatus::Uncloneable(url) => assert_eq!(url.as_str(), "https://example.com/a/b"),
        _ => panic!("the variant must be kept"),
    }
}

#[test]
fn transpose_moves_the_result_out() {
    let ok: RepoStatus<Result<u64, String>> =
        RepoStatus::Success(Url::from("https://example.com/a/b"), Ok(5));
    match ok.transpose() {
        Ok(RepoStatus::Success(_, v)) => assert_eq!(v, 5),
        _ => panic!("an Ok success transposes to a success"),
    }
    let err: RepoStatus<Result<u64, String>> =
        RepoStatus::Success(Url::from("https://example.com/a/b"), Err("boom".to_string()));
    match err.transpose() {
        Err(e) => assert_eq!(e, "boom"),
        _ => panic!("an Err success transposes to the error"),
    }
    let unnamed: RepoStatus<Result<u64, String>> = RepoStatus::Unnamed;
    assert!(matches!(unnamed.transpose(), Ok(RepoStatus::Unnamed)));
}

#[test]
fn serializable_status_reports_age_in_days() {
    let s: RepoStatus<u64> = RepoStatus::Success(Url::from("https://example.com/a/b"), 3 * 86400 + 5);
    assert_eq!(SerializableRepoStatus::from_status(&s), SerializableRepoStatus::Age(3));
    let f: RepoStatus<u64> = RepoStatus::Unnamed;
    assert_eq!(SerializableRepoStatus::from_status(&f), SerializableRepoStatus::Unnamed);
}

#[test]
fn progress_counts_and_finishes() {
    let mut p = Progress::new(3);
    assert_eq!(p.counts(), (0, 3));
    assert_eq!(p.percent(), 0);
    p.advance();
    assert_eq!(p.percent(), 33);
    p.advance();
    p.advance();
    assert_eq!(p.counts(), (3, 3));
    assert_eq!(p.percent(), 100);
    p.finish();
}

#[test]
fn progress_of_empty_scan_shows_complete() {
    let p = Progress::new(0);
    assert_eq!(p.percent(), 100);
}

#[test]
fn outcome_labels_are_kebab_case() {
    assert_eq!(Outcome::Error.label(), "error");
    assert_eq!(Outcome::NotFound.label(), "not-found");
    assert_eq!(Outcome::Found.label(), "found");
    let t = Tee::Stdout;
    assert!(matches!(t, Tee::Stdout));
    assert!(matches!(Tee::Stderr, Tee::Stderr));
}
