use cargo_unmaintained::cache::{
    Cache, CloneStep, FsOp, GitOutcome, GitTask, VersionRecord, purge_cache,
};
use cargo_unmaintained::url::PackageInfo;

const ANYHOW_URL: &str = "https://github.com/dtolnay/anyhow";
const ANYHOW_DIGEST: &str = "2882b7cefa2ab6dc4d66c37be7284e4143236c9b";

fn anyhow_pkg() -> PackageInfo {
    PackageInfo {
        name: "anyhow".to_string(),
        repository: Some(ANYHOW_URL.to_string()),
    }
}

#[test]
fn clone_scenario_fresh_cached_purged() {
    let mut cache = Cache::new(false, 30);
    let pkg = anyhow_pkg();
    let now: u64 = 1_700_000_000;

    // No cache present: a fresh shallow clone of the declared URL.
    let step = cache.clone_repository(&pkg, now);
    let session = match step {
        CloneStep::Run { task, session } => {
            match &task {
                GitTask::Clone { url, digest } => {
                    assert_eq!(url, ANYHOW_URL);
                    assert_eq!(digest, ANYHOW_DIGEST);
                }
                GitTask::Fetch { .. } => panic!("no clone exists yet, fetch is wrong"),
            }
            session
        }
        _ => panic!("a first-ever call must issue a git task"),
    };

    // The clone succeeds: entries/anyhow and timestamps/<digest> are
    // written and repositories/<digest> now exists.
    let step = cache.clone_proceed(session, GitOutcome::Succeeded, now);
    match step {
        CloneStep::Done { url, digest } => {
            assert_eq!(url, ANYHOW_URL);
            assert_eq!(digest, ANYHOW_DIGEST);
        }
        _ => panic!("a successful clone must finish the session"),
    }
    let entry = cache.disk.entries.get("anyhow").expect("entry must be written");
    assert_eq!(entry.named_url, ANYHOW_URL);
    assert_eq!(entry.cloned_url, ANYHOW_URL);
    assert!(cache.disk.repo_dirs.contains_key(ANYHOW_DIGEST));
    assert_eq!(cache.disk.repo_timestamps.get(ANYHOW_DIGEST).copied(), Some(now));
    assert_eq!(cache.journal.len(), 2);
    assert!(matches!(&cache.journal[0], FsOp::WriteEntry { name, .. } if name == "anyhow"));
    assert!(
        matches!(&cache.journal[1], FsOp::WriteRepoTimestamp { digest, secs } if digest == ANYHOW_DIGEST && *secs == now)
    );

    // An immediate second call with a 30-day refresh age is served from
    // the entry and timestamp stores: same url and path, zero git tasks,
    // nothing appended to the journal.
    let step = cache.clone_repository(&pkg, now + 1000);
    match step {
        CloneStep::Done { url, digest } => {
            assert_eq!(url, ANYHOW_URL);
            assert_eq!(digest, ANYHOW_DIGEST);
        }
        _ => panic!("the second call must be answered from the cache"),
    }
    assert_eq!(cache.journal.len(), 2, "no git task and no new writes");

    // Purge removes the versioned cache root entirely.
    let existed = purge_cache(&mut cache);
    assert!(existed);
    assert!(cache.disk.entries.get("anyhow").is_none());
    assert!(!cache.disk.repo_dirs.contains_key(ANYHOW_DIGEST));
    assert!(cache.disk.repo_timestamps.get(ANYHOW_DIGEST).is_none());
    assert!(matches!(cache.journal.last(), Some(FsOp::RemoveCacheRoot)));

    // A third call behaves exactly as the first.
    let step = cache.clone_repository(&pkg, now + 2000);
    match step {
        CloneStep::Run { task: GitTask::Clone { url, digest }, .. } => {
            assert_eq!(url, ANYHOW_URL);
            assert_eq!(digest, ANYHOW_DIGEST);
        }
        _ => panic!("after a purge the call must clone fresh"),
    }
}

#[test]
fn freshness_idempotence_two_calls_one_git_task() {
    let mut cache = Cache::new(false, 7);
    let pkg = anyhow_pkg();
    let now: u64 = 1_700_000_000;

    let mut git_invocations = 0;
    let step = cache.clone_repository(&pkg, now);
    let step = match step {
        CloneStep::Run { task: _, session } => {
            git_invocations += 1;
            cache.clone_proceed(session, GitOutcome::Succeeded, now)
        }
        other => other,
    };
    assert!(matches!(step, CloneStep::Done { .. }));

    // Second call in immediate succession: served from the cache.
    match cache.clone_repository(&pkg, now) {
        CloneStep::Done { url, digest } => {
            assert_eq!(url, ANYHOW_URL);
            assert_eq!(digest, ANYHOW_DIGEST);
        }
        CloneStep::Run { .. } => panic!("the second call must not invoke git"),
        _ => panic!("unexpected step"),
    }
    assert_eq!(git_invocations, 1);
}

#[test]
fn branch_rename_recovery_reclones_same_url() {
    // A remote whose default branch is renamed after the initial clone.
    let mut remote_branch = "master";

    let mut cache = Cache::new(false, 0); // age 0: every entry is stale
    let pkg = anyhow_pkg();
    let now: u64 = 1_700_000_000;

    // Initial branchless shallow clone.
    let step = cache.clone_repository(&pkg, now);
    let session = match step {
        CloneStep::Run { task: GitTask::Clone { .. }, session } => session,
        _ => panic!("expected a fresh clone"),
    };
    let step = cache.clone_proceed(session, GitOutcome::Succeeded, now);
    assert!(matches!(step, CloneStep::Done { .. }));
    let cloned_branch = remote_branch;
    assert_eq!(cloned_branch, "master");

    // Upstream renames the default branch.
    remote_branch = "main";

    // The next refresh fetches the old branch and git reports the
    // missing remote ref.
    let step = cache.clone_repository(&pkg, now + 10);
    let session = match step {
        CloneStep::Run { task: GitTask::Fetch { url, digest }, session } => {
            assert_eq!(url, ANYHOW_URL);
            assert_eq!(digest, ANYHOW_DIGEST);
            session
        }
        _ => panic!("a stale entry with an existing clone must fetch"),
    };
    let stderr = format!(
        "fatal: couldn't find remote ref refs/heads/{}",
        cloned_branch
    );
    let step = cache.clone_proceed(session, GitOutcome::Failed { stderr }, now + 10);

    // The engine purges the entry and retries the same candidate as a
    // fresh clone; no residual entry, timestamp or directory remains.
    let session = match step {
        CloneStep::Run { task: GitTask::Clone { url, digest }, session } => {
            assert_eq!(url, ANYHOW_URL);
            assert_eq!(digest, ANYHOW_DIGEST);
            session
        }
        _ => panic!("branch-rename recovery must retry the same URL as a clone"),
    };
    assert!(cache.disk.entries.get("anyhow").is_none());
    assert!(cache.disk.repo_timestamps.get(ANYHOW_DIGEST).is_none());
    assert!(!cache.disk.repo_dirs.contains_key(ANYHOW_DIGEST));

    // The fresh branchless clone picks up the renamed branch.
    let step = cache.clone_proceed(session, GitOutcome::Succeeded, now + 10);
    assert!(matches!(step, CloneStep::Done { .. }));
    let recloned_branch = remote_branch;
    assert_eq!(recloned_branch, "main");
    let entry = cache.disk.entries.get("anyhow").expect("entry rewritten");
    assert_eq!(entry.cloned_url, ANYHOW_URL);
    assert_eq!(cache.disk.repo_timestamps.get(ANYHOW_DIGEST).copied(), Some(now + 10));
}

#[test]
fn url_change_invalidates_entry() {
    let url_a = "https://example.com/a/b";
    let url_b = "https://example.com/a/c";
    let now: u64 = 1_700_000_000;

    // First run clones under the declared URL A.
    let mut run1 = Cache::new(false, 30);
    let pkg_a = PackageInfo { name: "pkg".to_string(), repository: Some(url_a.to_string()) };
    let step = run1.clone_repository(&pkg_a, now);
    let session = match step {
        CloneStep::Run { session, .. } => session,
        _ => panic!("first run must clone"),
    };
    assert!(matches!(
        run1.clone_proceed(session, GitOutcome::Succeeded, now),
        CloneStep::Done { .. }
    ));

    // Second run: fresh process (empty memory layer), same disk, but the
    // package now declares URL B.  The entry must not be reused, even
    // though its timestamp is fresh.
    let mut run2 = Cache::new(false, 30);
    run2.disk = run1.disk;
    let pkg_b = PackageInfo { name: "pkg".to_string(), repository: Some(url_b.to_string()) };
    match run2.clone_repository(&pkg_b, now + 1) {
        CloneStep::Run { task: GitTask::Clone { url, .. }, .. } => {
            assert_eq!(url, url_b, "the fresh attempt uses the new URL");
        }
        CloneStep::Done { .. } => panic!("a mismatched entry must not be reused"),
        _ => panic!("unexpected step"),
    }

    // Control: with the unchanged URL the second run is served from disk.
    let mut run3 = Cache::new(false, 30);
    run3.disk = run2.disk;
    match run3.clone_repository(&pkg_a, now + 1) {
        CloneStep::Done { url, .. } => assert_eq!(url, url_a),
        _ => panic!("an unchanged URL must hit the cache"),
    }
}

fn drive(cache: &mut Cache, pkg: &PackageInfo, now: u64) -> (String, String, u32) {
    // Runs the engine against a remote that always succeeds, counting
    // git tasks, and returns (url, digest, git task count).
    let mut tasks: u32 = 0;
    let mut step = cache.clone_repository(pkg, now);
    loop {
        match step {
            CloneStep::Done { url, digest } => return (url, digest, tasks),
            CloneStep::Run { task: _, session } => {
                tasks += 1;
                step = cache.clone_proceed(session, GitOutcome::Succeeded, now);
            }
            CloneStep::Unnamed => panic!("package has a URL"),
            CloneStep::Failed { .. } => panic!("remote always succeeds"),
        }
    }
}

#[test]
fn no_cache_mode_equals_persistent_after_purge() {
    let now: u64 = 1_700_000_000;
    let pkg = anyhow_pkg();

    // A persistent cache that has seen some work and is then purged.
    let mut persistent = Cache::new(false, 30);
    let _ = drive(&mut persistent, &pkg, now);
    let existed = purge_cache(&mut persistent);
    assert!(existed);

    // A cache forced into temporary mode for this run.
    let mut temporary = Cache::new(true, 30);

    // The same scan produces the same externally observable results.
    let (url_p, digest_p, tasks_p) = drive(&mut persistent, &pkg, now + 5);
    let (url_t, digest_t, tasks_t) = drive(&mut temporary, &pkg, now + 5);
    assert_eq!(url_p, url_t);
    assert_eq!(digest_p, digest_t);
    assert_eq!(tasks_p, tasks_t);

    // And both classify a second lookup identically as well.
    let (url_p2, _, tasks_p2) = drive(&mut persistent, &pkg, now + 6);
    let (url_t2, _, tasks_t2) = drive(&mut temporary, &pkg, now + 6);
    assert_eq!(url_p2, url_t2);
    assert_eq!(tasks_p2, 0);
    assert_eq!(tasks_t2, 0);
}

#[test]
fn unnamed_package_fails_immediately() {
    let mut cache = Cache::new(true, 30);
    let pkg = PackageInfo { name: "nameless".to_string(), repository: None };
    assert!(matches!(cache.clone_repository(&pkg, 0), CloneStep::Unnamed));
    assert_eq!(cache.journal.len(), 0, "no disk access is attempted");
}

#[test]
fn all_candidates_failing_aggregates_deduplicated_errors() {
    let mut cache = Cache::new(false, 30);
    let pkg = anyhow_pkg();
    let now: u64 = 1_700_000_000;

    // The shortened form of the URL equals the trimmed URL here, so the
    // engine tries the same URL twice and both failures carry the same
    // text; the aggregated error lists it once.
    let step = cache.clone_repository(&pkg, now);
    let session = match step {
        CloneStep::Run { session, .. } => session,
        _ => panic!("expected a git task"),
    };
    let stderr1 = "fatal: unable to access repository".to_string();
    let step = cache.clone_proceed(session, GitOutcome::Failed { stderr: stderr1 }, now);
    let session = match step {
        CloneStep::Run { task: GitTask::Clone { url, .. }, session } => {
            assert_eq!(url, ANYHOW_URL);
            session
        }
        _ => panic!("the second candidate should be tried next"),
    };
    let stderr2 = "fatal: unable to access repository".to_string();
    let step = cache.clone_proceed(session, GitOutcome::Failed { stderr: stderr2 }, now);
    match step {
        CloneStep::Failed { errors } => {
            assert_eq!(errors.len(), 1, "duplicate error texts are collapsed");
            assert_eq!(errors[0], "fatal: unable to access repository");
        }
        _ => panic!("with no candidates left the operation fails"),
    }
    assert!(cache.disk.entries.get("anyhow").is_none());
}

#[test]
fn purge_of_missing_cache_is_a_no_op() {
    let mut cache = Cache::new(false, 30);
    let existed = purge_cache(&mut cache);
    assert!(!existed, "nothing existed to remove");
    assert!(matches!(cache.journal.last(), Some(FsOp::RemoveCacheRoot)));
}

#[test]
fn versions_store_round_trip_and_refresh() {
    let mut cache = Cache::new(false, 30);
    let now: u64 = 1_700_000_000;

    // Nothing cached: the caller must fetch from the registry.
    assert!(cache.fetch_versions("serde", now).is_none());

    let fetched = vec![
        VersionRecord { num: "1.0.0".to_string(), created_at_secs: 1_500_000_000 },
        VersionRecord { num: "1.0.1".to_string(), created_at_secs: 1_600_000_000 },
    ];
    cache.record_versions("serde", fetched, now);

    // The record and its timestamp were written as a unit.
    assert_eq!(cache.journal.len(), 2);
    assert!(matches!(&cache.journal[0], FsOp::WriteVersions { name, versions } if name == "serde" && versions.len() == 2));
    assert!(matches!(&cache.journal[1], FsOp::WriteVersionsTimestamp { name, secs } if name == "serde" && *secs == now));

    // Within the refresh age the cached list is served.
    let got = cache.fetch_versions("serde", now + 100).expect("cached and current");
    assert_eq!(got.len(), 2);
    assert_eq!(got[0].num, "1.0.0");
    assert_eq!(got[1].created_at_secs, 1_600_000_000);

    // Past the refresh age the record is stale and must be refetched.
    let later = now + 31 * 86400;
    assert!(cache.fetch_versions("serde", later).is_none());
}
