//! The on-disk cache: entry, timestamp and versions stores, and the
//! clone/refresh engine.
//!
//! The cache layers an in-memory map over each on-disk store, so a record
//! is read from disk at most once per process run.  The store contents
//! are held here as plain data; every change to them is also appended to
//! a journal of filesystem operations (`FsOp`), in the order in which a
//! runner must apply them to the real directory tree.  Git work cannot be
//! performed here, so the clone/refresh engine hands out one git task at
//! a time (`CloneStep::Run`) and is told each outcome (`clone_proceed`).

use vstd::prelude::*;
use vstd::string::*;

use crate::SECS_PER_DAY;
use crate::digest::{digest_of, url_digest};
use crate::is_current;
use crate::spec_fresh;
use crate::strmap::StrMap;
use crate::text::{contains_sub, find_sub_from, str_eq, str_views};
use crate::url::{PackageInfo, urls, urls_spec};

verus! {

/// The record kept per package name: the repository URL the package
/// declares, and the URL that was actually cloned for it.
pub struct CacheEntry {
    pub named_url: String,
    pub cloned_url: String,
}

impl Clone for CacheEntry {
    fn clone(&self) -> (r: Self)
        ensures
            r == *self,
    {
        CacheEntry { named_url: self.named_url.clone(), cloned_url: self.cloned_url.clone() }
    }
}

/// One published version of a package, as the registry reports it: the
/// version text and its publication time in seconds since the epoch.
pub struct VersionRecord {
    pub num: String,
    pub created_at_secs: u64,
}

impl Clone for VersionRecord {
    fn clone(&self) -> (r: Self)
        ensures
            r == *self,
    {
        VersionRecord { num: self.num.clone(), created_at_secs: self.created_at_secs }
    }
}

fn clone_records(v: &Vec<VersionRecord>) -> (r: Vec<VersionRecord>)
    ensures
        r@ =~= v@,
{
    let mut r: Vec<VersionRecord> = Vec::new();
    let mut i: usize = 0;
    while i < v.len()
        invariant
            0 <= i <= v@.len(),
            r@ =~= v@.subrange(0, i as int),
        decreases v@.len() - i,
    {
        r.push(v[i].clone());
        proof {
            assert(r@ =~= v@.subrange(0, (i + 1) as int));
        }
        i += 1;
    }
    proof {
        assert(v@.subrange(0, v@.len() as int) =~= v@);
    }
    r
}

/// One filesystem operation on the cache's directory tree.  The cache
/// appends these to its journal in the exact order in which they must be
/// applied; the removal order of a purge is part of its contract.
pub enum FsOp {
    WriteEntry { name: String, entry: CacheEntry },
    WriteRepoTimestamp { digest: String, secs: u64 },
    WriteVersions { name: String, versions: Vec<VersionRecord> },
    WriteVersionsTimestamp { name: String, secs: u64 },
    RemoveVersions { name: String },
    RemoveVersionsTimestamp { name: String },
    RemoveRepoTimestamp { digest: String },
    RemoveEntry { name: String },
    RemoveRepoDir { digest: String },
    RemoveCacheRoot,
}

pub open spec fn op_is_write_entry(op: FsOp, name: Seq<char>, named: Seq<char>, cloned: Seq<char>) -> bool {
    op matches FsOp::WriteEntry { name: n, entry: e } && n@ == name && e.named_url@ == named
        && e.cloned_url@ == cloned
}

pub open spec fn op_is_write_repo_ts(op: FsOp, digest: Seq<char>, secs: u64) -> bool {
    op matches FsOp::WriteRepoTimestamp { digest: d, secs: s } && d@ == digest && s == secs
}

pub open spec fn op_is_write_versions(op: FsOp, name: Seq<char>, versions: Seq<VersionRecord>) -> bool {
    op matches FsOp::WriteVersions { name: n, versions: v } && n@ == name && v@ == versions
}

pub open spec fn op_is_write_versions_ts(op: FsOp, name: Seq<char>, secs: u64) -> bool {
    op matches FsOp::WriteVersionsTimestamp { name: n, secs: s } && n@ == name && s == secs
}

pub open spec fn op_is_remove_versions(op: FsOp, name: Seq<char>) -> bool {
    op matches FsOp::RemoveVersions { name: n } && n@ == name
}

pub open spec fn op_is_remove_versions_ts(op: FsOp, name: Seq<char>) -> bool {
    op matches FsOp::RemoveVersionsTimestamp { name: n } && n@ == name
}

pub open spec fn op_is_remove_repo_ts(op: FsOp, digest: Seq<char>) -> bool {
    op matches FsOp::RemoveRepoTimestamp { digest: d } && d@ == digest
}

pub open spec fn op_is_remove_entry(op: FsOp, name: Seq<char>) -> bool {
    op matches FsOp::RemoveEntry { name: n } && n@ == name
}

pub open spec fn op_is_remove_repo_dir(op: FsOp, digest: Seq<char>) -> bool {
    op matches FsOp::RemoveRepoDir { digest: d } && d@ == digest
}

/// The contents of the on-disk store, held as plain data: one map per
/// subdirectory of the cache root.
pub struct DiskState {
    /// `entries/<package-name>`.
    pub entries: StrMap<CacheEntry>,
    /// Which `repositories/<digest>` directories exist.
    pub repo_dirs: StrMap<bool>,
    /// `timestamps/<digest>`.
    pub repo_timestamps: StrMap<u64>,
    /// `versions/<package-name>`.
    pub versions: StrMap<Vec<VersionRecord>>,
    /// `versions_timestamps/<package-name>`.
    pub versions_timestamps: StrMap<u64>,
}

impl DiskState {
    pub open spec fn wf(&self) -> bool {
        &&& self.entries.wf()
        &&& self.repo_dirs.wf()
        &&& self.repo_timestamps.wf()
        &&& self.versions.wf()
        &&& self.versions_timestamps.wf()
    }

    pub fn new() -> (r: DiskState)
        ensures
            r.wf(),
            r.entries@ == Map::<Seq<char>, CacheEntry>::empty(),
            r.repo_dirs@ == Map::<Seq<char>, bool>::empty(),
            r.repo_timestamps@ == Map::<Seq<char>, u64>::empty(),
            r.versions@ == Map::<Seq<char>, Vec<VersionRecord>>::empty(),
            r.versions_timestamps@ == Map::<Seq<char>, u64>::empty(),
    {
        DiskState {
            entries: StrMap::new(),
            repo_dirs: StrMap::new(),
            repo_timestamps: StrMap::new(),
            versions: StrMap::new(),
            versions_timestamps: StrMap::new(),
        }
    }
}

/// The cache: its mode, its refresh age in days, the in-memory layer,
/// the modeled on-disk layer, and the journal of filesystem operations
/// the runner still has to apply.
pub struct Cache {
    pub temporary: bool,
    pub refresh_age: u64,
    pub entries_mem: StrMap<CacheEntry>,
    pub repo_ts_mem: StrMap<u64>,
    pub versions_mem: StrMap<Vec<VersionRecord>>,
    pub versions_ts_mem: StrMap<u64>,
    pub disk: DiskState,
    pub journal: Vec<FsOp>,
}

/// The default refresh age, in days: how long a clone or a versions
/// record may go unrefreshed.
pub const DEFAULT_REFRESH_AGE: u64 = 30;

/// The refresh age a run uses: the user's maintenance-age threshold
/// bounds it, but it never exceeds the default — the cache's notion of
/// freshness is deliberately decoupled from the staleness check.
pub fn effective_refresh_age(max_age: u64) -> (r: u64)
    ensures
        r == if max_age < DEFAULT_REFRESH_AGE { max_age as int } else { DEFAULT_REFRESH_AGE as int },
        r <= DEFAULT_REFRESH_AGE,
        r <= max_age,
{
    if max_age < DEFAULT_REFRESH_AGE {
        max_age
    } else {
        DEFAULT_REFRESH_AGE
    }
}

/// An entry is usable for `pkg` only if the URL it was created for is
/// still the one the package declares.
pub open spec fn entry_matches(e: CacheEntry, pkg: PackageInfo) -> bool {
    pkg.repo_view() == Some(e.named_url@)
}

/// The entry the cache yields for `pkg`: the in-memory layer wins; a
/// disk entry counts only if its `named_url` still matches the package.
pub open spec fn entry_result(c: Cache, pkg: PackageInfo) -> Option<CacheEntry> {
    if c.entries_mem@.contains_key(pkg.name@) {
        Some(c.entries_mem@[pkg.name@])
    } else if c.disk.entries@.contains_key(pkg.name@) && entry_matches(
        c.disk.entries@[pkg.name@],
        pkg,
    ) {
        Some(c.disk.entries@[pkg.name@])
    } else {
        None
    }
}

/// The repository timestamp the cache yields for a digest.
pub open spec fn ts_result(c: Cache, digest: Seq<char>) -> Option<u64> {
    if c.repo_ts_mem@.contains_key(digest) {
        Some(c.repo_ts_mem@[digest])
    } else if c.disk.repo_timestamps@.contains_key(digest) {
        Some(c.disk.repo_timestamps@[digest])
    } else {
        None
    }
}

/// The versions list the cache yields for a package name.
pub open spec fn versions_result(c: Cache, name: Seq<char>) -> Option<Vec<VersionRecord>> {
    if c.versions_mem@.contains_key(name) {
        Some(c.versions_mem@[name])
    } else if c.disk.versions@.contains_key(name) {
        Some(c.disk.versions@[name])
    } else {
        None
    }
}

/// The versions timestamp the cache yields for a package name.
pub open spec fn vts_result(c: Cache, name: Seq<char>) -> Option<u64> {
    if c.versions_ts_mem@.contains_key(name) {
        Some(c.versions_ts_mem@[name])
    } else if c.disk.versions_timestamps@.contains_key(name) {
        Some(c.disk.versions_timestamps@[name])
    } else {
        None
    }
}

/// The package's entry is present, valid, and its repository timestamp
/// lies within the refresh age: `clone_repository` then answers from the
/// cache without any git invocation.
pub open spec fn entry_is_current(c: Cache, pkg: PackageInfo, now: u64) -> bool {
    match entry_result(c, pkg) {
        Some(e) => match ts_result(c, digest_of(e.cloned_url@)) {
            Some(ts) => spec_fresh(ts, now, c.refresh_age),
            None => false,
        },
        None => false,
    }
}

/// The versions record is present and its timestamp lies within the
/// refresh age.
pub open spec fn versions_are_current_spec(c: Cache, name: Seq<char>, now: u64) -> bool {
    versions_result(c, name) is Some && match vts_result(c, name) {
        Some(ts) => spec_fresh(ts, now, c.refresh_age),
        None => false,
    }
}

impl Cache {
    pub open spec fn wf(&self) -> bool {
        &&& self.entries_mem.wf()
        &&& self.repo_ts_mem.wf()
        &&& self.versions_mem.wf()
        &&& self.versions_ts_mem.wf()
        &&& self.disk.wf()
    }

    /// Everything but the store contents and the policy is unchanged.
    pub open spec fn same_config(&self, other: &Cache) -> bool {
        &&& self.temporary == other.temporary
        &&& self.refresh_age == other.refresh_age
    }

    /// Creates a cache with empty stores.  In temporary mode the runner
    /// roots the store in a directory that dies with the process; the
    /// contracts of every operation are independent of the mode.
    pub fn new(temporary: bool, refresh_age: u64) -> (r: Cache)
        ensures
            r.wf(),
            r.temporary == temporary,
            r.refresh_age == refresh_age,
            r.entries_mem@ == Map::<Seq<char>, CacheEntry>::empty(),
            r.repo_ts_mem@ == Map::<Seq<char>, u64>::empty(),
            r.versions_mem@ == Map::<Seq<char>, Vec<VersionRecord>>::empty(),
            r.versions_ts_mem@ == Map::<Seq<char>, u64>::empty(),
            r.disk.entries@ == Map::<Seq<char>, CacheEntry>::empty(),
            r.disk.repo_dirs@ == Map::<Seq<char>, bool>::empty(),
            r.disk.repo_timestamps@ == Map::<Seq<char>, u64>::empty(),
            r.disk.versions@ == Map::<Seq<char>, Vec<VersionRecord>>::empty(),
            r.disk.versions_timestamps@ == Map::<Seq<char>, u64>::empty(),
            r.journal@ =~= Seq::<FsOp>::empty(),
    {
        Cache {
            temporary,
            refresh_age,
            entries_mem: StrMap::new(),
            repo_ts_mem: StrMap::new(),
            versions_mem: StrMap::new(),
            versions_ts_mem: StrMap::new(),
            disk: DiskState::new(),
            journal: Vec::new(),
        }
    }

    /// Reads the package's cache entry.  A disk read is validated against
    /// the package's declared URL and then remembered in memory; any
    /// mismatch or absence is a miss, never an error.
    pub fn entry(&mut self, pkg: &PackageInfo) -> (r: Option<CacheEntry>)
        requires
            old(self).wf(),
        ensures
            final(self).wf(),
            final(self).same_config(old(self)),
            final(self).disk == old(self).disk,
            final(self).journal == old(self).journal,
            final(self).repo_ts_mem == old(self).repo_ts_mem,
            final(self).versions_mem == old(self).versions_mem,
            final(self).versions_ts_mem == old(self).versions_ts_mem,
            r == entry_result(*old(self), *pkg),
            entry_result(*final(self), *pkg) == entry_result(*old(self), *pkg),
            r is None ==> final(self).entries_mem == old(self).entries_mem,
    {
        if let Some(e) = self.entries_mem.get(package_name(pkg)) {
            return Some(e.clone());
        }
        match self.disk.entries.get(package_name(pkg)) {
            None => None,
            Some(e) => {
                let matches_decl = match &pkg.repository {
                    Some(u) => str_eq(u.as_str(), e.named_url.as_str()),
                    None => false,
                };
                if matches_decl {
                    let e2 = e.clone();
                    self.entries_mem.insert(pkg.name.clone(), e2.clone());
                    Some(e2)
                } else {
                    None
                }
            },
        }
    }

    /// Reads the repository timestamp stored for `url`'s digest, through
    /// memory first, then disk.
    pub fn repository_timestamp(&mut self, url: &str) -> (r: Option<u64>)
        requires
            old(self).wf(),
        ensures
            final(self).wf(),
            final(self).same_config(old(self)),
            final(self).disk == old(self).disk,
            final(self).journal == old(self).journal,
            final(self).entries_mem == old(self).entries_mem,
            final(self).versions_mem == old(self).versions_mem,
            final(self).versions_ts_mem == old(self).versions_ts_mem,
            r == ts_result(*old(self), digest_of(url@)),
            forall|d: Seq<char>| ts_result(*final(self), d) == ts_result(*old(self), d),
            r is None ==> final(self).repo_ts_mem == old(self).repo_ts_mem,
    {
        let digest = url_digest(url);
        if let Some(ts) = self.repo_ts_mem.get(digest.as_str()) {
            return Some(*ts);
        }
        match self.disk.repo_timestamps.get(digest.as_str()) {
            None => None,
            Some(ts) => {
                let ts2 = *ts;
                self.repo_ts_mem.insert(digest, ts2);
                proof {
                    assert forall|d: Seq<char>|
                        ts_result(*self, d) == ts_result(*old(self), d) by {}
                }
                Some(ts2)
            },
        }
    }

    /// True iff the repository behind `url` was cloned or fetched less
    /// than the refresh age ago.  Any read failure means "not current".
    pub fn repository_is_current(&mut self, url: &str, now: u64) -> (r: bool)
        requires
            old(self).wf(),
        ensures
            final(self).wf(),
            final(self).same_config(old(self)),
            final(self).disk == old(self).disk,
            final(self).journal == old(self).journal,
            final(self).entries_mem == old(self).entries_mem,
            final(self).versions_mem == old(self).versions_mem,
            final(self).versions_ts_mem == old(self).versions_ts_mem,
            forall|d: Seq<char>| ts_result(*final(self), d) == ts_result(*old(self), d),
            r == match ts_result(*old(self), digest_of(url@)) {
                Some(ts) => spec_fresh(ts, now, old(self).refresh_age),
                None => false,
            },
    {
        let age = self.refresh_age;
        match self.repository_timestamp(url) {
            Some(ts) => is_current(ts, now, age),
            None => false,
        }
    }

    /// Reads the versions list stored for a package name.
    pub fn versions(&mut self, name: &str) -> (r: Option<Vec<VersionRecord>>)
        requires
            old(self).wf(),
        ensures
            final(self).wf(),
            final(self).same_config(old(self)),
            final(self).disk == old(self).disk,
            final(self).journal == old(self).journal,
            final(self).entries_mem == old(self).entries_mem,
            final(self).repo_ts_mem == old(self).repo_ts_mem,
            final(self).versions_ts_mem == old(self).versions_ts_mem,
            match r {
                Some(v) => versions_result(*old(self), name@) matches Some(w) && v@ =~= w@,
                None => versions_result(*old(self), name@) is None,
            },
            versions_result(*final(self), name@) is Some == versions_result(
                *old(self),
                name@,
            ) is Some,
    {
        match self.versions_mem.get(name) {
            Some(v) => {
                return Some(clone_records(v));
            },
            None => {},
        }
        match self.disk.versions.get(name) {
            None => None,
            Some(v) => {
                let v2 = clone_records(v);
                let v3 = clone_records(&v2);
                self.versions_mem.insert(name.to_owned(), v2);
                Some(v3)
            },
        }
    }

    /// Reads the versions timestamp stored for a package name.
    pub fn versions_timestamp(&mut self, name: &str) -> (r: Option<u64>)
        requires
            old(self).wf(),
        ensures
            final(self).wf(),
            final(self).same_config(old(self)),
            final(self).disk == old(self).disk,
            final(self).journal == old(self).journal,
            final(self).entries_mem == old(self).entries_mem,
            final(self).repo_ts_mem == old(self).repo_ts_mem,
            final(self).versions_mem == old(self).versions_mem,
            r == vts_result(*old(self), name@),
            forall|n: Seq<char>| vts_result(*final(self), n) == vts_result(*old(self), n),
    {
        if let Some(ts) = self.versions_ts_mem.get(name) {
            return Some(*ts);
        }
        match self.disk.versions_timestamps.get(name) {
            None => None,
            Some(ts) => {
                let ts2 = *ts;
                self.versions_ts_mem.insert(name.to_owned(), ts2);
                Some(ts2)
            },
        }
    }

    /// True iff the versions record for `name` is within the refresh age.
    pub fn versions_are_current(&mut self, name: &str, now: u64) -> (r: bool)
        requires
            old(self).wf(),
        ensures
            final(self).wf(),
            final(self).same_config(old(self)),
            final(self).disk == old(self).disk,
            final(self).journal == old(self).journal,
            final(self).entries_mem == old(self).entries_mem,
            final(self).repo_ts_mem == old(self).repo_ts_mem,
            final(self).versions_mem == old(self).versions_mem,
            r == match vts_result(*old(self), name@) {
                Some(ts) => spec_fresh(ts, now, old(self).refresh_age),
                None => false,
            },
    {
        let age = self.refresh_age;
        match self.versions_timestamp(name) {
            Some(ts) => is_current(ts, now, age),
            None => false,
        }
    }

    /// The cached versions of `name`, if present and current; `None`
    /// means the caller must fetch from the registry and then call
    /// `record_versions`.
    pub fn fetch_versions(&mut self, name: &str, now: u64) -> (r: Option<Vec<VersionRecord>>)
        requires
            old(self).wf(),
        ensures
            final(self).wf(),
            final(self).same_config(old(self)),
            final(self).disk == old(self).disk,
            final(self).journal == old(self).journal,
            final(self).entries_mem == old(self).entries_mem,
            final(self).repo_ts_mem == old(self).repo_ts_mem,
            r is Some <==> versions_are_current_spec(*old(self), name@, now),
            match r {
                Some(v) => versions_result(*old(self), name@) matches Some(w) && v@ =~= w@,
                None => true,
            },
    {
        let current = self.versions_are_current(name, now);
        match self.versions(name) {
            Some(v) => {
                if current {
                    Some(v)
                } else {
                    None
                }
            },
            None => None,
        }
    }

    /// Records a fresh registry answer: the versions list and its
    /// timestamp are written as a unit, to memory and to the journal.
    pub fn record_versions(&mut self, name: &str, versions: Vec<VersionRecord>, now: u64)
        requires
            old(self).wf(),
        ensures
            final(self).wf(),
            final(self).same_config(old(self)),
            final(self).entries_mem == old(self).entries_mem,
            final(self).repo_ts_mem == old(self).repo_ts_mem,
            final(self).disk.entries == old(self).disk.entries,
            final(self).disk.repo_dirs == old(self).disk.repo_dirs,
            final(self).disk.repo_timestamps == old(self).disk.repo_timestamps,
            versions_result(*final(self), name@) matches Some(v) && v@ == versions@,
            vts_result(*final(self), name@) == Some(now),
            forall|n: Seq<char>| #![auto]
                n != name@ ==> versions_result(*final(self), n) == versions_result(*old(self), n),
            forall|n: Seq<char>| #![auto]
                n != name@ ==> vts_result(*final(self), n) == vts_result(*old(self), n),
            final(self).journal@.len() == old(self).journal@.len() + 2,
            final(self).journal@.subrange(0, old(self).journal@.len() as int) == old(self).journal@,
            op_is_write_versions(
                final(self).journal@[old(self).journal@.len() as int],
                name@,
                versions@,
            ),
            op_is_write_versions_ts(
                final(self).journal@[old(self).journal@.len() as int + 1],
                name@,
                now,
            ),
    {
        let ghost n0 = self.journal@.len();
        let v_disk = clone_records(&versions);
        let v_mem = clone_records(&versions);
        self.journal.push(FsOp::WriteVersions { name: name.to_owned(), versions: versions });
        self.journal.push(FsOp::WriteVersionsTimestamp { name: name.to_owned(), secs: now });
        self.disk.versions.insert(name.to_owned(), v_disk);
        self.disk.versions_timestamps.insert(name.to_owned(), now);
        self.versions_mem.insert(name.to_owned(), v_mem);
        self.versions_ts_mem.insert(name.to_owned(), now);
        proof {
            assert(self.journal@.subrange(0, n0 as int) =~= old(self).journal@);
        }
    }
}

fn package_name(pkg: &PackageInfo) -> (r: &str)
    ensures
        r@ == pkg.name@,
{
    pkg.name.as_str()
}


impl Cache {
    /// Records a cache entry: journal, disk and memory together.
    fn write_entry(&mut self, name: &str, entry: CacheEntry)
        requires
            old(self).wf(),
        ensures
            final(self).wf(),
            final(self).same_config(old(self)),
            final(self).repo_ts_mem == old(self).repo_ts_mem,
            final(self).versions_mem == old(self).versions_mem,
            final(self).versions_ts_mem == old(self).versions_ts_mem,
            final(self).disk.repo_dirs == old(self).disk.repo_dirs,
            final(self).disk.repo_timestamps == old(self).disk.repo_timestamps,
            final(self).disk.versions == old(self).disk.versions,
            final(self).disk.versions_timestamps == old(self).disk.versions_timestamps,
            final(self).disk.entries@ == old(self).disk.entries@.insert(name@, entry),
            final(self).entries_mem@ == old(self).entries_mem@.insert(name@, entry),
            final(self).journal@.len() == old(self).journal@.len() + 1,
            final(self).journal@.subrange(0, old(self).journal@.len() as int) == old(self).journal@,
            op_is_write_entry(
                final(self).journal@[old(self).journal@.len() as int],
                name@,
                entry.named_url@,
                entry.cloned_url@,
            ),
    {
        let ghost n0 = self.journal@.len();
        let e_disk = entry.clone();
        let e_mem = entry.clone();
        self.journal.push(FsOp::WriteEntry { name: name.to_owned(), entry });
        self.disk.entries.insert(name.to_owned(), e_disk);
        self.entries_mem.insert(name.to_owned(), e_mem);
        proof {
            assert(self.journal@.subrange(0, n0 as int) =~= old(self).journal@);
        }
    }

    /// Records a repository timestamp: journal, disk and memory together.
    fn write_repository_timestamp(&mut self, digest: String, secs: u64)
        requires
            old(self).wf(),
        ensures
            final(self).wf(),
            final(self).same_config(old(self)),
            final(self).entries_mem == old(self).entries_mem,
            final(self).versions_mem == old(self).versions_mem,
            final(self).versions_ts_mem == old(self).versions_ts_mem,
            final(self).disk.entries == old(self).disk.entries,
            final(self).disk.repo_dirs == old(self).disk.repo_dirs,
            final(self).disk.versions == old(self).disk.versions,
            final(self).disk.versions_timestamps == old(self).disk.versions_timestamps,
            final(self).disk.repo_timestamps@ == old(self).disk.repo_timestamps@.insert(
                digest@,
                secs,
            ),
            final(self).repo_ts_mem@ == old(self).repo_ts_mem@.insert(digest@, secs),
            final(self).journal@.len() == old(self).journal@.len() + 1,
            final(self).journal@.subrange(0, old(self).journal@.len() as int) == old(self).journal@,
            op_is_write_repo_ts(
                final(self).journal@[old(self).journal@.len() as int],
                digest@,
                secs,
            ),
    {
        let ghost n0 = self.journal@.len();
        let d2 = digest.clone();
        self.journal.push(FsOp::WriteRepoTimestamp { digest, secs });
        self.disk.repo_timestamps.insert(d2.clone(), secs);
        self.repo_ts_mem.insert(d2, secs);
        proof {
            assert(self.journal@.subrange(0, n0 as int) =~= old(self).journal@);
        }
    }

    /// Removes everything the cache holds for one package: the versions
    /// record and its timestamp, the repository timestamp of the cloned
    /// URL, the entry, and finally the repository directory — in that
    /// order, so that a crash mid-purge never leaves metadata pointing at
    /// a directory that was removed before it.
    pub fn purge_entry(&mut self, name: &str, cloned_url: &str)
        requires
            old(self).wf(),
        ensures
            final(self).wf(),
            final(self).same_config(old(self)),
            final(self).disk.versions@ == old(self).disk.versions@.remove(name@),
            final(self).disk.versions_timestamps@ == old(self).disk.versions_timestamps@.remove(
                name@,
            ),
            final(self).disk.repo_timestamps@ == old(self).disk.repo_timestamps@.remove(
                digest_of(cloned_url@),
            ),
            final(self).disk.entries@ == old(self).disk.entries@.remove(name@),
            final(self).disk.repo_dirs@ == old(self).disk.repo_dirs@.remove(digest_of(cloned_url@)),
            final(self).entries_mem@ == old(self).entries_mem@.remove(name@),
            final(self).repo_ts_mem@ == old(self).repo_ts_mem@.remove(digest_of(cloned_url@)),
            final(self).versions_mem@ == old(self).versions_mem@.remove(name@),
            final(self).versions_ts_mem@ == old(self).versions_ts_mem@.remove(name@),
            final(self).journal@.len() == old(self).journal@.len() + 5,
            final(self).journal@.subrange(0, old(self).journal@.len() as int) == old(self).journal@,
            op_is_remove_versions(final(self).journal@[old(self).journal@.len() as int], name@),
            op_is_remove_versions_ts(
                final(self).journal@[old(self).journal@.len() as int + 1],
                name@,
            ),
            op_is_remove_repo_ts(
                final(self).journal@[old(self).journal@.len() as int + 2],
                digest_of(cloned_url@),
            ),
            op_is_remove_entry(final(self).journal@[old(self).journal@.len() as int + 3], name@),
            op_is_remove_repo_dir(
                final(self).journal@[old(self).journal@.len() as int + 4],
                digest_of(cloned_url@),
            ),
    {
        let ghost n0 = self.journal@.len();
        let digest = url_digest(cloned_url);
        self.journal.push(FsOp::RemoveVersions { name: name.to_owned() });
        self.journal.push(FsOp::RemoveVersionsTimestamp { name: name.to_owned() });
        self.journal.push(FsOp::RemoveRepoTimestamp { digest: digest.clone() });
        self.journal.push(FsOp::RemoveEntry { name: name.to_owned() });
        self.journal.push(FsOp::RemoveRepoDir { digest: digest.clone() });
        self.disk.versions.remove(name);
        self.disk.versions_timestamps.remove(name);
        self.disk.repo_timestamps.remove(digest.as_str());
        self.disk.entries.remove(name);
        self.disk.repo_dirs.remove(digest.as_str());
        self.entries_mem.remove(name);
        self.repo_ts_mem.remove(digest.as_str());
        self.versions_mem.remove(name);
        self.versions_ts_mem.remove(name);
        proof {
            assert(self.journal@.subrange(0, n0 as int) =~= old(self).journal@);
        }
    }
}

/// Removes the whole cache: every store becomes empty and the runner is
/// told to delete the cache root.  Safe to call when nothing is cached;
/// the result reports whether anything existed to remove.
pub fn purge_cache(cache: &mut Cache) -> (r: bool)
    requires
        old(cache).wf(),
    ensures
        final(cache).wf(),
        final(cache).same_config(old(cache)),
        final(cache).disk.entries@ == Map::<Seq<char>, CacheEntry>::empty(),
        final(cache).disk.repo_dirs@ == Map::<Seq<char>, bool>::empty(),
        final(cache).disk.repo_timestamps@ == Map::<Seq<char>, u64>::empty(),
        final(cache).disk.versions@ == Map::<Seq<char>, Vec<VersionRecord>>::empty(),
        final(cache).disk.versions_timestamps@ == Map::<Seq<char>, u64>::empty(),
        final(cache).entries_mem@ == Map::<Seq<char>, CacheEntry>::empty(),
        final(cache).repo_ts_mem@ == Map::<Seq<char>, u64>::empty(),
        final(cache).versions_mem@ == Map::<Seq<char>, Vec<VersionRecord>>::empty(),
        final(cache).versions_ts_mem@ == Map::<Seq<char>, u64>::empty(),
        final(cache).journal@.len() == old(cache).journal@.len() + 1,
        final(cache).journal@.subrange(0, old(cache).journal@.len() as int) == old(cache).journal@,
        final(cache).journal@.last() is RemoveCacheRoot,
        r == !(old(cache).disk.entries@ =~= Map::<Seq<char>, CacheEntry>::empty()
            && old(cache).disk.repo_dirs@ =~= Map::<Seq<char>, bool>::empty()
            && old(cache).disk.repo_timestamps@ =~= Map::<Seq<char>, u64>::empty()
            && old(cache).disk.versions@ =~= Map::<Seq<char>, Vec<VersionRecord>>::empty()
            && old(cache).disk.versions_timestamps@ =~= Map::<Seq<char>, u64>::empty()),
{
    let ghost n0 = cache.journal@.len();
    let existed = !(cache.disk.entries.is_empty() && cache.disk.repo_dirs.is_empty()
        && cache.disk.repo_timestamps.is_empty() && cache.disk.versions.is_empty()
        && cache.disk.versions_timestamps.is_empty());
    cache.disk.entries.clear();
    cache.disk.repo_dirs.clear();
    cache.disk.repo_timestamps.clear();
    cache.disk.versions.clear();
    cache.disk.versions_timestamps.clear();
    cache.entries_mem.clear();
    cache.repo_ts_mem.clear();
    cache.versions_mem.clear();
    cache.versions_ts_mem.clear();
    cache.journal.push(FsOp::RemoveCacheRoot);
    proof {
        assert(cache.journal@.subrange(0, n0 as int) =~= old(cache).journal@);
    }
    existed
}


/// One git invocation the runner must perform: a fetch of the current
/// branch inside an existing clone, or a fresh shallow, branchless clone.
pub enum GitTask {
    Fetch { url: String, digest: String },
    Clone { url: String, digest: String },
}

/// What the runner reports back about a git task.  Anything may come
/// back: the engine states what holds for every outcome.
pub enum GitOutcome {
    Succeeded,
    Failed { stderr: String },
}

/// The state of one package's clone/refresh attempt between git tasks.
pub struct CloneSession {
    pub name: String,
    pub named_url: String,
    pub candidates: Vec<String>,
    pub idx: usize,
    pub purged: bool,
    pub errors: Vec<String>,
}

impl CloneSession {
    pub open spec fn wf(&self) -> bool {
        self.idx < self.candidates@.len()
    }

    /// The candidate URL currently being tried.
    pub open spec fn current(&self) -> Seq<char> {
        self.candidates@[self.idx as int]@
    }
}

/// What `clone_repository` or `clone_proceed` asks of its caller next.
pub enum CloneStep {
    /// The repository is available: its URL and its digest, which names
    /// `repositories/<digest>`.
    Done { url: String, digest: String },
    /// Run this git task and report the outcome through `clone_proceed`.
    Run { task: GitTask, session: CloneSession },
    /// The package declares no repository URL; nothing was consulted.
    Unnamed,
    /// Every candidate failed; the de-duplicated error texts.
    Failed { errors: Vec<String> },
}

/// The task issued for a candidate URL: fetch if its repository
/// directory exists on disk, clone fresh otherwise.
pub open spec fn task_matches(c: Cache, cand: Seq<char>, t: GitTask) -> bool {
    if c.disk.repo_dirs@.contains_key(digest_of(cand)) {
        t matches GitTask::Fetch { url, digest } && url@ == cand && digest@ == digest_of(cand)
    } else {
        t matches GitTask::Clone { url, digest } && url@ == cand && digest@ == digest_of(cand)
    }
}

/// The candidate URLs a refresh iterates, in order: the entry's known
/// `cloned_url` first when a stale entry exists, then the package's
/// declared URL and its shortened form.
pub open spec fn candidates_spec(c: Cache, pkg: PackageInfo) -> Seq<Seq<char>> {
    match entry_result(c, pkg) {
        Some(e) => seq![e.cloned_url@] + urls_spec(pkg.repo_view()),
        None => urls_spec(pkg.repo_view()),
    }
}

/// The git failure that signals a renamed or deleted upstream branch.
/// Matching the subprocess's error text is inherently fragile, so the
/// test is isolated here.
pub open spec fn is_branch_err_spec(s: Seq<char>) -> bool {
    find_sub_from(s, "couldn't find remote ref"@, 0) is Some
}

/// Decides whether a fetch failed because the remote branch is gone.
pub fn is_branch_rename_error(stderr: &str) -> (r: bool)
    ensures
        r == is_branch_err_spec(stderr@),
{
    contains_sub(stderr, "couldn't find remote ref")
}

impl Cache {
    fn task_for(&self, cand: &str) -> (t: GitTask)
        requires
            self.wf(),
        ensures
            task_matches(*self, cand@, t),
    {
        let digest = url_digest(cand);
        if self.disk.repo_dirs.contains_key(digest.as_str()) {
            GitTask::Fetch { url: cand.to_owned(), digest }
        } else {
            GitTask::Clone { url: cand.to_owned(), digest }
        }
    }

    /// Begins (or answers) a clone/refresh for `pkg` at time `now`.
    ///
    /// A package without a repository URL fails immediately as
    /// `Unnamed`.  A current entry is answered from the cache alone —
    /// `Done` without any git task.  Otherwise a session over the
    /// candidate URLs starts with its first git task.
    pub fn clone_repository(&mut self, pkg: &PackageInfo, now: u64) -> (r: CloneStep)
        requires
            old(self).wf(),
        ensures
            final(self).wf(),
            final(self).same_config(old(self)),
            final(self).disk == old(self).disk,
            final(self).journal == old(self).journal,
            pkg.repo_view() is None ==> r is Unnamed && *final(self) == *old(self),
            pkg.repo_view() is Some ==> ((r matches CloneStep::Done { .. }) <==> entry_is_current(
                *old(self),
                *pkg,
                now,
            )),
            r matches CloneStep::Done { url, digest } ==> (entry_result(*old(self), *pkg) matches
                Some(e) && url@ == e.cloned_url@ && digest@ == digest_of(e.cloned_url@)),
            (pkg.repo_view() is Some && !entry_is_current(*old(self), *pkg, now)) ==> (r matches
                CloneStep::Run { task, session } && session.wf() && session.name@ == pkg.name@
                && Some(session.named_url@) == pkg.repo_view() && session.idx == 0
                && session.purged == false && session.errors@ =~= Seq::<String>::empty()
                && str_views(session.candidates@) =~= candidates_spec(*old(self), *pkg)
                && task_matches(*old(self), session.current(), task)),
    {
        let named_url = match &pkg.repository {
            None => {
                return CloneStep::Unnamed;
            },
            Some(u) => u.clone(),
        };
        let entry_opt = self.entry(pkg);
        if let Some(e) = &entry_opt {
            if self.repository_is_current(e.cloned_url.as_str(), now) {
                let digest = url_digest(e.cloned_url.as_str());
                return CloneStep::Done { url: e.cloned_url.clone(), digest };
            }
        }
        let mut candidates: Vec<String> = Vec::new();
        let ghost base: Seq<Seq<char>> = match entry_result(*old(self), *pkg) {
            Some(e) => seq![e.cloned_url@],
            None => Seq::empty(),
        };
        if let Some(e) = &entry_opt {
            candidates.push(e.cloned_url.clone());
        }
        let us = urls(pkg);
        let ghost uspec = urls_spec(pkg.repo_view());
        let ghost nbase = base.len();
        proof {
            assert(candidates@.len() == nbase);
            assert(forall|j: int| 0 <= j < nbase ==> candidates@[j]@ == base[j]);
        }
        let mut i: usize = 0;
        while i < us.len()
            invariant
                0 <= i <= us@.len(),
                us@.len() == uspec.len(),
                forall|j: int| 0 <= j < us@.len() ==> us@[j]@ == uspec[j],
                candidates@.len() == nbase + i,
                nbase == base.len(),
                forall|j: int| 0 <= j < nbase ==> candidates@[j]@ == base[j],
                forall|j: int| 0 <= j < i ==> candidates@[nbase + j]@ == uspec[j],
            decreases us@.len() - i,
        {
            let s_new: String = us[i].as_str().to_owned();
            candidates.push(s_new);
            i += 1;
        }
        proof {
            assert forall|j: int| 0 <= j < str_views(candidates@).len() implies str_views(
                candidates@,
            )[j] == candidates_spec(*old(self), *pkg)[j] by {
                if j < nbase {
                    assert(candidates@[j]@ == base[j]);
                } else {
                    assert(candidates@[nbase + (j - nbase)]@ == uspec[j - nbase]);
                }
            }
            assert(str_views(candidates@) =~= candidates_spec(*old(self), *pkg));
        }
        let session = CloneSession {
            name: pkg.name.clone(),
            named_url,
            candidates,
            idx: 0,
            purged: false,
            errors: Vec::new(),
        };
        let task = self.task_for(session.candidates[0].as_str());
        CloneStep::Run { task, session }
    }

    /// Advances a session with the outcome of its current git task.
    ///
    /// Success records the entry and the repository timestamp and
    /// finishes.  A fetch failure that names a missing remote branch
    /// purges the package's cache state — after which no entry, no
    /// timestamp and no repository directory remain — and retries the
    /// same candidate as a fresh clone, once.  Any other failure records
    /// the error text and moves to the next candidate; when none are
    /// left, the de-duplicated errors are returned.
    pub fn clone_proceed(&mut self, session: CloneSession, outcome: GitOutcome, now: u64) -> (r:
        CloneStep)
        requires
            old(self).wf(),
            session.wf(),
        ensures
            final(self).wf(),
            final(self).same_config(old(self)),
            outcome matches GitOutcome::Succeeded ==> ({
                let cand = session.current();
                &&& r matches CloneStep::Done { url, digest } && url@ == cand && digest@
                    == digest_of(cand)
                &&& exists|e: CacheEntry|
                    #![auto]
                    e.named_url@ == session.named_url@ && e.cloned_url@ == cand && final(self).disk.entries@ == old(self).disk.entries@.insert(session.name@, e) && final(self).entries_mem@ == old(self).entries_mem@.insert(session.name@, e)
                &&& final(self).disk.repo_dirs@ == old(self).disk.repo_dirs@.insert(
                    digest_of(cand),
                    true,
                )
                &&& final(self).disk.repo_timestamps@ == old(self).disk.repo_timestamps@.insert(
                    digest_of(cand),
                    now,
                )
                &&& final(self).repo_ts_mem@ == old(self).repo_ts_mem@.insert(digest_of(cand), now)
                &&& final(self).versions_mem == old(self).versions_mem
                &&& final(self).versions_ts_mem == old(self).versions_ts_mem
                &&& final(self).disk.versions == old(self).disk.versions
                &&& final(self).disk.versions_timestamps == old(self).disk.versions_timestamps
                &&& final(self).journal@.len() == old(self).journal@.len() + 2
                &&& final(self).journal@.subrange(0, old(self).journal@.len() as int) == old(self).journal@
                &&& op_is_write_entry(
                    final(self).journal@[old(self).journal@.len() as int],
                    session.name@,
                    session.named_url@,
                    cand,
                )
                &&& op_is_write_repo_ts(
                    final(self).journal@[old(self).journal@.len() as int + 1],
                    digest_of(cand),
                    now,
                )
            }),
            outcome matches GitOutcome::Failed { stderr } ==> ({
                let cand = session.current();
                let recover = is_branch_err_spec(stderr@) && old(self).disk.repo_dirs@.contains_key(
                    digest_of(cand),
                ) && !session.purged;
                &&& (recover ==> ({
                    &&& r matches CloneStep::Run { task, session: s2 } && (task matches
                        GitTask::Clone { url, digest } && url@ == cand && digest@ == digest_of(
                        cand,
                    )) && s2.wf() && s2.name@ == session.name@ && s2.named_url@
                        == session.named_url@ && s2.candidates == session.candidates && s2.idx
                        == session.idx && s2.purged == true && s2.errors == session.errors
                    &&& final(self).disk.versions@ == old(self).disk.versions@.remove(
                        session.name@,
                    )
                    &&& final(self).disk.versions_timestamps@ == old(self).disk.versions_timestamps@.remove(session.name@)
                    &&& final(self).disk.repo_timestamps@ == old(self).disk.repo_timestamps@.remove(digest_of(cand))
                    &&& final(self).disk.entries@ == old(self).disk.entries@.remove(session.name@)
                    &&& final(self).disk.repo_dirs@ == old(self).disk.repo_dirs@.remove(
                        digest_of(cand),
                    )
                    &&& !final(self).disk.repo_dirs@.contains_key(digest_of(cand))
                    &&& final(self).entries_mem@ == old(self).entries_mem@.remove(session.name@)
                    &&& final(self).repo_ts_mem@ == old(self).repo_ts_mem@.remove(digest_of(cand))
                    &&& final(self).versions_mem@ == old(self).versions_mem@.remove(session.name@)
                    &&& final(self).versions_ts_mem@ == old(self).versions_ts_mem@.remove(
                        session.name@,
                    )
                    &&& final(self).journal@.len() == old(self).journal@.len() + 5
                    &&& final(self).journal@.subrange(0, old(self).journal@.len() as int) == old(self).journal@
                    &&& op_is_remove_versions(
                        final(self).journal@[old(self).journal@.len() as int],
                        session.name@,
                    )
                    &&& op_is_remove_versions_ts(
                        final(self).journal@[old(self).journal@.len() as int + 1],
                        session.name@,
                    )
                    &&& op_is_remove_repo_ts(
                        final(self).journal@[old(self).journal@.len() as int + 2],
                        digest_of(cand),
                    )
                    &&& op_is_remove_entry(
                        final(self).journal@[old(self).journal@.len() as int + 3],
                        session.name@,
                    )
                    &&& op_is_remove_repo_dir(
                        final(self).journal@[old(self).journal@.len() as int + 4],
                        digest_of(cand),
                    )
                }))
                &&& (!recover ==> ({
                    &&& *final(self) == *old(self)
                    &&& (session.idx + 1 < session.candidates@.len() ==> (r matches CloneStep::Run {
                        task,
                        session: s2,
                    } && s2.wf() && s2.name@ == session.name@ && s2.named_url@
                        == session.named_url@ && s2.candidates == session.candidates && s2.idx
                        == session.idx + 1 && s2.purged == false && s2.errors@
                        == session.errors@.push(stderr) && task_matches(
                        *old(self),
                        s2.current(),
                        task,
                    )))
                    &&& (session.idx + 1 >= session.candidates@.len() ==> (r matches
                        CloneStep::Failed { errors } && str_views(errors@) =~= crate::text::dedup_spec(
                        str_views(session.errors@.push(stderr)),
                    )))
                }))
            }),
    {
        let cand: String = session.candidates[session.idx].clone();
        match outcome {
            GitOutcome::Succeeded => {
                let digest = url_digest(cand.as_str());
                let entry = CacheEntry {
                    named_url: session.named_url.clone(),
                    cloned_url: cand.clone(),
                };
                self.write_entry(session.name.as_str(), entry);
                self.disk.repo_dirs.insert(digest.clone(), true);
                self.write_repository_timestamp(digest.clone(), now);
                CloneStep::Done { url: cand, digest }
            },
            GitOutcome::Failed { stderr } => {
                let is_rename = is_branch_rename_error(stderr.as_str());
                let digest = url_digest(cand.as_str());
                let dir_exists = self.disk.repo_dirs.contains_key(digest.as_str());
                if is_rename && dir_exists && !session.purged {
                    self.purge_entry(session.name.as_str(), cand.as_str());
                    let task = GitTask::Clone { url: cand.clone(), digest };
                    let session2 = CloneSession {
                        name: session.name,
                        named_url: session.named_url,
                        candidates: session.candidates,
                        idx: session.idx,
                        purged: true,
                        errors: session.errors,
                    };
                    CloneStep::Run { task, session: session2 }
                } else {
                    let mut errors = session.errors;
                    errors.push(stderr);
                    let n = session.candidates.len();
                    let next = session.idx + 1;
                    if next < n {
                        let task = self.task_for(session.candidates[next].as_str());
                        let session2 = CloneSession {
                            name: session.name,
                            named_url: session.named_url,
                            candidates: session.candidates,
                            idx: next,
                            purged: false,
                            errors,
                        };
                        CloneStep::Run { task, session: session2 }
                    } else {
                        CloneStep::Failed { errors: crate::text::dedup_strings(errors) }
                    }
                }
            },
        }
    }
}


/// Freshness idempotence: once a successful clone for `pkg` is recorded
/// at time `now` — as `clone_proceed` records it — the entry is current
/// at any `now2` within the refresh age, so `clone_repository` answers
/// `Done` from the entry and timestamp stores without issuing a git task.
pub proof fn lemma_freshness_idempotence(
    c: Cache,
    pkg: PackageInfo,
    e: CacheEntry,
    now: u64,
    now2: u64,
)
    requires
        c.entries_mem@.contains_key(pkg.name@),
        c.entries_mem@[pkg.name@] == e,
        ts_result(c, digest_of(e.cloned_url@)) == Some(now),
        now <= now2,
        now2 - now < c.refresh_age * (SECS_PER_DAY as int),
    ensures
        entry_is_current(c, pkg, now2),
{
    assert(entry_result(c, pkg) == Some(e));
}

/// URL-change invalidation: when the on-disk entry's `named_url` no
/// longer matches the package's declared repository URL, the entry reads
/// as a miss, so a run that starts with an empty memory layer cannot
/// reuse it and proceeds to a fresh git task.
pub proof fn lemma_url_change_invalidation(c: Cache, pkg: PackageInfo, now: u64)
    requires
        !c.entries_mem@.contains_key(pkg.name@),
        c.disk.entries@.contains_key(pkg.name@) ==> pkg.repo_view() != Some(
            c.disk.entries@[pkg.name@].named_url@,
        ),
    ensures
        entry_result(c, pkg) is None,
        !entry_is_current(c, pkg, now),
{
}

/// Purge completeness: a cache whose stores are empty — as `purge_cache`
/// leaves them — holds nothing for any package, so the next
/// `clone_repository` behaves exactly as a first-ever call: no entry is
/// current and the candidates are the package's own URLs alone.
pub proof fn lemma_purge_completeness(c: Cache, pkg: PackageInfo, now: u64)
    requires
        c.entries_mem@ == Map::<Seq<char>, CacheEntry>::empty(),
        c.disk.entries@ == Map::<Seq<char>, CacheEntry>::empty(),
        c.repo_ts_mem@ == Map::<Seq<char>, u64>::empty(),
        c.disk.repo_timestamps@ == Map::<Seq<char>, u64>::empty(),
    ensures
        entry_result(c, pkg) is None,
        !entry_is_current(c, pkg, now),
        candidates_spec(c, pkg) == urls_spec(pkg.repo_view()),
{
}

/// Two caches with equal stores and equal refresh age are observably
/// equal: every contract in this module speaks only of the stores and
/// the refresh age, never of the mode flag.
pub open spec fn obs_eq(c1: Cache, c2: Cache) -> bool {
    &&& c1.refresh_age == c2.refresh_age
    &&& c1.entries_mem@ == c2.entries_mem@
    &&& c1.repo_ts_mem@ == c2.repo_ts_mem@
    &&& c1.versions_mem@ == c2.versions_mem@
    &&& c1.versions_ts_mem@ == c2.versions_ts_mem@
    &&& c1.disk.entries@ == c2.disk.entries@
    &&& c1.disk.repo_dirs@ == c2.disk.repo_dirs@
    &&& c1.disk.repo_timestamps@ == c2.disk.repo_timestamps@
    &&& c1.disk.versions@ == c2.disk.versions@
    &&& c1.disk.versions_timestamps@ == c2.disk.versions_timestamps@
}

/// No-cache equivalence: a cache forced into temporary mode and a
/// persistent cache immediately after a purge present identical stores
/// to every operation, whatever their mode flags; with equal clocks and
/// equal refresh ages the two runs are indistinguishable to callers.
pub proof fn lemma_no_cache_equivalence(c1: Cache, c2: Cache, pkg: PackageInfo, now: u64)
    requires
        obs_eq(c1, c2),
    ensures
        entry_result(c1, pkg) == entry_result(c2, pkg),
        entry_is_current(c1, pkg, now) == entry_is_current(c2, pkg, now),
        candidates_spec(c1, pkg) == candidates_spec(c2, pkg),
        forall|d: Seq<char>| ts_result(c1, d) == ts_result(c2, d),
        forall|n: Seq<char>| versions_result(c1, n) == versions_result(c2, n),
        forall|n: Seq<char>| vts_result(c1, n) == vts_result(c2, n),
        forall|n: Seq<char>, t: u64|
            versions_are_current_spec(c1, n, t) == versions_are_current_spec(c2, n, t),
{
}

/// Branch-rename recovery leaves no residue: after the purge that
/// answers a remote-branch-not-found failure, the package has no entry
/// anywhere, and the candidate's repository directory and timestamp are
/// gone, so the engine's retry of the same candidate is a clean clone.
pub proof fn lemma_branch_rename_recovery(
    c: Cache,
    pkg: PackageInfo,
    cand: Seq<char>,
    now: u64,
    t: GitTask,
)
    requires
        !c.entries_mem@.contains_key(pkg.name@),
        !c.disk.entries@.contains_key(pkg.name@),
        !c.disk.repo_dirs@.contains_key(digest_of(cand)),
        task_matches(c, cand, t),
    ensures
        entry_result(c, pkg) is None,
        !entry_is_current(c, pkg, now),
        t matches GitTask::Clone { url, digest } && url@ == cand && digest@ == digest_of(cand),
{
}

} // verus!



