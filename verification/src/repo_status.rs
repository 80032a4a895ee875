//! Repository statuses, with the variants ordered by how "bad" they are.
//!
//! A `RepoStatus` has a url only if it is not `Unnamed`.  A `RepoStatus`
//! has a value only if it is `Success`.

use vstd::prelude::*;

use crate::url::Url;

verus! {

#[derive(Clone, Debug, PartialEq, Eq, PartialOrd, Ord)]
pub enum RepoStatus<T> {
    Uncloneable(Url),
    Unnamed,
    Success(Url, T),
    Unassociated(Url),
    Nonexistent(Url),
    Archived(Url),
}

impl<T> RepoStatus<T> {
    /// The url and value carried by a `Success`, and nothing otherwise.
    pub fn as_success(&self) -> (r: Option<(Url, &T)>)
        ensures
            match r {
                Some((url, value)) => self matches RepoStatus::Success(u, v) && url@ == u@ && value
                    == v,
                None => !(self matches RepoStatus::Success(_, _)),
            },
    {
        match self {
            RepoStatus::Uncloneable(_)
            | RepoStatus::Unnamed
            | RepoStatus::Unassociated(_)
            | RepoStatus::Nonexistent(_)
            | RepoStatus::Archived(_) => None,
            RepoStatus::Success(url, value) => Some((url.leak(), value)),
        }
    }

    pub fn is_success(&self) -> (r: bool)
        ensures
            r == self matches RepoStatus::Success(_, _),
    {
        matches!(self, RepoStatus::Success(_, _))
    }

    pub fn is_failure(&self) -> (r: bool)
        ensures
            r == !(self matches RepoStatus::Success(_, _)),
    {
        !self.is_success()
    }

    /// The same status with its url replaced by the empty url, so that
    /// statuses can be compared or sorted without regard to the url.
    pub fn erase_url(self) -> (r: RepoStatus<T>)
        ensures
            status_shape_eq(&self, &r),
            match r {
                RepoStatus::Uncloneable(u) => u@ == Seq::<char>::empty(),
                RepoStatus::Unnamed => true,
                RepoStatus::Success(u, v) => u@ == Seq::<char>::empty() && (self matches
                    RepoStatus::Success(_, w) && v == w),
                RepoStatus::Unassociated(u) => u@ == Seq::<char>::empty(),
                RepoStatus::Nonexistent(u) => u@ == Seq::<char>::empty(),
                RepoStatus::Archived(u) => u@ == Seq::<char>::empty(),
            },
    {
        match self {
            RepoStatus::Uncloneable(_) => RepoStatus::Uncloneable(Url::default()),
            RepoStatus::Unnamed => RepoStatus::Unnamed,
            RepoStatus::Success(_, value) => RepoStatus::Success(Url::default(), value),
            RepoStatus::Unassociated(_) => RepoStatus::Unassociated(Url::default()),
            RepoStatus::Nonexistent(_) => RepoStatus::Nonexistent(Url::default()),
            RepoStatus::Archived(_) => RepoStatus::Archived(Url::default()),
        }
    }

    /// An owned copy of the status whose url is safe to store in a
    /// long-lived table.
    pub fn leak_url(self) -> (r: RepoStatus<T>)
        ensures
            status_like(&self, &r),
    {
        match self {
            RepoStatus::Uncloneable(url) => RepoStatus::Uncloneable(url.leak()),
            RepoStatus::Unnamed => RepoStatus::Unnamed,
            RepoStatus::Success(url, value) => RepoStatus::Success(url.leak(), value),
            RepoStatus::Unassociated(url) => RepoStatus::Unassociated(url.leak()),
            RepoStatus::Nonexistent(url) => RepoStatus::Nonexistent(url.leak()),
            RepoStatus::Archived(url) => RepoStatus::Archived(url.leak()),
        }
    }

    /// Applies `f` to the value of a `Success` and keeps every other
    /// status as it is.
    pub fn map<U, F: Fn(T) -> U>(self, f: F) -> (r: RepoStatus<U>)
        requires
            self matches RepoStatus::Success(_, v) ==> f.requires((v,)),
        ensures
            status_shape_eq(&self, &r),
            match r {
                RepoStatus::Uncloneable(u) => self matches RepoStatus::Uncloneable(u0) && u@ == u0@,
                RepoStatus::Unnamed => true,
                RepoStatus::Success(u, w) => self matches RepoStatus::Success(u0, v) && u@ == u0@
                    && f.ensures((v,), w),
                RepoStatus::Unassociated(u) => self matches RepoStatus::Unassociated(u0) && u@
                    == u0@,
                RepoStatus::Nonexistent(u) => self matches RepoStatus::Nonexistent(u0) && u@ == u0@,
                RepoStatus::Archived(u) => self matches RepoStatus::Archived(u0) && u@ == u0@,
            },
    {
        match self {
            RepoStatus::Uncloneable(url) => RepoStatus::Uncloneable(url),
            RepoStatus::Unnamed => RepoStatus::Unnamed,
            RepoStatus::Success(url, value) => RepoStatus::Success(url, f(value)),
            RepoStatus::Unassociated(url) => RepoStatus::Unassociated(url),
            RepoStatus::Nonexistent(url) => RepoStatus::Nonexistent(url),
            RepoStatus::Archived(url) => RepoStatus::Archived(url),
        }
    }

    /// Carries a failure over to a different value type.  `Success` is
    /// excluded by the caller.
    pub fn map_failure<U>(self) -> (r: RepoStatus<U>)
        requires
            !(self matches RepoStatus::Success(_, _)),
        ensures
            status_shape_eq(&self, &r),
            match r {
                RepoStatus::Uncloneable(u) => self matches RepoStatus::Uncloneable(u0) && u@ == u0@,
                RepoStatus::Unnamed => true,
                RepoStatus::Success(_, _) => false,
                RepoStatus::Unassociated(u) => self matches RepoStatus::Unassociated(u0) && u@
                    == u0@,
                RepoStatus::Nonexistent(u) => self matches RepoStatus::Nonexistent(u0) && u@ == u0@,
                RepoStatus::Archived(u) => self matches RepoStatus::Archived(u0) && u@ == u0@,
            },
    {
        match self {
            RepoStatus::Uncloneable(url) => RepoStatus::Uncloneable(url),
            RepoStatus::Unnamed => RepoStatus::Unnamed,
            RepoStatus::Success(_, _) => vstd::pervasive::unreached(),
            RepoStatus::Unassociated(url) => RepoStatus::Unassociated(url),
            RepoStatus::Nonexistent(url) => RepoStatus::Nonexistent(url),
            RepoStatus::Archived(url) => RepoStatus::Archived(url),
        }
    }
}

impl<T, E> RepoStatus<Result<T, E>> {
    /// Moves a `Result` out of a `Success`: a `Success` of an `Err`
    /// becomes the error, every other status is kept.
    pub fn transpose(self) -> (r: Result<RepoStatus<T>, E>)
        ensures
            match r {
                Ok(status) => match status {
                    RepoStatus::Uncloneable(u) => self matches RepoStatus::Uncloneable(u0) && u@
                        == u0@,
                    RepoStatus::Unnamed => self matches RepoStatus::Unnamed,
                    RepoStatus::Success(u, v) => self matches RepoStatus::Success(u0, res) && u@
                        == u0@ && (res matches Ok(w) && v == w),
                    RepoStatus::Unassociated(u) => self matches RepoStatus::Unassociated(u0) && u@
                        == u0@,
                    RepoStatus::Nonexistent(u) => self matches RepoStatus::Nonexistent(u0) && u@
                        == u0@,
                    RepoStatus::Archived(u) => self matches RepoStatus::Archived(u0) && u@ == u0@,
                },
                Err(e) => self matches RepoStatus::Success(_, res) && res matches Err(e0) && e
                    == e0,
            },
    {
        match self {
            RepoStatus::Uncloneable(url) => Ok(RepoStatus::Uncloneable(url)),
            RepoStatus::Unnamed => Ok(RepoStatus::Unnamed),
            RepoStatus::Success(url, Ok(value)) => Ok(RepoStatus::Success(url, value)),
            RepoStatus::Success(_, Err(error)) => Err(error),
            RepoStatus::Unassociated(url) => Ok(RepoStatus::Unassociated(url)),
            RepoStatus::Nonexistent(url) => Ok(RepoStatus::Nonexistent(url)),
            RepoStatus::Archived(url) => Ok(RepoStatus::Archived(url)),
        }
    }
}

/// Two statuses have the same variant.
pub open spec fn status_shape_eq<T, U>(a: &RepoStatus<T>, b: &RepoStatus<U>) -> bool {
    match (a, b) {
        (RepoStatus::Uncloneable(_), RepoStatus::Uncloneable(_)) => true,
        (RepoStatus::Unnamed, RepoStatus::Unnamed) => true,
        (RepoStatus::Success(_, _), RepoStatus::Success(_, _)) => true,
        (RepoStatus::Unassociated(_), RepoStatus::Unassociated(_)) => true,
        (RepoStatus::Nonexistent(_), RepoStatus::Nonexistent(_)) => true,
        (RepoStatus::Archived(_), RepoStatus::Archived(_)) => true,
        _ => false,
    }
}

/// Two statuses of one value type agree on variant, url text and value.
pub open spec fn status_like<T>(a: &RepoStatus<T>, b: &RepoStatus<T>) -> bool {
    match (a, b) {
        (RepoStatus::Uncloneable(u), RepoStatus::Uncloneable(v)) => u@ == v@,
        (RepoStatus::Unnamed, RepoStatus::Unnamed) => true,
        (RepoStatus::Success(u, x), RepoStatus::Success(v, y)) => u@ == v@ && x == y,
        (RepoStatus::Unassociated(u), RepoStatus::Unassociated(v)) => u@ == v@,
        (RepoStatus::Nonexistent(u), RepoStatus::Nonexistent(v)) => u@ == v@,
        (RepoStatus::Archived(u), RepoStatus::Archived(v)) => u@ == v@,
        _ => false,
    }
}

/// The status rendered without its url, as the JSON report shows it: a
/// `Success` carries the repository age in days.
#[derive(Clone, Copy, Debug, PartialEq, Eq, Structural)]
pub enum SerializableRepoStatus {
    Uncloneable,
    Unnamed,
    Age(u64),
    Unassociated,
    Nonexistent,
    Archived,
}

impl SerializableRepoStatus {
    /// Renders an age status from a repository status holding an age in
    /// seconds.
    pub fn from_status(value: &RepoStatus<u64>) -> (r: SerializableRepoStatus)
        ensures
            match value {
                RepoStatus::Uncloneable(_) => r == SerializableRepoStatus::Uncloneable,
                RepoStatus::Unnamed => r == SerializableRepoStatus::Unnamed,
                RepoStatus::Success(_, age) => r == SerializableRepoStatus::Age(
                    (age / crate::SECS_PER_DAY) as u64,
                ),
                RepoStatus::Unassociated(_) => r == SerializableRepoStatus::Unassociated,
                RepoStatus::Nonexistent(_) => r == SerializableRepoStatus::Nonexistent,
                RepoStatus::Archived(_) => r == SerializableRepoStatus::Archived,
            },
    {
        match value {
            RepoStatus::Uncloneable(_) => SerializableRepoStatus::Uncloneable,
            RepoStatus::Unnamed => SerializableRepoStatus::Unnamed,
            RepoStatus::Success(_, age) => SerializableRepoStatus::Age(*age / crate::SECS_PER_DAY),
            RepoStatus::Unassociated(_) => SerializableRepoStatus::Unassociated,
            RepoStatus::Nonexistent(_) => SerializableRepoStatus::Nonexistent,
            RepoStatus::Archived(_) => SerializableRepoStatus::Archived,
        }
    }
}

} // verus!
