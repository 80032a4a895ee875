//! Repository URLs and the candidate URLs consulted for a package.
//!
//! A package names at most one repository URL.  The cache tries the
//! declared URL (with a trailing slash trimmed) and, when the URL has the
//! shape `https://host/owner/repo...`, a shortened form truncated to that
//! shape, so that different spellings of one repository share a cache
//! entry.

use vstd::prelude::*;
use vstd::string::*;

use crate::text::str_eq;

verus! {

/// What the cache needs to know of a package: its name and its declared
/// repository URL, if any.
pub struct PackageInfo {
    pub name: String,
    pub repository: Option<String>,
}

impl PackageInfo {
    pub open spec fn repo_view(&self) -> Option<Seq<char>> {
        match self.repository {
            Some(u) => Some(u@),
            None => None,
        }
    }
}

/// A repository URL.
#[derive(Clone, Debug, PartialEq, Eq, PartialOrd, Ord, Hash)]
pub struct Url {
    s: String,
}

impl View for Url {
    type V = Seq<char>;

    closed spec fn view(&self) -> Seq<char> {
        self.s@
    }
}

/// Least index `>= from` at which `c` occurs in `s`, if any.
pub open spec fn find_from(s: Seq<char>, c: char, from: int) -> Option<int>
    decreases s.len() - from,
{
    if from < 0 || from >= s.len() {
        None
    } else if s[from] == c {
        Some(from)
    } else {
        find_from(s, c, from + 1)
    }
}

pub proof fn lemma_find_from(s: Seq<char>, c: char, from: int)
    requires
        0 <= from,
    ensures
        match find_from(s, c, from) {
            Some(i) => from <= i < s.len() && s[i] == c && forall|j: int|
                from <= j < i ==> s[j] != c,
            None => forall|j: int| from <= j < s.len() ==> s[j] != c,
        },
    decreases s.len() - from,
{
    if from < s.len() && s[from] != c {
        lemma_find_from(s, c, from + 1);
    }
}

/// A trailing slash, if present, is trimmed before a URL is used.
pub open spec fn trim_spec(s: Seq<char>) -> Seq<char> {
    if s.len() > 0 && s.last() == '/' {
        s.drop_last()
    } else {
        s
    }
}

/// End of the `https://host/owner/repo` prefix of `s`: just before the
/// slash that follows the repository segment, or the end of `s`.
pub open spec fn shorten_end(s: Seq<char>) -> Option<int> {
    if !(s.len() >= 8 && s.subrange(0, 8) == "https://"@) {
        None
    } else {
        match find_from(s, '/', 8) {
            None => None,
            Some(i) => match find_from(s, '/', i + 1) {
                None => None,
                Some(j) => Some(
                    match find_from(s, '/', j + 1) {
                        None => s.len() as int,
                        Some(k) => k,
                    },
                ),
            },
        }
    }
}

/// The shortened form of a URL, when it has the shape the cache unifies.
pub open spec fn shorten_spec(s: Seq<char>) -> Option<Seq<char>> {
    match shorten_end(s) {
        None => None,
        Some(e) => Some(s.subrange(0, e)),
    }
}

/// The candidate URLs consulted for a declared repository URL: the
/// declared URL with a trailing slash trimmed, then its shortened form if
/// one exists.
pub open spec fn urls_spec(repo: Option<Seq<char>>) -> Seq<Seq<char>> {
    match repo {
        None => Seq::empty(),
        Some(u) => {
            let t = trim_spec(u);
            match shorten_spec(t) {
                None => seq![t],
                Some(sh) => seq![t, sh],
            }
        },
    }
}

fn find_char(s: &str, c: char, from: usize) -> (r: Option<usize>)
    requires
        from <= s@.len(),
    ensures
        match r {
            Some(i) => find_from(s@, c, from as int) == Some(i as int),
            None => find_from(s@, c, from as int) is None,
        },
{
    let len = s.unicode_len();
    let mut i: usize = from;
    while i < len
        invariant
            from <= i <= len,
            len == s@.len(),
            find_from(s@, c, from as int) == find_from(s@, c, i as int),
        decreases len - i,
    {
        if s.get_char(i) == c {
            return Some(i);
        }
        i += 1;
    }
    None
}

impl Url {
    pub fn from_string(s: String) -> (r: Url)
        ensures
            r@ == s@,
    {
        Url { s }
    }

    pub fn as_str(&self) -> (r: &str)
        ensures
            r@ == self@,
    {
        self.s.as_str()
    }

    /// Returns an owned copy suitable for a long-lived table.
    pub fn leak(&self) -> (r: Url)
        ensures
            r@ == self@,
    {
        Url { s: self.s.clone() }
    }

    pub fn trim_trailing_slash(&self) -> (r: Url)
        ensures
            r@ == trim_spec(self@),
    {
        let len = self.s.as_str().unicode_len();
        if len > 0 && self.s.as_str().get_char(len - 1) == '/' {
            let t = self.s.as_str().substring_char(0, len - 1);
            proof {
                assert(t@ =~= self@.drop_last());
            }
            Url { s: t.to_owned() }
        } else {
            Url { s: self.s.clone() }
        }
    }

    /// The `https://host/owner/repo` prefix of this URL, if it has one.
    pub fn shorten(&self) -> (r: Option<Url>)
        ensures
            match r {
                Some(u) => shorten_spec(self@) == Some(u@),
                None => shorten_spec(self@) is None,
            },
    {
        let s = self.s.as_str();
        let len = s.unicode_len();
        if len < 8 {
            return None;
        }
        let head = s.substring_char(0, 8);
        if !str_eq(head, "https://") {
            return None;
        }
        proof {
            assert(self@.subrange(0, 8) == "https://"@);
        }
        let i = match find_char(s, '/', 8) {
            Some(i) => i,
            None => {
                return None;
            },
        };
        proof {
            lemma_find_from(self@, '/', 8);
        }
        let j = match find_char(s, '/', i + 1) {
            Some(j) => j,
            None => {
                return None;
            },
        };
        proof {
            lemma_find_from(self@, '/', i + 1 as int);
        }
        let e = match find_char(s, '/', j + 1) {
            Some(k) => k,
            None => len,
        };
        proof {
            lemma_find_from(self@, '/', j + 1 as int);
        }
        Some(Url { s: s.substring_char(0, e).to_owned() })
    }
}

impl From<&str> for Url {
    fn from(value: &str) -> (r: Url)
        ensures
            r@ == value@,
    {
        Url { s: value.to_owned() }
    }
}

impl vstd::std_specs::convert::FromSpecImpl<&str> for Url {
    open spec fn obeys_from_spec() -> bool {
        false
    }

    closed spec fn from_spec(value: &str) -> Url {
        vstd::pervasive::arbitrary()
    }
}

impl Default for Url {
    fn default() -> (r: Url)
        ensures
            r@ == Seq::<char>::empty(),
    {
        Url { s: String::new() }
    }
}

/// The candidate URLs associated with `pkg`, in the order they are tried.
pub fn urls(pkg: &PackageInfo) -> (r: Vec<Url>)
    ensures
        r@.len() == urls_spec(pkg.repo_view()).len(),
        forall|i: int| 0 <= i < r@.len() ==> r@[i]@ == urls_spec(pkg.repo_view())[i],
{
    let mut r: Vec<Url> = Vec::new();
    match &pkg.repository {
        None => r,
        Some(u) => {
            let url = Url::from_string(u.clone()).trim_trailing_slash();
            let shortened = url.shorten();
            r.push(url);
            if let Some(sh) = shortened {
                r.push(sh);
            }
            r
        },
    }
}

} // verus!
