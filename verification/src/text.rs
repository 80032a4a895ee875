//! Verified string utilities shared by the cache and the reporting code.

use vstd::prelude::*;
use vstd::string::*;

verus! {

/// Decides equality of two string slices, character by character.
pub fn str_eq(a: &str, b: &str) -> (r: bool)
    ensures
        r == (a@ == b@),
{
    let n = a.unicode_len();
    let m = b.unicode_len();
    if n != m {
        proof {
            assert(a@ != b@) by {
                if a@ == b@ {
                    assert(a@.len() == b@.len());
                }
            }
        }
        return false;
    }
    let mut i: usize = 0;
    while i < n
        invariant
            i <= n,
            n == a@.len(),
            n == b@.len(),
            forall|j: int| 0 <= j < i ==> a@[j] == b@[j],
        decreases n - i,
    {
        if a.get_char(i) != b.get_char(i) {
            return false;
        }
        i += 1;
    }
    proof {
        assert(a@ =~= b@);
    }
    true
}

/// The views of a sequence of strings.
pub open spec fn str_views(s: Seq<String>) -> Seq<Seq<char>> {
    Seq::new(s.len(), |i: int| s[i]@)
}

/// True at `i` iff `pat` occurs in `s` starting at `i`.
pub open spec fn occurs_at(s: Seq<char>, pat: Seq<char>, i: int) -> bool {
    0 <= i && i + pat.len() <= s.len() && s.subrange(i, i + pat.len()) == pat
}

/// Least index `>= from` at which `pat` occurs in `s`, if any.
pub open spec fn find_sub_from(s: Seq<char>, pat: Seq<char>, from: int) -> Option<int>
    decreases s.len() - from + 1,
{
    if from < 0 || from + pat.len() > s.len() {
        None
    } else if s.subrange(from, from + pat.len()) == pat {
        Some(from)
    } else {
        find_sub_from(s, pat, from + 1)
    }
}

pub proof fn lemma_find_sub_from(s: Seq<char>, pat: Seq<char>, from: int)
    requires
        0 <= from,
    ensures
        match find_sub_from(s, pat, from) {
            Some(i) => occurs_at(s, pat, i) && from <= i && forall|j: int|
                from <= j < i ==> !occurs_at(s, pat, j),
            None => forall|j: int| from <= j ==> !occurs_at(s, pat, j),
        },
    decreases s.len() - from + 1,
{
    if from + pat.len() > s.len() {
    } else if s.subrange(from, from + pat.len()) == pat {
    } else {
        lemma_find_sub_from(s, pat, from + 1);
    }
}

/// First occurrence of `pat` in `s`, by character index.
pub fn find_sub(s: &str, pat: &str) -> (r: Option<usize>)
    ensures
        match r {
            Some(i) => find_sub_from(s@, pat@, 0) == Some(i as int),
            None => find_sub_from(s@, pat@, 0) is None,
        },
{
    let n = s.unicode_len();
    let m = pat.unicode_len();
    if m > n {
        return None;
    }
    let mut i: usize = 0;
    while i <= n - m
        invariant
            0 <= i <= n - m + 1,
            m <= n,
            n == s@.len(),
            m == pat@.len(),
            find_sub_from(s@, pat@, 0) == find_sub_from(s@, pat@, i as int),
        decreases n - m + 1 - i,
    {
        let mut k: usize = 0;
        let mut matched = true;
        while matched && k < m
            invariant
                0 <= k <= m,
                i + m <= n,
                n == s@.len(),
                m == pat@.len(),
                matched ==> (forall|j: int| 0 <= j < k ==> s@[i + j] == pat@[j]),
                !matched ==> k < m && s@[i + k as int] != pat@[k as int],
            decreases m - k + (if matched { 1int } else { 0int }),
        {
            if s.get_char(i + k) != pat.get_char(k) {
                matched = false;
            } else {
                k += 1;
            }
        }
        if matched {
            proof {
                assert(s@.subrange(i as int, i + m as int) =~= pat@);
            }
            return Some(i);
        }
        proof {
            assert(s@.subrange(i as int, i + m as int) != pat@) by {
                assert(s@.subrange(i as int, i + m as int)[k as int] == s@[i + k as int]);
            }
        }
        i += 1;
    }
    None
}

/// True iff `pat` occurs somewhere in `s`.
pub fn contains_sub(s: &str, pat: &str) -> (r: bool)
    ensures
        r == (find_sub_from(s@, pat@, 0) is Some),
{
    find_sub(s, pat).is_some()
}

/// The line that separates the sections of a captured transcript.
pub open spec fn cut_line_spec() -> Seq<char> {
    "\n---\n"@
}

/// `s` split at the first cut line; the leading part keeps its final
/// newline, the cut line itself is dropped.
pub open spec fn split_first_spec(s: Seq<char>) -> Option<(Seq<char>, Seq<char>)> {
    match find_sub_from(s, cut_line_spec(), 0) {
        None => None,
        Some(i) => Some(
            (s.subrange(0, i + 1), s.subrange(i + cut_line_spec().len(), s.len() as int)),
        ),
    }
}

/// `s` split at its first two cut lines into top, middle and bottom.
pub open spec fn split_cut_lines_spec(s: Seq<char>) -> Option<(Seq<char>, Seq<char>, Seq<char>)> {
    match split_first_spec(s) {
        None => None,
        Some((top, rest)) => match split_first_spec(rest) {
            None => None,
            Some((mid, bot)) => Some((top, mid, bot)),
        },
    }
}

pub fn split_at_first_cut_line<'a>(s: &'a str) -> (r: Option<(&'a str, &'a str)>)
    ensures
        match r {
            Some((a, b)) => split_first_spec(s@) == Some((a@, b@)),
            None => split_first_spec(s@) is None,
        },
{
    let cut = "\n---\n";
    proof {
        reveal_strlit("\n---\n");
    }
    match find_sub(s, cut) {
        None => None,
        Some(i) => {
            proof {
                lemma_find_sub_from(s@, cut_line_spec(), 0);
            }
            let len = s.unicode_len();
            let a = s.substring_char(0, i + 1);
            let b = s.substring_char(i + cut.unicode_len(), len);
            Some((a, b))
        },
    }
}

pub fn split_at_cut_lines<'a>(s: &'a str) -> (r: Option<(&'a str, &'a str, &'a str)>)
    ensures
        match r {
            Some((a, b, c)) => split_cut_lines_spec(s@) == Some((a@, b@, c@)),
            None => split_cut_lines_spec(s@) is None,
        },
{
    match split_at_first_cut_line(s) {
        None => None,
        Some((top, bottom)) => match split_at_first_cut_line(bottom) {
            None => None,
            Some((middle, bottom2)) => Some((top, middle, bottom2)),
        },
    }
}

/// `s` with every element that equals its predecessor removed, keeping
/// the first of each run of equal neighbours.
pub open spec fn dedup_spec(s: Seq<Seq<char>>) -> Seq<Seq<char>>
    decreases s.len(),
{
    if s.len() <= 1 {
        s
    } else {
        let rest = dedup_spec(s.drop_last());
        if s[s.len() - 1] == s[s.len() - 2] {
            rest
        } else {
            rest.push(s.last())
        }
    }
}

/// Drops consecutive duplicate strings, as error aggregation does before
/// reporting.
pub fn dedup_strings(v: Vec<String>) -> (r: Vec<String>)
    ensures
        str_views(r@) =~= dedup_spec(str_views(v@)),
{
    let mut r: Vec<String> = Vec::new();
    let mut i: usize = 0;
    while i < v.len()
        invariant
            0 <= i <= v@.len(),
            str_views(r@) =~= dedup_spec(str_views(v@).subrange(0, i as int)),
        decreases v@.len() - i,
    {
        proof {
            let p = str_views(v@).subrange(0, i as int);
            let q = str_views(v@).subrange(0, (i + 1) as int);
            assert(q.drop_last() =~= p);
            assert(q.last() == v@[i as int]@);
        }
        if i == 0 || !str_eq(v[i].as_str(), v[i - 1].as_str()) {
            r.push(v[i].clone());
            proof {
                let p = str_views(v@).subrange(0, i as int);
                let q = str_views(v@).subrange(0, (i + 1) as int);
                if i > 0 {
                    assert(q[q.len() - 2] == v@[i - 1]@);
                }
                assert(str_views(r@) =~= dedup_spec(p).push(v@[i as int]@));
                assert(dedup_spec(q) =~= dedup_spec(p).push(q.last()));
            }
        } else {
            proof {
                let p = str_views(v@).subrange(0, i as int);
                let q = str_views(v@).subrange(0, (i + 1) as int);
                assert(q[q.len() - 2] == v@[i - 1]@);
                assert(dedup_spec(q) =~= dedup_spec(p));
            }
        }
        i += 1;
    }
    proof {
        assert(str_views(v@).subrange(0, v@.len() as int) =~= str_views(v@));
    }
    r
}

} // verus!
