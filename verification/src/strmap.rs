//! A small string-keyed association map.
//!
//! Every on-disk store of the cache (entries, timestamps, versions) is a
//! mapping from a name or digest to a record, so the cache models each of
//! them with this type: a pair of parallel vectors with distinct keys,
//! viewed as a `Map<Seq<char>, V>`.

use vstd::prelude::*;
use vstd::string::*;

use crate::text::str_eq;

verus! {

pub struct StrMap<V> {
    keys: Vec<String>,
    vals: Vec<V>,
}

impl<V> StrMap<V> {
    /// Keys are pairwise distinct and each key has exactly one value.
    pub closed spec fn wf(&self) -> bool {
        &&& self.keys@.len() == self.vals@.len()
        &&& forall|i: int, j: int|
            0 <= i < j < self.keys@.len() ==> self.keys@[i]@ != self.keys@[j]@
    }

    proof fn lemma_view_index(&self, i: int)
        requires
            self.wf(),
            0 <= i < self.keys@.len(),
        ensures
            self@.contains_key(self.keys@[i]@),
            self@[self.keys@[i]@] == self.vals@[i],
    {
        let k = self.keys@[i]@;
        assert(self@.contains_key(k));
        let j = choose|j: int| 0 <= j < self.keys@.len() && self.keys@[j]@ == k;
        assert(j == i);
    }

    pub fn new() -> (r: Self)
        ensures
            r.wf(),
            r@ == Map::<Seq<char>, V>::empty(),
    {
        let r = StrMap { keys: Vec::new(), vals: Vec::new() };
        proof {
            assert(r@ =~= Map::<Seq<char>, V>::empty());
        }
        r
    }

    /// Index of `k` among the keys, if present.
    fn position(&self, k: &str) -> (r: Option<usize>)
        requires
            self.wf(),
        ensures
            match r {
                Some(i) => 0 <= i < self.keys@.len() && self.keys@[i as int]@ == k@,
                None => forall|i: int| 0 <= i < self.keys@.len() ==> self.keys@[i]@ != k@,
            },
    {
        let mut i: usize = 0;
        while i < self.keys.len()
            invariant
                i <= self.keys@.len(),
                forall|j: int| 0 <= j < i ==> self.keys@[j]@ != k@,
            decreases self.keys@.len() - i,
        {
            if str_eq(self.keys[i].as_str(), k) {
                return Some(i);
            }
            i += 1;
        }
        None
    }

    pub fn contains_key(&self, k: &str) -> (r: bool)
        requires
            self.wf(),
        ensures
            r == self@.contains_key(k@),
    {
        self.position(k).is_some()
    }

    pub fn get(&self, k: &str) -> (r: Option<&V>)
        requires
            self.wf(),
        ensures
            match r {
                Some(v) => self@.contains_key(k@) && *v == self@[k@],
                None => !self@.contains_key(k@),
            },
    {
        match self.position(k) {
            Some(i) => {
                proof {
                    self.lemma_view_index(i as int);
                }
                Some(&self.vals[i])
            },
            None => None,
        }
    }

    pub fn insert(&mut self, k: String, v: V)
        requires
            old(self).wf(),
        ensures
            final(self).wf(),
            final(self)@ == old(self)@.insert(k@, v),
    {
        match self.position(k.as_str()) {
            Some(i) => {
                self.vals[i] = v;
                proof {
                    assert forall|kk: Seq<char>|
                        #![all_triggers]
                        self@.contains_key(kk) == old(self)@.insert(k@, v).contains_key(kk)
                        && (self@.contains_key(kk) ==> self@[kk] == old(self)@.insert(
                            k@,
                            v,
                        )[kk]) by {
                        if self@.contains_key(kk) {
                            let j = choose|j: int|
                                0 <= j < self.keys@.len() && self.keys@[j]@ == kk;
                            if kk == k@ {
                                assert(j == i);
                            } else {
                                old(self).lemma_view_index(j);
                            }
                        }
                    }
                    assert(self@ =~= old(self)@.insert(k@, v));
                }
            },
            None => {
                let ghost n = self.keys@.len();
                self.keys.push(k);
                self.vals.push(v);
                proof {
                    assert forall|kk: Seq<char>|
                        #![all_triggers]
                        self@.contains_key(kk) == old(self)@.insert(k@, v).contains_key(kk)
                        && (self@.contains_key(kk) ==> self@[kk] == old(self)@.insert(
                            k@,
                            v,
                        )[kk]) by {
                        if self@.contains_key(kk) {
                            let j = choose|j: int|
                                0 <= j < self.keys@.len() && self.keys@[j]@ == kk;
                            if kk == k@ {
                                assert(j == n);
                            } else {
                                assert(j < n);
                                assert(old(self).keys@[j]@ == kk);
                                old(self).lemma_view_index(j);
                            }
                        } else {
                            if old(self)@.insert(k@, v).contains_key(kk) {
                                if kk == k@ {
                                    assert(self.keys@[n as int]@ == k@);
                                } else {
                                    let j = choose|j: int|
                                        0 <= j < old(self).keys@.len() && old(
                                            self,
                                        ).keys@[j]@ == kk;
                                    assert(self.keys@[j]@ == kk);
                                }
                            }
                        }
                    }
                    assert(self@ =~= old(self)@.insert(k@, v));
                }
            },
        }
    }

    pub fn remove(&mut self, k: &str)
        requires
            old(self).wf(),
        ensures
            final(self).wf(),
            final(self)@ == old(self)@.remove(k@),
    {
        match self.position(k) {
            Some(i) => {
                self.keys.remove(i);
                self.vals.remove(i);
                proof {
                    let ghost n = self.keys@.len();
                    assert forall|p: int, q: int| 0 <= p < q < n implies self.keys@[p]@
                        != self.keys@[q]@ by {
                        let p0: int = if p < i { p } else { p + 1 };
                        let q0: int = if q < i { q } else { q + 1 };
                        assert(old(self).keys@[p0]@ != old(self).keys@[q0]@);
                    }
                    assert forall|kk: Seq<char>|
                        #![all_triggers]
                        self@.contains_key(kk) == old(self)@.remove(k@).contains_key(kk)
                        && (self@.contains_key(kk) ==> self@[kk] == old(self)@.remove(
                            k@,
                        )[kk]) by {
                        if self@.contains_key(kk) {
                            let j = choose|j: int| 0 <= j < n && self.keys@[j]@ == kk;
                            let j0: int = if j < i { j } else { j + 1 };
                            assert(old(self).keys@[j0]@ == kk);
                            assert(j0 != i);
                            assert(kk != k@);
                            old(self).lemma_view_index(j0);
                        } else {
                            if old(self)@.remove(k@).contains_key(kk) {
                                let j0 = choose|j0: int|
                                    0 <= j0 < old(self).keys@.len() && old(
                                        self,
                                    ).keys@[j0]@ == kk;
                                assert(j0 != i);
                                let j: int = if j0 < i { j0 } else { j0 - 1 };
                                assert(self.keys@[j]@ == kk);
                            }
                        }
                    }
                    assert(self@ =~= old(self)@.remove(k@));
                }
            },
            None => {
                proof {
                    assert(self@ =~= old(self)@.remove(k@));
                }
            },
        }
    }

    pub fn is_empty(&self) -> (r: bool)
        requires
            self.wf(),
        ensures
            r == (self@ =~= Map::<Seq<char>, V>::empty()),
    {
        let r = self.keys.len() == 0;
        proof {
            if r {
                assert(self@ =~= Map::<Seq<char>, V>::empty());
            } else {
                self.lemma_view_index(0);
            }
        }
        r
    }

    pub fn clear(&mut self)
        requires
            old(self).wf(),
        ensures
            final(self).wf(),
            final(self)@ == Map::<Seq<char>, V>::empty(),
    {
        self.keys.clear();
        self.vals.clear();
        proof {
            assert(self@ =~= Map::<Seq<char>, V>::empty());
        }
    }
}

impl<V> View for StrMap<V> {
    type V = Map<Seq<char>, V>;

    closed spec fn view(&self) -> Map<Seq<char>, V> {
        Map::new(
            |k: Seq<char>|
                exists|i: int| 0 <= i < self.keys@.len() && self.keys@[i]@ == k,
            |k: Seq<char>|
                {
                    let i = choose|i: int|
                        0 <= i < self.keys@.len() && self.keys@[i]@ == k;
                    self.vals@[i]
                },
        )
    }
}

} // verus!
