//! Progress accounting for a scan over a known number of packages.
//!
//! This type owns the counting and the completion rule; rendering the
//! counter to a terminal is left to the caller.

use vstd::prelude::*;

verus! {

pub struct Progress {
    n: usize,
    i: usize,
    finished: bool,
}

impl Progress {
    pub closed spec fn total(&self) -> nat {
        self.n as nat
    }

    pub closed spec fn done(&self) -> nat {
        self.i as nat
    }

    pub closed spec fn is_finished(&self) -> bool {
        self.finished
    }

    /// Well-formed: never more steps done than were announced.
    pub closed spec fn wf(&self) -> bool {
        self.i <= self.n
    }

    pub fn new(n: usize) -> (r: Self)
        ensures
            r.wf(),
            r.total() == n,
            r.done() == 0,
            !r.is_finished(),
    {
        Progress { n, i: 0, finished: false }
    }

    /// Records one more package as handled.
    pub fn advance(&mut self)
        requires
            old(self).wf(),
            old(self).done() < old(self).total(),
        ensures
            final(self).wf(),
            final(self).total() == old(self).total(),
            final(self).done() == old(self).done() + 1,
            final(self).is_finished() == old(self).is_finished(),
    {
        self.i = self.i + 1;
    }

    /// Marks the scan complete; every announced step must have been done.
    pub fn finish(&mut self)
        requires
            old(self).wf(),
            old(self).done() == old(self).total(),
        ensures
            final(self).wf(),
            final(self).total() == old(self).total(),
            final(self).done() == old(self).done(),
            final(self).is_finished(),
    {
        self.finished = true;
    }

    /// The percentage shown next to the counter; an empty scan shows 100.
    pub fn percent(&self) -> (r: usize)
        requires
            self.wf(),
        ensures
            self.total() == 0 ==> r == 100,
            self.total() > 0 ==> r == self.done() * 100 / self.total(),
    {
        if self.n == 0 {
            100
        } else {
            let p = (self.i as u128) * 100 / (self.n as u128);
            proof {
                assert((self.i as int) * 100 / (self.n as int) <= 100) by (nonlinear_arith)
                    requires
                        0 < self.n,
                        0 <= self.i <= self.n,
                ;
            }
            p as usize
        }
    }

    /// The raw counter, for rendering.
    pub fn counts(&self) -> (r: (usize, usize))
        ensures
            r.0 == self.done(),
            r.1 == self.total(),
    {
        (self.i, self.n)
    }
}

} // verus!
