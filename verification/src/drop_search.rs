//! The search for how many of the oldest messages must be dropped before the prompt
//! fits the context budget: the smallest `k` in `0..=max_drop` whose prompt counts at
//! most `budget` tokens (`max_drop` when none does). Counting a prompt is outside
//! work, so the search is a machine: it names the next `k` to count, and is told the
//! count.

use vstd::prelude::*;

verus! {

/// What the search wants next.
#[derive(Debug, Clone, Copy, PartialEq, Eq, Structural)]
pub enum DropProbe {
    /// Count the prompt with this many messages dropped, and report the count.
    Count(usize),
    /// The search is over: drop this many.
    Found(usize),
}

/// The state of a search. Before the first count only `k = 0` has been asked for;
/// after it, a bisection of `lo..=hi`, with `best` the smallest fitting `k` seen
/// (`max_drop` while none was).
#[derive(Debug, Clone, Copy, PartialEq, Eq, Structural)]
pub struct DropSearch {
    pub budget: usize,
    pub max_drop: usize,
    pub started: bool,
    pub fits_whole: bool,
    pub lo: usize,
    pub hi: usize,
    pub best: usize,
}

/// The answer for token counts `f`: the smallest `k <= max_drop` with
/// `f(k) <= budget`, else `max_drop`.
pub open spec fn smallest_fitting(f: spec_fn(nat) -> nat, budget: nat, max_drop: nat) -> nat
    decreases max_drop,
{
    if max_drop == 0 {
        0
    } else if f((max_drop - 1) as nat) <= budget {
        smallest_fitting(f, budget, (max_drop - 1) as nat)
    } else {
        max_drop
    }
}

/// Dropping more never makes the prompt longer.
pub open spec fn non_increasing(f: spec_fn(nat) -> nat, max_drop: nat) -> bool {
    forall|a: nat, b: nat| a <= b <= max_drop ==> #[trigger] f(b) <= #[trigger] f(a)
}

impl DropSearch {
    /// The shape every state keeps.
    pub open spec fn well_formed(self) -> bool {
        &&& self.max_drop < usize::MAX
        &&& self.started && !self.fits_whole ==> {
            &&& 1 <= self.lo <= self.hi + 1
            &&& self.hi <= self.max_drop
            &&& self.best <= self.max_drop
            &&& (self.best == self.hi + 1 || (self.best == self.max_drop && self.hi == self.max_drop))
        }
    }

    /// What the state has learnt agrees with the counts `f`.
    pub open spec fn agrees_with(self, f: spec_fn(nat) -> nat) -> bool {
        &&& self.started ==> (self.fits_whole <==> f(0) <= self.budget)
        &&& self.started && !self.fits_whole ==> {
            &&& forall|k: nat| k < self.lo ==> #[trigger] f(k) > self.budget
            &&& self.best == self.hi + 1 ==> f(self.best as nat) <= self.budget
        }
    }

    /// The next step of the search.
    pub open spec fn probe_spec(self) -> DropProbe {
        if !self.started {
            DropProbe::Count(0)
        } else if self.fits_whole {
            DropProbe::Found(0)
        } else if self.lo <= self.hi {
            DropProbe::Count((self.lo + (self.hi - self.lo) / 2) as usize)
        } else {
            DropProbe::Found(self.best)
        }
    }

    /// The state after the count for the asked `k` came back.
    pub open spec fn observe_spec(self, count: usize) -> DropSearch {
        if !self.started {
            DropSearch {
                started: true,
                fits_whole: count <= self.budget,
                lo: 1,
                hi: self.max_drop,
                best: self.max_drop,
                ..self
            }
        } else if self.fits_whole || self.lo > self.hi {
            self
        } else {
            let mid = (self.lo + (self.hi - self.lo) / 2) as usize;
            if count <= self.budget {
                DropSearch { best: mid, hi: (mid - 1) as usize, ..self }
            } else {
                DropSearch { lo: (mid + 1) as usize, ..self }
            }
        }
    }

    /// A search over `0..=max_drop`. `max_drop` is below `usize::MAX` (it is one less
    /// than the number of droppable messages).
    pub fn new(budget: usize, max_drop: usize) -> (s: Self)
        requires
            max_drop < usize::MAX,
        ensures
            s.well_formed(),
            !s.started,
            s.budget == budget,
            s.max_drop == max_drop,
    {
        DropSearch { budget, max_drop, started: false, fits_whole: false, lo: 1, hi: max_drop, best: max_drop }
    }

    /// What to do next: count the prompt for some `k`, or stop with the answer.
    pub fn probe(&self) -> (p: DropProbe)
        requires
            self.well_formed(),
        ensures
            p == self.probe_spec(),
    {
        if !self.started {
            DropProbe::Count(0)
        } else if self.fits_whole {
            DropProbe::Found(0)
        } else if self.lo <= self.hi {
            DropProbe::Count(self.lo + (self.hi - self.lo) / 2)
        } else {
            DropProbe::Found(self.best)
        }
    }

    /// Takes the token count of the prompt for the `k` that `probe` asked for.
    pub fn observe(&mut self, count: usize)
        requires
            old(self).well_formed(),
        ensures
            *final(self) == old(self).observe_spec(count),
            final(self).well_formed(),
    {
        if !self.started {
            self.started = true;
            self.fits_whole = count <= self.budget;
            self.lo = 1;
            self.hi = self.max_drop;
            self.best = self.max_drop;
        } else if self.fits_whole || self.lo > self.hi {
        } else {
            let mid = self.lo + (self.hi - self.lo) / 2;
            if count <= self.budget {
                self.best = mid;
                self.hi = mid - 1;
            } else {
                self.lo = mid + 1;
            }
        }
    }

    /// How many more counts the search can ask for at most.
    pub open spec fn remaining(self) -> nat {
        if !self.started {
            (self.max_drop + 2) as nat
        } else if self.fits_whole || self.lo > self.hi {
            0
        } else {
            (self.hi + 1 - self.lo) as nat
        }
    }
}

/// Told the true counts, the search keeps agreeing with them, and each count brings
/// it closer to the end.
pub proof fn law_observe_keeps_agreement(s: DropSearch, f: spec_fn(nat) -> nat)
    requires
        s.well_formed(),
        s.agrees_with(f),
        non_increasing(f, s.max_drop as nat),
        s.probe_spec() matches DropProbe::Count(k) && f(k as nat) <= usize::MAX,
    ensures
        ({
            let k = s.probe_spec()->Count_0;
            let t = s.observe_spec(f(k as nat) as usize);
            t.well_formed() && t.agrees_with(f) && t.remaining() < s.remaining()
        }),
{
    let k = s.probe_spec()->Count_0;
    let t = s.observe_spec(f(k as nat) as usize);
    if s.started {
        let mid = k;
        if f(mid as nat) <= s.budget {
            assert(t.best == t.hi + 1);
        } else {
            assert forall|j: nat| j < t.lo implies #[trigger] f(j) > t.budget by {
                if j > mid {
                } else {
                    assert(f(mid as nat) <= f(j));
                }
            }
        }
    }
}

/// When the search stops, the answer is the smallest fitting `k`, or `max_drop`
/// when none fits.
pub proof fn law_found_is_smallest_fitting(s: DropSearch, f: spec_fn(nat) -> nat)
    requires
        s.well_formed(),
        s.agrees_with(f),
        non_increasing(f, s.max_drop as nat),
        s.probe_spec() is Found,
    ensures
        s.probe_spec()->Found_0 == smallest_fitting(f, s.budget as nat, s.max_drop as nat),
{
    let answer = s.probe_spec()->Found_0;
    if s.fits_whole {
        lemma_smallest_fitting_is_zero(f, s.budget as nat, s.max_drop as nat);
    } else if s.best == s.hi + 1 {
        lemma_smallest_fitting_at(f, s.budget as nat, s.max_drop as nat, s.best as nat);
    } else {
        lemma_smallest_fitting_none(f, s.budget as nat, s.max_drop as nat);
    }
}

proof fn lemma_smallest_fitting_is_zero(f: spec_fn(nat) -> nat, budget: nat, m: nat)
    requires
        f(0) <= budget,
        non_increasing(f, m),
    ensures
        smallest_fitting(f, budget, m) == 0,
    decreases m,
{
    if m > 0 {
        assert(f((m - 1) as nat) <= f(0));
        lemma_smallest_fitting_is_zero(f, budget, (m - 1) as nat);
    }
}

proof fn lemma_smallest_fitting_none(f: spec_fn(nat) -> nat, budget: nat, m: nat)
    requires
        forall|k: nat| k < m ==> #[trigger] f(k) > budget,
    ensures
        smallest_fitting(f, budget, m) == m,
{
    if m > 0 {
        assert(f((m - 1) as nat) > budget);
    }
}

proof fn lemma_smallest_fitting_at(f: spec_fn(nat) -> nat, budget: nat, m: nat, b: nat)
    requires
        1 <= b <= m,
        f(b) <= budget,
        forall|k: nat| k < b ==> #[trigger] f(k) > budget,
        non_increasing(f, m),
    ensures
        smallest_fitting(f, budget, m) == b,
    decreases m,
{
    if m > b {
        assert(f((m - 1) as nat) <= f(b));
        lemma_smallest_fitting_at(f, budget, (m - 1) as nat, b);
    } else {
        assert(f((m - 1) as nat) > budget);
    }
}

} // verus!
