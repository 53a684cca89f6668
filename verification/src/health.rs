//! A clamped scalar health resource, in milli hit points.

use vstd::prelude::*;

verus! {

/// Largest health value a level may configure (milli hit points).
pub const HEALTH_LIM: i64 = 1_000_000_000;

/// Hit points with a fixed maximum. `current` never leaves `[0, max]`.
#[derive(Clone, Copy, Debug)]
pub struct Health {
    max: i64,
    current: i64,
}

impl Health {
    /// Configured maximum, in milli hit points.
    pub closed spec fn spec_max(self) -> int {
        self.max as int
    }

    /// Remaining health, in milli hit points.
    pub closed spec fn spec_current(self) -> int {
        self.current as int
    }

    /// The clamp invariant: health stays between zero and the maximum.
    pub open spec fn wf(self) -> bool {
        0 <= self.spec_current() <= self.spec_max() <= HEALTH_LIM
    }

    /// `self` after one application of `damage(amount)`: the remaining
    /// health drops by `amount` and is clamped at zero.
    pub open spec fn spec_damaged(self, amount: int) -> Health {
        if self.spec_current() - amount < 0 {
            self.spec_with_current(0)
        } else {
            self.spec_with_current(self.spec_current() - amount)
        }
    }

    /// `self` with the remaining health replaced.
    pub closed spec fn spec_with_current(self, current: int) -> Health {
        Health { max: self.max, current: current as i64 }
    }

    /// A full health pool.
    pub fn new(max: i64) -> (r: Health)
        requires
            0 <= max <= HEALTH_LIM,
        ensures
            r.spec_max() == max,
            r.spec_current() == max,
            r.wf(),
    {
        Health { max, current: max }
    }

    pub fn max(&self) -> (r: i64)
        ensures
            r == self.spec_max(),
    {
        self.max
    }

    pub fn current(&self) -> (r: i64)
        ensures
            r == self.spec_current(),
    {
        self.current
    }

    /// Remaining fraction for the host's health bars, in thousandths.
    /// A pool with a zero maximum reads as empty.
    pub fn fraction_milli(&self) -> (r: i64)
        requires
            self.wf(),
        ensures
            self.spec_max() > 0 ==> r == self.spec_current() * 1000 / self.spec_max(),
            self.spec_max() == 0 ==> r == 0,
            0 <= r <= 1000,
    {
        if self.max == 0 {
            0
        } else {
            proof {
                assert(self.spec_current() * 1000 <= self.spec_max() * 1000) by (nonlinear_arith)
                    requires
                        self.spec_current() <= self.spec_max(),
                ;
                assert(0 <= self.spec_current() * 1000 / self.spec_max() <= 1000)
                    by (nonlinear_arith)
                    requires
                        0 <= self.spec_current() * 1000 <= self.spec_max() * 1000,
                        self.spec_max() > 0,
                ;
            }
            self.current * 1000 / self.max
        }
    }

    /// Apply damage, clamped at zero: health never goes negative and the
    /// maximum never changes.
    pub fn damage(&mut self, amount: i64)
        requires
            old(self).wf(),
            0 <= amount <= HEALTH_LIM,
        ensures
            *final(self) == old(self).spec_damaged(amount as int),
            final(self).spec_max() == old(self).spec_max(),
            final(self).wf(),
    {
        if self.current - amount < 0 {
            self.current = 0;
        } else {
            self.current = self.current - amount;
        }
    }

    /// Force the pool empty (end-of-game cleanup of enemies).
    pub fn set_dead(&mut self)
        ensures
            *final(self) == old(self).spec_with_current(0),
            final(self).spec_current() == 0,
            final(self).spec_max() == old(self).spec_max(),
            old(self).wf() ==> final(self).wf(),
    {
        self.current = 0;
    }
}

/// What replacing the remaining health does, stated once for callers
/// outside this module.
pub proof fn lemma_with_current(h: Health, c: int)
    ensures
        h.spec_with_current(c).spec_current() == c as i64,
        h.spec_with_current(c).spec_max() == h.spec_max(),
{
}

/// `h` after a whole sequence of `damage` calls, first element first.
pub open spec fn spec_apply_damages(h: Health, ds: Seq<int>) -> Health
    decreases ds.len(),
{
    if ds.len() == 0 {
        h
    } else {
        spec_apply_damages(h.spec_damaged(ds[0]), ds.drop_first())
    }
}

/// Law: under any sequence of nonnegative damage amounts, health stays
/// clamped — it never goes below zero nor above the unchanged maximum.
pub proof fn lemma_damage_sequence_clamped(h: Health, ds: Seq<int>)
    requires
        h.wf(),
        forall|i: int| 0 <= i < ds.len() ==> ds[i] >= 0,
    ensures
        spec_apply_damages(h, ds).wf(),
        spec_apply_damages(h, ds).spec_max() == h.spec_max(),
        0 <= spec_apply_damages(h, ds).spec_current() <= h.spec_max(),
    decreases ds.len(),
{
    if ds.len() > 0 {
        let h1 = h.spec_damaged(ds[0]);
        assert(h1.wf() && h1.spec_max() == h.spec_max());
        lemma_damage_sequence_clamped(h1, ds.drop_first());
    }
}

} // verus!
