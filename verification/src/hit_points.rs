//! A depletable hit-point pool, shared by enemies and the player.
//!
//! The pool is measured in micro-units.  Damage only ever lowers it (it
//! saturates at a deep floor well below death so that arithmetic never
//! overflows); the only way up is a full reset.  A pool at or below zero
//! counts as dead; the orchestrator removes a dead entity within the tick
//! in which its death is observed.

use vstd::prelude::*;

use crate::fixed::HP_FLOOR;
use crate::fixed::MAX_HIT;
use crate::fixed::MAX_STAT;

verus! {

/// A depletable resource: `current` out of `maximum` micro-units.
#[derive(Clone, Copy, PartialEq, Eq, Structural, Debug)]
pub struct HitPoints {
    /// Capacity in micro-units; always positive.
    pub maximum: u64,
    /// Remaining micro-units; at most `maximum`, possibly negative
    /// (transiently, until death is observed), never below [`HP_FLOOR`].
    pub current: i64,
}

impl HitPoints {
    /// Validity: a positive bounded capacity, and a remainder between the
    /// saturation floor and the capacity.
    pub open spec fn wf(self) -> bool {
        &&& 1 <= self.maximum <= MAX_STAT
        &&& HP_FLOOR <= self.current <= self.maximum
    }

    /// The pool after taking `damage` micro-units, saturating at the floor.
    pub open spec fn spec_damaged(self, damage: u64) -> HitPoints {
        let lowered = self.current - damage;
        if lowered < HP_FLOOR {
            HitPoints { current: HP_FLOOR, ..self }
        } else {
            HitPoints { current: lowered as i64, ..self }
        }
    }

    /// Dead means nothing left: at or below zero.
    pub open spec fn spec_is_dead(self) -> bool {
        self.current <= 0
    }

    /// A full pool of the given capacity.
    pub fn new_full(maximum: u64) -> (r: HitPoints)
        requires
            1 <= maximum <= MAX_STAT,
        ensures
            r == (HitPoints { maximum, current: maximum as i64 }),
            r.wf(),
    {
        HitPoints { maximum, current: maximum as i64 }
    }

    /// Lower the pool by `damage` micro-units.
    pub fn take_damage(&mut self, damage: u64)
        requires
            old(self).wf(),
            damage <= MAX_HIT,
        ensures
            *final(self) == old(self).spec_damaged(damage),
            final(self).wf(),
    {
        if damage > (self.current - HP_FLOOR) as u64 {
            self.current = HP_FLOOR;
        } else {
            self.current = self.current - damage as i64;
        }
    }

    /// Whether the pool is exhausted.
    pub fn is_dead(&self) -> (r: bool)
        ensures
            r == self.spec_is_dead(),
    {
        self.current <= 0
    }

    /// Restore the pool to its capacity.
    pub fn reset(&mut self)
        requires
            old(self).wf(),
        ensures
            final(self).maximum == old(self).maximum,
            final(self).current == old(self).maximum as i64,
            final(self).wf(),
    {
        self.current = self.maximum as i64;
    }

    /// Remaining share of the capacity in thousandths, clamped to
    /// `[0, 1000]`; a drawing query.
    pub fn remaining_fraction(&self) -> (r: u64)
        requires
            self.wf(),
        ensures
            r == if self.current <= 0 {
                0int
            } else {
                self.current * 1000 / (self.maximum as int)
            },
            r <= 1000,
    {
        if self.current <= 0 {
            0
        } else {
            proof {
                assert((self.current as int) * 1000 / (self.maximum as int) <= 1000)
                    by (nonlinear_arith)
                    requires
                        0 <= self.current <= self.maximum,
                        self.maximum >= 1,
                ;
            }
            (self.current as u64) * 1000 / self.maximum
        }
    }
}

} // verus!
