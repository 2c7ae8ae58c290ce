//! The defended player: a hit-point pool drained by enemies that cross
//! the playfield, and a gold purse that pays for traps, grows with kill
//! rewards, and accrues periodic interest.

use vstd::prelude::*;

use crate::fixed::MAX_TICK_MS;
use crate::state::GameState;
use crate::state::StateView;

use crate::fixed::spec_add_capped;
use crate::fixed::MAX_STAT;
use crate::fixed::SCALE;
use crate::hit_points::HitPoints;
use crate::timer::Timer;

verus! {

/// The player's purse, milli-units of gold, with its interest schedule.
#[derive(Clone, Copy, PartialEq, Eq, Structural, Debug)]
pub struct Gold {
    /// Current holdings, milli-units, capped at [`MAX_STAT`].
    pub value: u64,
    pub interest_cooldown: Timer,
    /// Interest rate per firing, milli-units per unit held.
    pub interest_size: u64,
    /// Upper bound on the gold gained by one interest firing, milli-units.
    pub max_interest_gainable: u64,
}

/// The player: hit points and gold.
#[derive(Clone, Copy, PartialEq, Eq, Structural, Debug)]
pub struct Player {
    pub hp: HitPoints,
    pub gold: Gold,
}

impl Gold {
    /// Validity: bounded holdings, a rate of at most one unit per unit,
    /// and a bounded repeating cooldown.
    pub open spec fn wf(self) -> bool {
        &&& self.value <= MAX_STAT
        &&& self.interest_cooldown.wf()
        &&& self.interest_cooldown.repeating
        &&& self.interest_size <= SCALE
        &&& self.max_interest_gainable <= MAX_STAT
    }

    /// The gold one interest firing yields now: the holdings times the
    /// rate, but never more than the configured maximum gain.
    pub open spec fn spec_interest_to_gain(self) -> int {
        let raw = self.value * self.interest_size / (SCALE as int);
        if raw > self.max_interest_gainable {
            self.max_interest_gainable as int
        } else {
            raw
        }
    }

    /// The purse after crediting `amount`, capped at [`MAX_STAT`].
    pub open spec fn spec_credited(self, amount: int) -> Gold {
        Gold { value: spec_add_capped(self.value as int, amount, MAX_STAT as int) as u64, ..self }
    }

    /// The gold the next interest firing would yield.
    pub fn interest_to_gain(&self) -> (r: u64)
        requires
            self.wf(),
        ensures
            r == self.spec_interest_to_gain(),
            r <= MAX_STAT,
    {
        proof {
            assert(self.value * self.interest_size <= 1_000_000_000_000_000u64)
                by (nonlinear_arith)
                requires
                    self.value <= MAX_STAT,
                    self.interest_size <= SCALE,
                    MAX_STAT == 1_000_000_000_000u64,
                    SCALE == 1000u64,
            ;
        }
        let raw = self.value * self.interest_size / SCALE;
        if raw > self.max_interest_gainable {
            self.max_interest_gainable
        } else {
            raw
        }
    }

    /// Credit `amount` milli-units, capping the holdings at [`MAX_STAT`].
    pub fn credit(&mut self, amount: u64)
        requires
            old(self).wf(),
        ensures
            *final(self) == old(self).spec_credited(amount as int),
            final(self).wf(),
    {
        self.value = crate::fixed::add_capped(self.value, amount, MAX_STAT);
    }
}

impl Player {
    /// Validity of pool and purse.
    pub open spec fn wf(self) -> bool {
        &&& self.hp.wf()
        &&& self.gold.wf()
    }
}


/// The whole state after the death check: once the player's pool is
/// exhausted the run is over and the simulation pauses itself.  This
/// check is not gated on the pause flag, matching its place at the end
/// of the tick.
pub open spec fn spec_dead_player_phase(s: StateView) -> StateView {
    if s.player.hp.spec_is_dead() {
        StateView { is_game_over: true, is_paused: true, ..s }
    } else {
        s
    }
}

/// The whole state after the passive-economy step: the interest cooldown
/// ticks and, on finishing, credits the holdings times the rate, capped
/// at the configured maximum gain; a no-op while paused.
pub open spec fn spec_interest_phase(s: StateView, delta: u64) -> StateView {
    if s.is_paused {
        s
    } else {
        let t = s.player.gold.interest_cooldown.spec_ticked(delta);
        let g1 = Gold { interest_cooldown: t, ..s.player.gold };
        let g2 = if t.just_finished {
            g1.spec_credited(g1.spec_interest_to_gain())
        } else {
            g1
        };
        StateView { player: Player { gold: g2, ..s.player }, ..s }
    }
}

impl GameState {
    /// End the run when the player's hit points are gone: set the
    /// game-over flag and pause the simulation.
    pub fn check_dead_player(&mut self)
        ensures
            final(self)@ =~= spec_dead_player_phase(old(self)@),
            old(self).wf() ==> final(self).wf(),
    {
        if self.player.hp.is_dead() {
            self.is_game_over = true;
            self.is_paused = true;
        }
    }

    /// The passive-economy step: accrue interest on the player's gold
    /// whenever the interest cooldown finishes; a no-op while paused.
    pub fn apply_gold_interest(&mut self, delta_ms: u64)
        requires
            old(self).wf(),
            delta_ms <= MAX_TICK_MS,
        ensures
            final(self)@ =~= spec_interest_phase(old(self)@, delta_ms),
            final(self).wf(),
    {
        if self.is_paused {
            return ;
        }
        self.player.gold.interest_cooldown.tick(delta_ms);
        if self.player.gold.interest_cooldown.just_finished {
            let gain = self.player.gold.interest_to_gain();
            self.player.gold.credit(gain);
        }
    }
}

} // verus!
