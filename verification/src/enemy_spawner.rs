//! Periodic enemy creation, with a slower second timer that scales the
//! spawned enemies' stats multiplicatively over the course of a run.
//!
//! The spawner stamps out one enemy per firing of its spawn timer, at the
//! left playfield edge on a caller-chosen row (the caller injects the
//! randomness, keeping the simulation deterministic).  Each firing of the
//! progression timer grows maximum hit points, speed, damage, and kill
//! reward by their own increase rates; the growth compounds geometrically
//! and only affects enemies spawned after the firing.

use vstd::prelude::*;

use crate::enemy::spec_views;
use crate::enemy::lemma_views_push;
use crate::fixed::MAX_TICK_MS;
use crate::state::GameState;
use crate::state::StateView;

use crate::enemy::Enemy;
use crate::enemy::EnemyView;
use crate::fixed::spec_grown;
use crate::fixed::MAX_STAT;
use crate::fixed::SCALE;
use crate::hit_points::HitPoints;
use crate::tile_map::spec_x_min;
use crate::tile_map::spec_y_into_absolute_mid;
use crate::tile_map::x_min;
use crate::tile_map::y_into_absolute_mid;
use crate::tile_map::Grid;
use crate::tile_map::ROWS;
use crate::timer::Timer;

verus! {

/// World-space edge length of a spawned enemy's footprint, micro-units:
/// half a tile, so the footprint never exceeds one tile.
pub const ENEMY_SIZE: u64 = 500_000;

/// The rates by which one progression firing grows the spawner's stats,
/// each in milli-units (one whole unit doubles the stat per firing).
#[derive(Clone, Copy, PartialEq, Eq, Structural, Debug)]
pub struct EnemySpawnerProgression {
    pub timer: Timer,
    pub maximum_hp_increase: u64,
    pub speed_increase: u64,
    pub damage_increase: u64,
    pub gold_for_kill_increase: u64,
}

/// The enemy factory: a spawn timer, the current stat block for new
/// enemies, and the progression that grows it.
#[derive(Clone, Copy, PartialEq, Eq, Structural, Debug)]
pub struct EnemySpawner {
    pub timer: Timer,
    /// Hit-point capacity of new enemies, micro-units.
    pub maximum_hp: u64,
    /// Base speed of new enemies, milli-units per second.
    pub speed: u64,
    /// Border damage of new enemies, micro-units.
    pub damage: u64,
    /// Kill reward of new enemies, milli-units.
    pub gold_for_kill: u64,
    pub progression: EnemySpawnerProgression,
}

impl EnemySpawnerProgression {
    /// Validity: a bounded repeating timer and increase rates of at most
    /// one whole unit per firing.
    pub open spec fn wf(self) -> bool {
        &&& self.timer.wf()
        &&& self.timer.repeating
        &&& self.maximum_hp_increase <= SCALE
        &&& self.speed_increase <= SCALE
        &&& self.damage_increase <= SCALE
        &&& self.gold_for_kill_increase <= SCALE
    }
}

impl EnemySpawner {
    /// Validity: bounded repeating timers, a positive hit-point capacity,
    /// and bounded stats.
    pub open spec fn wf(self) -> bool {
        &&& self.timer.wf()
        &&& self.timer.repeating
        &&& 1 <= self.maximum_hp <= MAX_STAT
        &&& self.speed <= MAX_STAT
        &&& self.damage <= MAX_STAT
        &&& self.gold_for_kill <= MAX_STAT
        &&& self.progression.wf()
    }

    /// The spawner after one progression firing: every stat grown by its
    /// own rate, compounding across firings.
    pub open spec fn spec_progressed(self) -> EnemySpawner {
        EnemySpawner {
            maximum_hp: spec_grown(
                self.maximum_hp as int,
                self.progression.maximum_hp_increase as int,
            ) as u64,
            speed: spec_grown(self.speed as int, self.progression.speed_increase as int) as u64,
            damage: spec_grown(self.damage as int, self.progression.damage_increase as int) as u64,
            gold_for_kill: spec_grown(
                self.gold_for_kill as int,
                self.progression.gold_for_kill_increase as int,
            ) as u64,
            ..self
        }
    }

    /// The enemy the spawner currently stamps out on row `row`: full hit
    /// points at the current stat block, no effects, placed just left of
    /// the playfield so its leading edge touches the left border.
    pub open spec fn spec_spawned(self, g: Grid, row: u32) -> EnemyView {
        EnemyView {
            hp: HitPoints { maximum: self.maximum_hp, current: self.maximum_hp as i64 },
            speed: self.speed,
            damage: self.damage,
            position_x: (spec_x_min(g) - ENEMY_SIZE / 2) as i64,
            position_y: spec_y_into_absolute_mid(g, row) as i64,
            size: ENEMY_SIZE,
            dots: Seq::empty(),
            gold_for_kill: self.gold_for_kill,
            slows: Seq::empty(),
        }
    }

    /// Apply one progression firing to the stat block.
    pub fn progress(&mut self)
        requires
            old(self).wf(),
        ensures
            *final(self) == old(self).spec_progressed(),
            final(self).wf(),
    {
        self.maximum_hp = crate::fixed::grow(self.maximum_hp, self.progression.maximum_hp_increase);
        self.speed = crate::fixed::grow(self.speed, self.progression.speed_increase);
        self.damage = crate::fixed::grow(self.damage, self.progression.damage_increase);
        self.gold_for_kill = crate::fixed::grow(
            self.gold_for_kill,
            self.progression.gold_for_kill_increase,
        );
        proof {
            let v = old(self).maximum_hp as int;
            let rate = old(self).progression.maximum_hp_increase as int;
            assert(v * (SCALE + rate) / (SCALE as int) >= 1) by (nonlinear_arith)
                requires
                    1 <= v,
                    0 <= rate,
                    SCALE == 1000u64,
            ;
        }
    }

    /// Tuning setter: border damage of future enemies, micro-units.
    pub fn set_damage(&mut self, damage: u64)
        requires
            old(self).wf(),
            damage <= MAX_STAT,
        ensures
            *final(self) == (EnemySpawner { damage, ..*old(self) }),
            final(self).wf(),
    {
        self.damage = damage;
    }

    /// Tuning setter: base speed of future enemies, milli-units per second.
    pub fn set_speed(&mut self, speed: u64)
        requires
            old(self).wf(),
            speed <= MAX_STAT,
        ensures
            *final(self) == (EnemySpawner { speed, ..*old(self) }),
            final(self).wf(),
    {
        self.speed = speed;
    }

    /// Tuning setter: hit-point capacity of future enemies, micro-units.
    pub fn set_maximum_hp(&mut self, maximum_hp: u64)
        requires
            old(self).wf(),
            1 <= maximum_hp <= MAX_STAT,
        ensures
            *final(self) == (EnemySpawner { maximum_hp, ..*old(self) }),
            final(self).wf(),
    {
        self.maximum_hp = maximum_hp;
    }

    /// Tuning setter: kill reward of future enemies, milli-units.
    pub fn set_gold_for_kill(&mut self, gold_for_kill: u64)
        requires
            old(self).wf(),
            gold_for_kill <= MAX_STAT,
        ensures
            *final(self) == (EnemySpawner { gold_for_kill, ..*old(self) }),
            final(self).wf(),
    {
        self.gold_for_kill = gold_for_kill;
    }

    /// Tuning setter: the spawn period, milliseconds.  Accumulated time
    /// beyond the new period is clamped to it.
    pub fn set_spawn_period_ms(&mut self, period_ms: u64)
        requires
            old(self).wf(),
            1 <= period_ms <= crate::fixed::MAX_TIMER_MS,
        ensures
            final(self).timer.duration_ms == period_ms,
            final(self).timer.repeating == old(self).timer.repeating,
            final(self).timer.elapsed_ms == if old(self).timer.elapsed_ms <= period_ms {
                old(self).timer.elapsed_ms
            } else {
                period_ms
            },
            *final(self) == (EnemySpawner { timer: final(self).timer, ..*old(self) }),
            final(self).wf(),
    {
        self.timer.set_duration(period_ms);
    }

    /// Tuning setter: the four progression increase rates, milli-units
    /// per firing, each at most one whole unit.
    pub fn set_progression_increases(&mut self, hp: u64, speed: u64, damage: u64, gold: u64)
        requires
            old(self).wf(),
            hp <= SCALE,
            speed <= SCALE,
            damage <= SCALE,
            gold <= SCALE,
        ensures
            *final(self) == (EnemySpawner {
                progression: EnemySpawnerProgression {
                    maximum_hp_increase: hp,
                    speed_increase: speed,
                    damage_increase: damage,
                    gold_for_kill_increase: gold,
                    ..old(self).progression
                },
                ..*old(self)
            }),
            final(self).wf(),
    {
        self.progression.maximum_hp_increase = hp;
        self.progression.speed_increase = speed;
        self.progression.damage_increase = damage;
        self.progression.gold_for_kill_increase = gold;
    }

    /// Stamp out one enemy on the row picked by `row_seed` (reduced
    /// modulo the row count, so any seed is admitted).
    pub fn spawn_single(&self, g: &Grid, row_seed: u32) -> (r: Enemy)
        requires
            self.wf(),
            g.wf(),
        ensures
            r@ =~= self.spec_spawned(*g, (row_seed % ROWS) as u32),
            r.wf(),
    {
        let row = row_seed % ROWS;
        Enemy {
            hp: HitPoints::new_full(self.maximum_hp),
            speed: self.speed,
            damage: self.damage,
            position_x: x_min(g) - (ENEMY_SIZE / 2) as i64,
            position_y: y_into_absolute_mid(g, row),
            size: ENEMY_SIZE,
            damage_over_time_effects: Vec::new(),
            gold_for_kill: self.gold_for_kill,
            slow_effects: Vec::new(),
        }
    }
}

impl Default for EnemySpawner {
    /// The starting spawner: one spawn per second; enemies with ten hit
    /// points, one unit of speed per second, three units of border
    /// damage, one unit of kill reward; a progression firing every thirty
    /// seconds growing those by 30%, 10%, 20% and 10% respectively.
    fn default() -> (r: EnemySpawner)
        ensures
            r == spec_default_spawner(),
            r.wf(),
    {
        EnemySpawner {
            timer: Timer::from_millis(1_000, true),
            maximum_hp: 10_000_000,
            speed: 1_000,
            damage: 3_000_000,
            gold_for_kill: 1_000,
            progression: EnemySpawnerProgression {
                timer: Timer::from_millis(30_000, true),
                maximum_hp_increase: 300,
                speed_increase: 100,
                damage_increase: 200,
                gold_for_kill_increase: 100,
            },
        }
    }
}

/// The stat block and timers a fresh spawner starts with.
pub open spec fn spec_default_spawner() -> EnemySpawner {
    EnemySpawner {
        timer: Timer { duration_ms: 1_000, elapsed_ms: 0, repeating: true, just_finished: false },
        maximum_hp: 10_000_000,
        speed: 1_000,
        damage: 3_000_000,
        gold_for_kill: 1_000,
        progression: EnemySpawnerProgression {
            timer: Timer {
                duration_ms: 30_000,
                elapsed_ms: 0,
                repeating: true,
                just_finished: false,
            },
            maximum_hp_increase: 300,
            speed_increase: 100,
            damage_increase: 200,
            gold_for_kill_increase: 100,
        },
    }
}


/// The whole state after the spawner step: the progression timer ticks
/// and, on finishing, grows the stat block; then the spawn timer ticks
/// and, on finishing, one enemy joins on the seeded row.  A no-op while
/// paused.
pub open spec fn spec_spawn_phase(s: StateView, delta: u64, g: Grid, row_seed: u32) -> StateView {
    if s.is_paused {
        s
    } else {
        let pt = s.enemy_spawner.progression.timer.spec_ticked(delta);
        let sp1 = EnemySpawner {
            progression: EnemySpawnerProgression { timer: pt, ..s.enemy_spawner.progression },
            ..s.enemy_spawner
        };
        let sp2 = if pt.just_finished {
            sp1.spec_progressed()
        } else {
            sp1
        };
        let st = sp2.timer.spec_ticked(delta);
        let sp3 = EnemySpawner { timer: st, ..sp2 };
        let enemies = if st.just_finished {
            s.enemies.push(sp3.spec_spawned(g, (row_seed % ROWS) as u32))
        } else {
            s.enemies
        };
        StateView { enemy_spawner: sp3, enemies, ..s }
    }
}

impl GameState {
    /// The spawner step of the tick: progression scaling first, then
    /// possibly one spawn; a no-op while paused.  The caller supplies the
    /// randomness for the row as `row_seed`.
    pub fn spawn_enemies(&mut self, delta_ms: u64, g: &Grid, row_seed: u32)
        requires
            old(self).wf(),
            delta_ms <= MAX_TICK_MS,
            g.wf(),
        ensures
            final(self)@ =~= spec_spawn_phase(old(self)@, delta_ms, *g, row_seed),
            final(self).wf(),
    {
        if self.is_paused {
            return ;
        }
        self.enemy_spawner.progression.timer.tick(delta_ms);
        if self.enemy_spawner.progression.timer.just_finished {
            self.enemy_spawner.progress();
        }
        self.enemy_spawner.timer.tick(delta_ms);
        if self.enemy_spawner.timer.just_finished {
            let ghost before = spec_views(self.enemies@);
            let e = self.enemy_spawner.spawn_single(g, row_seed);
            self.enemies.push(e);
            proof {
                lemma_views_push(old(self).enemies@, e);
            }
        }
        proof {
            assert(self@ =~= spec_spawn_phase(old(self)@, delta_ms, *g, row_seed));
        }
    }
}

} // verus!
