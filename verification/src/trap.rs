//! Traps and trap tiles: the build state machine and the effects a
//! firing trap applies to the enemies on its target tiles.
//!
//! A tile starts without an entry; selecting it creates a pending
//! configuration (`ToBeBuild`) that costs nothing and does nothing.
//! Confirming the build is gated on gold: on success the gold is debited
//! atomically with the transition to `Built`, on failure everything is
//! left unchanged.  A built trap is permanent for the run and fires
//! whenever its repeating cooldown finishes, hitting every enemy whose
//! footprint overlaps its target tiles.

use vstd::prelude::*;

use crate::enemy::spec_all_wf;
use crate::enemy::spec_occupies;
use crate::enemy::spec_occupies_area;
use crate::enemy::spec_views;
use crate::enemy::DamageOverTimeEffect;
use crate::enemy::Enemy;
use crate::enemy::EnemyView;
use crate::enemy::SlowEffect;
use crate::fixed::MAX_STAT;
use crate::fixed::MAX_TICK_MS;
use crate::state::GameState;
use crate::state::StateView;
use crate::fixed::MAX_TIMER_MS;
use crate::tile_map::Grid;
use crate::tile_map::TileMapPos;
use crate::tile_map::COLUMNS;
use crate::tile_map::ROWS;
use crate::timer::Timer;

verus! {

/// A live trap occupying one tile.  Each variant owns its repeating
/// cooldown; cooldowns are independent per tile.
#[derive(Clone, Copy, PartialEq, Eq, Structural, Debug)]
pub enum Trap {
    /// Deals `damage` micro-units instantly on each firing.
    Simple { cooldown: Timer, damage: u64 },
    /// Attaches a drain of `damage_per_second` milli-units per second
    /// lasting `duration_ms` on each firing.
    DamageOverTime { cooldown: Timer, duration_ms: u64, damage_per_second: u64 },
    /// Attaches a slow of the given strength (milli-units) lasting
    /// `duration_ms` to every enemy within `area` tiles on each firing.
    Slow { cooldown: Timer, duration_ms: u64, slow_effect: u64, area: u32 },
}

/// A pending trap configuration: what the player is editing before
/// committing gold.  `gold_cost` is in milli-units of gold.
#[derive(Clone, Copy, PartialEq, Eq, Structural, Debug)]
pub enum TrapBuilder {
    Simple { cooldown_ms: u64, damage: u64, gold_cost: u64 },
    DamageOverTime { cooldown_ms: u64, duration_ms: u64, damage_per_second: u64, gold_cost: u64 },
    Slow { cooldown_ms: u64, duration_ms: u64, slow_effect: u64, area: u32, gold_cost: u64 },
}

/// The state of one grid tile that the player has touched: either a
/// pending configuration or a live trap.  Once `Built`, a tile never
/// reverts.
#[derive(Clone, Copy, PartialEq, Eq, Structural, Debug)]
pub enum TrapTile {
    Built(Trap),
    ToBeBuild(TrapBuilder),
}

/// One entry of the trap-tile mapping: a tile position and its state.
/// At most one entry exists per position.
#[derive(Clone, Copy, PartialEq, Eq, Structural, Debug)]
pub struct TrapTileEntry {
    pub pos: TileMapPos,
    pub tile: TrapTile,
}

impl Trap {
    /// Validity: a bounded repeating cooldown and bounded magnitudes.
    pub open spec fn wf(self) -> bool {
        match self {
            Trap::Simple { cooldown, damage } => {
                &&& cooldown.wf()
                &&& cooldown.repeating
                &&& damage <= MAX_STAT
            },
            Trap::DamageOverTime { cooldown, duration_ms, damage_per_second } => {
                &&& cooldown.wf()
                &&& cooldown.repeating
                &&& 1 <= duration_ms <= MAX_TIMER_MS
                &&& damage_per_second <= MAX_STAT
            },
            Trap::Slow { cooldown, duration_ms, slow_effect, area } => {
                &&& cooldown.wf()
                &&& cooldown.repeating
                &&& 1 <= duration_ms <= MAX_TIMER_MS
                &&& slow_effect <= MAX_STAT
            },
        }
    }
}

impl TrapBuilder {
    /// Validity: bounded periods, magnitudes and cost.
    pub open spec fn wf(self) -> bool {
        match self {
            TrapBuilder::Simple { cooldown_ms, damage, gold_cost } => {
                &&& 1 <= cooldown_ms <= MAX_TIMER_MS
                &&& damage <= MAX_STAT
                &&& gold_cost <= MAX_STAT
            },
            TrapBuilder::DamageOverTime { cooldown_ms, duration_ms, damage_per_second, gold_cost } => {
                &&& 1 <= cooldown_ms <= MAX_TIMER_MS
                &&& 1 <= duration_ms <= MAX_TIMER_MS
                &&& damage_per_second <= MAX_STAT
                &&& gold_cost <= MAX_STAT
            },
            TrapBuilder::Slow { cooldown_ms, duration_ms, slow_effect, area, gold_cost } => {
                &&& 1 <= cooldown_ms <= MAX_TIMER_MS
                &&& 1 <= duration_ms <= MAX_TIMER_MS
                &&& slow_effect <= MAX_STAT
                &&& gold_cost <= MAX_STAT
            },
        }
    }

    /// The gold this configuration costs to build, milli-units.
    pub open spec fn spec_gold_cost(self) -> u64 {
        match self {
            TrapBuilder::Simple { gold_cost, .. } => gold_cost,
            TrapBuilder::DamageOverTime { gold_cost, .. } => gold_cost,
            TrapBuilder::Slow { gold_cost, .. } => gold_cost,
        }
    }

    /// The trap this configuration builds: the same magnitudes with a
    /// fresh repeating cooldown.
    pub open spec fn spec_built(self) -> Trap {
        match self {
            TrapBuilder::Simple { cooldown_ms, damage, .. } => Trap::Simple {
                cooldown: Timer {
                    duration_ms: cooldown_ms,
                    elapsed_ms: 0,
                    repeating: true,
                    just_finished: false,
                },
                damage,
            },
            TrapBuilder::DamageOverTime { cooldown_ms, duration_ms, damage_per_second, .. } => Trap::DamageOverTime {
                cooldown: Timer {
                    duration_ms: cooldown_ms,
                    elapsed_ms: 0,
                    repeating: true,
                    just_finished: false,
                },
                duration_ms,
                damage_per_second,
            },
            TrapBuilder::Slow { cooldown_ms, duration_ms, slow_effect, area, .. } => Trap::Slow {
                cooldown: Timer {
                    duration_ms: cooldown_ms,
                    elapsed_ms: 0,
                    repeating: true,
                    just_finished: false,
                },
                duration_ms,
                slow_effect,
                area,
            },
        }
    }

    /// The default instant-damage configuration: two units of damage,
    /// one-second cooldown, ten gold.
    pub fn default_simple() -> (r: TrapBuilder)
        ensures
            r == (TrapBuilder::Simple { cooldown_ms: 1_000u64, damage: 2_000_000u64, gold_cost: 10_000u64 }),
    {
        TrapBuilder::Simple { cooldown_ms: 1_000, damage: 2_000_000, gold_cost: 10_000 }
    }

    /// The default drain configuration: two units per second for two
    /// seconds, one-second cooldown, twenty gold.
    pub fn default_damage_over_time() -> (r: TrapBuilder)
        ensures
            r == (TrapBuilder::DamageOverTime {
                cooldown_ms: 1_000u64,
                duration_ms: 2_000u64,
                damage_per_second: 2_000u64,
                gold_cost: 20_000u64,
            }),
    {
        TrapBuilder::DamageOverTime {
            cooldown_ms: 1_000,
            duration_ms: 2_000,
            damage_per_second: 2_000,
            gold_cost: 20_000,
        }
    }

    /// The default slow configuration: strength one fifth for two
    /// seconds over a one-tile radius, one-second cooldown, thirty gold.
    pub fn default_slow() -> (r: TrapBuilder)
        ensures
            r == (TrapBuilder::Slow {
                cooldown_ms: 1_000u64,
                duration_ms: 2_000u64,
                slow_effect: 200u64,
                area: 1u32,
                gold_cost: 30_000u64,
            }),
    {
        TrapBuilder::Slow {
            cooldown_ms: 1_000,
            duration_ms: 2_000,
            slow_effect: 200,
            area: 1,
            gold_cost: 30_000,
        }
    }

    /// A short label for the configuration's kind.
    pub fn name(&self) -> (r: &'static str)
        ensures
            r@ == self.spec_name(),
    {
        match self {
            TrapBuilder::Simple { .. } => "Simple",
            TrapBuilder::DamageOverTime { .. } => "DOT",
            TrapBuilder::Slow { .. } => "Slow",
        }
    }

    /// The label `name` returns for each kind.
    pub open spec fn spec_name(self) -> Seq<char> {
        match self {
            TrapBuilder::Simple { .. } => "Simple"@,
            TrapBuilder::DamageOverTime { .. } => "DOT"@,
            TrapBuilder::Slow { .. } => "Slow"@,
        }
    }

    /// The trap this configuration builds, with a fresh cooldown.
    pub fn into_trap(&self) -> (r: Trap)
        requires
            self.wf(),
        ensures
            r == self.spec_built(),
            r.wf(),
    {
        match self {
            TrapBuilder::Simple { cooldown_ms, damage, gold_cost: _ } => Trap::Simple {
                cooldown: Timer::from_millis(*cooldown_ms, true),
                damage: *damage,
            },
            TrapBuilder::DamageOverTime {
                cooldown_ms,
                duration_ms,
                damage_per_second,
                gold_cost: _,
            } => Trap::DamageOverTime {
                cooldown: Timer::from_millis(*cooldown_ms, true),
                duration_ms: *duration_ms,
                damage_per_second: *damage_per_second,
            },
            TrapBuilder::Slow { cooldown_ms, duration_ms, slow_effect, area, gold_cost: _ } => Trap::Slow {
                cooldown: Timer::from_millis(*cooldown_ms, true),
                duration_ms: *duration_ms,
                slow_effect: *slow_effect,
                area: *area,
            },
        }
    }

    /// The gold this configuration costs to build, milli-units.
    pub fn gold_cost(&self) -> (r: u64)
        ensures
            r == self.spec_gold_cost(),
    {
        match self {
            TrapBuilder::Simple { gold_cost, .. } => *gold_cost,
            TrapBuilder::DamageOverTime { gold_cost, .. } => *gold_cost,
            TrapBuilder::Slow { gold_cost, .. } => *gold_cost,
        }
    }

    /// The gold-gated build transition: exactly when the purse holds at
    /// least the cost, debit it and hand back the built trap; otherwise
    /// leave the purse untouched and hand back nothing ("cannot afford").
    pub fn try_build(&self, gold: &mut u64) -> (r: Option<Trap>)
        requires
            self.wf(),
        ensures
            *old(gold) >= self.spec_gold_cost() ==> {
                &&& r == Some(self.spec_built())
                &&& *final(gold) == *old(gold) - self.spec_gold_cost()
            },
            *old(gold) < self.spec_gold_cost() ==> {
                &&& r is None
                &&& *final(gold) == *old(gold)
            },
    {
        let cost = self.gold_cost();
        if *gold >= cost {
            *gold = *gold - cost;
            Some(self.into_trap())
        } else {
            None
        }
    }
}

impl Default for TrapBuilder {
    /// A fresh tile configuration starts as the default instant-damage
    /// trap.
    fn default() -> (r: TrapBuilder)
        ensures
            r == (TrapBuilder::Simple { cooldown_ms: 1_000u64, damage: 2_000_000u64, gold_cost: 10_000u64 }),
    {
        TrapBuilder::default_simple()
    }
}

impl TrapTile {
    /// Validity of whichever state the tile is in.
    pub open spec fn wf(self) -> bool {
        match self {
            TrapTile::Built(trap) => trap.wf(),
            TrapTile::ToBeBuild(builder) => builder.wf(),
        }
    }
}

impl Default for TrapTile {
    /// The state a tile enters when first selected: a pending default
    /// configuration, nothing charged, nothing active.
    fn default() -> (r: TrapTile)
        ensures
            r == TrapTile::ToBeBuild(
                TrapBuilder::Simple { cooldown_ms: 1_000u64, damage: 2_000_000u64, gold_cost: 10_000u64 },
            ),
    {
        TrapTile::ToBeBuild(TrapBuilder::default())
    }
}

impl TrapTileEntry {
    /// Validity: a playfield position and a valid tile state.
    pub open spec fn wf(self) -> bool {
        &&& self.pos.x < COLUMNS
        &&& self.pos.y < ROWS
        &&& self.tile.wf()
    }
}

impl Trap {
    /// Tuning setter: the firing period, milliseconds.  Accumulated
    /// cooldown time beyond the new period is clamped to it.
    pub fn set_cooldown_ms(&mut self, period_ms: u64)
        requires
            old(self).wf(),
            1 <= period_ms <= MAX_TIMER_MS,
        ensures
            final(self).wf(),
            final(self).spec_cooldown().duration_ms == period_ms,
            final(self).spec_cooldown().elapsed_ms == if old(
                self,
            ).spec_cooldown().elapsed_ms <= period_ms {
                old(self).spec_cooldown().elapsed_ms
            } else {
                period_ms
            },
            final(self).spec_with_cooldown(final(self).spec_cooldown()) == *final(self),
            *final(self) == old(self).spec_with_cooldown(final(self).spec_cooldown()),
    {
        match self {
            Trap::Simple { cooldown, .. } => cooldown.set_duration(period_ms),
            Trap::DamageOverTime { cooldown, .. } => cooldown.set_duration(period_ms),
            Trap::Slow { cooldown, .. } => cooldown.set_duration(period_ms),
        }
    }

    /// Tuning setter: an instant-damage trap's damage, micro-units; any
    /// other kind is left unchanged.
    pub fn set_damage(&mut self, damage: u64)
        requires
            old(self).wf(),
            damage <= MAX_STAT,
        ensures
            final(self).wf(),
            *final(self) == match *old(self) {
                Trap::Simple { cooldown, .. } => Trap::Simple { cooldown, damage },
                other => other,
            },
    {
        match self {
            Trap::Simple { damage: d, .. } => {
                *d = damage;
            },
            _ => {},
        }
    }

    /// Tuning setter: a drain trap's rate, milli-units per second; any
    /// other kind is left unchanged.
    pub fn set_damage_per_second(&mut self, rate: u64)
        requires
            old(self).wf(),
            rate <= MAX_STAT,
        ensures
            final(self).wf(),
            *final(self) == match *old(self) {
                Trap::DamageOverTime { cooldown, duration_ms, .. } => Trap::DamageOverTime {
                    cooldown,
                    duration_ms,
                    damage_per_second: rate,
                },
                other => other,
            },
    {
        match self {
            Trap::DamageOverTime { damage_per_second, .. } => {
                *damage_per_second = rate;
            },
            _ => {},
        }
    }

    /// Tuning setter: how long an attached effect lasts, milliseconds;
    /// an instant-damage trap is left unchanged.
    pub fn set_duration_ms(&mut self, duration: u64)
        requires
            old(self).wf(),
            1 <= duration <= MAX_TIMER_MS,
        ensures
            final(self).wf(),
            *final(self) == match *old(self) {
                Trap::Simple { cooldown, damage } => Trap::Simple { cooldown, damage },
                Trap::DamageOverTime { cooldown, damage_per_second, .. } => Trap::DamageOverTime {
                    cooldown,
                    duration_ms: duration,
                    damage_per_second,
                },
                Trap::Slow { cooldown, slow_effect, area, .. } => Trap::Slow {
                    cooldown,
                    duration_ms: duration,
                    slow_effect,
                    area,
                },
            },
    {
        match self {
            Trap::Simple { .. } => {},
            Trap::DamageOverTime { duration_ms, .. } => {
                *duration_ms = duration;
            },
            Trap::Slow { duration_ms, .. } => {
                *duration_ms = duration;
            },
        }
    }

    /// Tuning setter: a slow trap's strength, milli-units; any other kind
    /// is left unchanged.
    pub fn set_slow_effect(&mut self, strength: u64)
        requires
            old(self).wf(),
            strength <= MAX_STAT,
        ensures
            final(self).wf(),
            *final(self) == match *old(self) {
                Trap::Slow { cooldown, duration_ms, area, .. } => Trap::Slow {
                    cooldown,
                    duration_ms,
                    slow_effect: strength,
                    area,
                },
                other => other,
            },
    {
        match self {
            Trap::Slow { slow_effect, .. } => {
                *slow_effect = strength;
            },
            _ => {},
        }
    }

    /// Tuning setter: a slow trap's radius in tiles; any other kind is
    /// left unchanged.
    pub fn set_area(&mut self, radius: u32)
        requires
            old(self).wf(),
        ensures
            final(self).wf(),
            *final(self) == match *old(self) {
                Trap::Slow { cooldown, duration_ms, slow_effect, .. } => Trap::Slow {
                    cooldown,
                    duration_ms,
                    slow_effect,
                    area: radius,
                },
                other => other,
            },
    {
        match self {
            Trap::Slow { area, .. } => {
                *area = radius;
            },
            _ => {},
        }
    }

    /// The trap's cooldown timer, whichever variant it is.
    pub open spec fn spec_cooldown(self) -> Timer {
        match self {
            Trap::Simple { cooldown, .. } => cooldown,
            Trap::DamageOverTime { cooldown, .. } => cooldown,
            Trap::Slow { cooldown, .. } => cooldown,
        }
    }

    /// The same trap with its cooldown replaced.
    pub open spec fn spec_with_cooldown(self, c: Timer) -> Trap {
        match self {
            Trap::Simple { cooldown, damage } => Trap::Simple { cooldown: c, damage },
            Trap::DamageOverTime { cooldown, duration_ms, damage_per_second } => Trap::DamageOverTime {
                cooldown: c,
                duration_ms,
                damage_per_second,
            },
            Trap::Slow { cooldown, duration_ms, slow_effect, area } => Trap::Slow {
                cooldown: c,
                duration_ms,
                slow_effect,
                area,
            },
        }
    }

    /// The trap's cooldown timer, for drawing its readiness.
    pub fn cooldown(&self) -> (r: Timer)
        ensures
            r == self.spec_cooldown(),
    {
        match self {
            Trap::Simple { cooldown, .. } => *cooldown,
            Trap::DamageOverTime { cooldown, .. } => *cooldown,
            Trap::Slow { cooldown, .. } => *cooldown,
        }
    }
}

/// A fresh drain effect as a firing damage-over-time trap attaches it.
pub open spec fn spec_fresh_dot(duration_ms: u64, damage_per_second: u64) -> DamageOverTimeEffect {
    DamageOverTimeEffect {
        timer: Timer { duration_ms, elapsed_ms: 0, repeating: false, just_finished: false },
        damage_per_second,
    }
}

/// A fresh slow effect as a firing slow trap attaches it.
pub open spec fn spec_fresh_slow(duration_ms: u64, strength: u64) -> SlowEffect {
    SlowEffect {
        timer: Timer { duration_ms, elapsed_ms: 0, repeating: false, just_finished: false },
        strength,
    }
}

/// One enemy after a firing instant-damage trap at `pos`: damaged exactly
/// when its footprint overlaps the trap's tile.
pub open spec fn spec_simple_hit(e: EnemyView, g: Grid, pos: TileMapPos, damage: u64) -> EnemyView {
    if spec_occupies(e, g, pos) {
        EnemyView { hp: e.hp.spec_damaged(damage), ..e }
    } else {
        e
    }
}

/// One enemy after a firing drain trap at `pos`: a fresh effect appended
/// (never merged with existing ones) exactly when it overlaps the tile.
pub open spec fn spec_dot_attached(
    e: EnemyView,
    g: Grid,
    pos: TileMapPos,
    duration_ms: u64,
    damage_per_second: u64,
) -> EnemyView {
    if spec_occupies(e, g, pos) {
        EnemyView { dots: e.dots.push(spec_fresh_dot(duration_ms, damage_per_second)), ..e }
    } else {
        e
    }
}

/// One enemy after a firing slow trap centred on `center`: a fresh effect
/// appended exactly when it overlaps any tile within `area`.
pub open spec fn spec_slow_attached(
    e: EnemyView,
    g: Grid,
    center: TileMapPos,
    area: u32,
    duration_ms: u64,
    strength: u64,
) -> EnemyView {
    if spec_occupies_area(e, g, center, area) {
        EnemyView { slows: e.slows.push(spec_fresh_slow(duration_ms, strength)), ..e }
    } else {
        e
    }
}

/// Deal `damage` to every enemy whose footprint overlaps `pos`.
pub fn apply_simple_trap(enemies: &mut Vec<Enemy>, g: &Grid, pos: TileMapPos, damage: u64)
    requires
        spec_all_wf(spec_views(old(enemies)@)),
        g.wf(),
        damage <= MAX_STAT,
    ensures
        spec_views(final(enemies)@) =~= spec_views(old(enemies)@).map_values(
            |e: EnemyView| spec_simple_hit(e, *g, pos, damage),
        ),
        spec_all_wf(spec_views(final(enemies)@)),
{
    let ghost orig = spec_views(enemies@);
    let mut j: usize = 0;
    while j < enemies.len()
        invariant
            spec_all_wf(orig),
            g.wf(),
            damage <= MAX_STAT,
            enemies@.len() == orig.len(),
            j <= orig.len(),
            forall|k: int|
                0 <= k < j ==> #[trigger] spec_views(enemies@)[k] == spec_simple_hit(
                    orig[k],
                    *g,
                    pos,
                    damage,
                ),
            forall|k: int| j <= k < orig.len() ==> #[trigger] spec_views(enemies@)[k] == orig[k],
        decreases orig.len() - j,
    {
        proof {
            assert(spec_views(enemies@)[j as int] == orig[j as int]);
            assert(enemies@[j as int]@ == spec_views(enemies@)[j as int]);
            assert(orig[j as int].wf());
        }
        let ghost prev = enemies@;
        let hit = enemies[j].on_tile(g, pos);
        if hit {
            let e = &mut enemies[j];
            e.hp.take_damage(damage);
        }
        proof {
            assert forall|k: int|
                0 <= k < orig.len() implies #[trigger] spec_views(enemies@)[k] == (if k < j + 1 {
                spec_simple_hit(orig[k], *g, pos, damage)
            } else {
                orig[k]
            }) by {
                assert(spec_views(prev)[k] == prev[k]@);
                assert(spec_views(enemies@)[k] == enemies@[k]@);
                if hit {
                    assert(enemies@ == prev.update(j as int, enemies@[j as int]));
                } else {
                    assert(enemies@ == prev);
                }
                if k == j {
                    if hit {
                        assert(enemies@[k]@ =~= spec_simple_hit(orig[k], *g, pos, damage));
                    } else {
                        assert(spec_simple_hit(orig[k], *g, pos, damage) =~= orig[k]);
                    }
                }
            }
        }
        j = j + 1;
    }
    proof {
        let done = spec_views(enemies@);
        let mapped = orig.map_values(|e: EnemyView| spec_simple_hit(e, *g, pos, damage));
        assert forall|k: int| 0 <= k < done.len() implies (#[trigger] done[k]) == mapped[k]
            && done[k].wf() by {
            assert(done[k] == spec_simple_hit(orig[k], *g, pos, damage));
            assert(orig[k].wf());
        }
        assert(done =~= mapped);
    }
}

/// Attach a fresh drain effect to every enemy whose footprint overlaps
/// `pos`.
pub fn apply_dot_trap(
    enemies: &mut Vec<Enemy>,
    g: &Grid,
    pos: TileMapPos,
    duration_ms: u64,
    damage_per_second: u64,
)
    requires
        spec_all_wf(spec_views(old(enemies)@)),
        g.wf(),
        1 <= duration_ms <= MAX_TIMER_MS,
        damage_per_second <= MAX_STAT,
    ensures
        spec_views(final(enemies)@) =~= spec_views(old(enemies)@).map_values(
            |e: EnemyView| spec_dot_attached(e, *g, pos, duration_ms, damage_per_second),
        ),
        spec_all_wf(spec_views(final(enemies)@)),
{
    let ghost orig = spec_views(enemies@);
    let mut j: usize = 0;
    while j < enemies.len()
        invariant
            spec_all_wf(orig),
            g.wf(),
            1 <= duration_ms <= MAX_TIMER_MS,
            damage_per_second <= MAX_STAT,
            enemies@.len() == orig.len(),
            j <= orig.len(),
            forall|k: int|
                0 <= k < j ==> #[trigger] spec_views(enemies@)[k] == spec_dot_attached(
                    orig[k],
                    *g,
                    pos,
                    duration_ms,
                    damage_per_second,
                ),
            forall|k: int| j <= k < orig.len() ==> #[trigger] spec_views(enemies@)[k] == orig[k],
        decreases orig.len() - j,
    {
        proof {
            assert(spec_views(enemies@)[j as int] == orig[j as int]);
            assert(enemies@[j as int]@ == spec_views(enemies@)[j as int]);
            assert(orig[j as int].wf());
        }
        let ghost prev = enemies@;
        let hit = enemies[j].on_tile(g, pos);
        if hit {
            let e = &mut enemies[j];
            e.damage_over_time_effects.push(
                DamageOverTimeEffect {
                    timer: Timer::from_millis(duration_ms, false),
                    damage_per_second,
                },
            );
        }
        proof {
            assert forall|k: int|
                0 <= k < orig.len() implies #[trigger] spec_views(enemies@)[k] == (if k < j + 1 {
                spec_dot_attached(orig[k], *g, pos, duration_ms, damage_per_second)
            } else {
                orig[k]
            }) by {
                assert(spec_views(prev)[k] == prev[k]@);
                assert(spec_views(enemies@)[k] == enemies@[k]@);
                if hit {
                    assert(enemies@ == prev.update(j as int, enemies@[j as int]));
                } else {
                    assert(enemies@ == prev);
                }
                if k == j {
                    if hit {
                        assert(enemies@[k]@ =~= spec_dot_attached(
                            orig[k],
                            *g,
                            pos,
                            duration_ms,
                            damage_per_second,
                        ));
                    } else {
                        assert(spec_dot_attached(
                            orig[k],
                            *g,
                            pos,
                            duration_ms,
                            damage_per_second,
                        ) =~= orig[k]);
                    }
                }
            }
        }
        j = j + 1;
    }
    proof {
        let done = spec_views(enemies@);
        let mapped = orig.map_values(
            |e: EnemyView| spec_dot_attached(e, *g, pos, duration_ms, damage_per_second),
        );
        assert forall|k: int| 0 <= k < done.len() implies (#[trigger] done[k]) == mapped[k]
            && done[k].wf() by {
            assert(done[k] == spec_dot_attached(orig[k], *g, pos, duration_ms, damage_per_second));
            assert(orig[k].wf());
            assert(spec_fresh_dot(duration_ms, damage_per_second).wf());
        }
        assert(done =~= mapped);
    }
}

/// Attach a fresh slow effect to every enemy whose footprint overlaps any
/// tile within `area` of `center`.
pub fn apply_slow_trap(
    enemies: &mut Vec<Enemy>,
    g: &Grid,
    center: TileMapPos,
    area: u32,
    duration_ms: u64,
    strength: u64,
)
    requires
        spec_all_wf(spec_views(old(enemies)@)),
        g.wf(),
        1 <= duration_ms <= MAX_TIMER_MS,
        strength <= MAX_STAT,
    ensures
        spec_views(final(enemies)@) =~= spec_views(old(enemies)@).map_values(
            |e: EnemyView| spec_slow_attached(e, *g, center, area, duration_ms, strength),
        ),
        spec_all_wf(spec_views(final(enemies)@)),
{
    let ghost orig = spec_views(enemies@);
    let mut j: usize = 0;
    while j < enemies.len()
        invariant
            spec_all_wf(orig),
            g.wf(),
            1 <= duration_ms <= MAX_TIMER_MS,
            strength <= MAX_STAT,
            enemies@.len() == orig.len(),
            j <= orig.len(),
            forall|k: int|
                0 <= k < j ==> #[trigger] spec_views(enemies@)[k] == spec_slow_attached(
                    orig[k],
                    *g,
                    center,
                    area,
                    duration_ms,
                    strength,
                ),
            forall|k: int| j <= k < orig.len() ==> #[trigger] spec_views(enemies@)[k] == orig[k],
        decreases orig.len() - j,
    {
        proof {
            assert(spec_views(enemies@)[j as int] == orig[j as int]);
            assert(enemies@[j as int]@ == spec_views(enemies@)[j as int]);
            assert(orig[j as int].wf());
        }
        let ghost prev = enemies@;
        let hit = enemies[j].on_area(g, center, area);
        if hit {
            let e = &mut enemies[j];
            e.slow_effects.push(
                SlowEffect { timer: Timer::from_millis(duration_ms, false), strength },
            );
        }
        proof {
            assert forall|k: int|
                0 <= k < orig.len() implies #[trigger] spec_views(enemies@)[k] == (if k < j + 1 {
                spec_slow_attached(orig[k], *g, center, area, duration_ms, strength)
            } else {
                orig[k]
            }) by {
                assert(spec_views(prev)[k] == prev[k]@);
                assert(spec_views(enemies@)[k] == enemies@[k]@);
                if hit {
                    assert(enemies@ == prev.update(j as int, enemies@[j as int]));
                } else {
                    assert(enemies@ == prev);
                }
                if k == j {
                    if hit {
                        assert(enemies@[k]@ =~= spec_slow_attached(
                            orig[k],
                            *g,
                            center,
                            area,
                            duration_ms,
                            strength,
                        ));
                    } else {
                        assert(spec_slow_attached(
                            orig[k],
                            *g,
                            center,
                            area,
                            duration_ms,
                            strength,
                        ) =~= orig[k]);
                    }
                }
            }
        }
        j = j + 1;
    }
    proof {
        let done = spec_views(enemies@);
        let mapped = orig.map_values(
            |e: EnemyView| spec_slow_attached(e, *g, center, area, duration_ms, strength),
        );
        assert forall|k: int| 0 <= k < done.len() implies (#[trigger] done[k]) == mapped[k]
            && done[k].wf() by {
            assert(done[k] == spec_slow_attached(orig[k], *g, center, area, duration_ms, strength));
            assert(orig[k].wf());
            assert(spec_fresh_slow(duration_ms, strength).wf());
        }
        assert(done =~= mapped);
    }
}

} // verus!

verus! {

/// One trap tile's activation for one tick: a pending tile does nothing;
/// a built trap ticks its cooldown and, exactly when it just finished,
/// applies its effect to every enemy on its target tiles (its own tile
/// for instant damage and drains; every tile within its radius for
/// slows).
pub open spec fn spec_tile_activated(
    entry: TrapTileEntry,
    es: Seq<EnemyView>,
    delta: u64,
    g: Grid,
) -> (TrapTileEntry, Seq<EnemyView>) {
    match entry.tile {
        TrapTile::ToBeBuild(_) => (entry, es),
        TrapTile::Built(trap) => match trap {
            Trap::Simple { cooldown, damage } => {
                let c = cooldown.spec_ticked(delta);
                let entry2 = TrapTileEntry {
                    pos: entry.pos,
                    tile: TrapTile::Built(Trap::Simple { cooldown: c, damage }),
                };
                let es2 = if c.just_finished {
                    es.map_values(|e: EnemyView| spec_simple_hit(e, g, entry.pos, damage))
                } else {
                    es
                };
                (entry2, es2)
            },
            Trap::DamageOverTime { cooldown, duration_ms, damage_per_second } => {
                let c = cooldown.spec_ticked(delta);
                let entry2 = TrapTileEntry {
                    pos: entry.pos,
                    tile: TrapTile::Built(
                        Trap::DamageOverTime { cooldown: c, duration_ms, damage_per_second },
                    ),
                };
                let es2 = if c.just_finished {
                    es.map_values(
                        |e: EnemyView| spec_dot_attached(e, g, entry.pos, duration_ms, damage_per_second),
                    )
                } else {
                    es
                };
                (entry2, es2)
            },
            Trap::Slow { cooldown, duration_ms, slow_effect, area } => {
                let c = cooldown.spec_ticked(delta);
                let entry2 = TrapTileEntry {
                    pos: entry.pos,
                    tile: TrapTile::Built(
                        Trap::Slow { cooldown: c, duration_ms, slow_effect, area },
                    ),
                };
                let es2 = if c.just_finished {
                    es.map_values(
                        |e: EnemyView| spec_slow_attached(e, g, entry.pos, area, duration_ms, slow_effect),
                    )
                } else {
                    es
                };
                (entry2, es2)
            },
        },
    }
}

/// The first `n` trap tiles activated in order, each acting on the enemy
/// list the previous ones left behind.
pub open spec fn spec_traps_prefix(
    entries: Seq<TrapTileEntry>,
    es: Seq<EnemyView>,
    delta: u64,
    g: Grid,
    n: int,
) -> (Seq<TrapTileEntry>, Seq<EnemyView>)
    decreases n,
{
    if n <= 0 {
        (entries, es)
    } else {
        let prev = spec_traps_prefix(entries, es, delta, g, n - 1);
        let step = spec_tile_activated(prev.0[n - 1], prev.1, delta, g);
        (prev.0.update(n - 1, step.0), step.1)
    }
}

/// The whole state after the trap step: every tile activated in mapping
/// order; a no-op while paused.
pub open spec fn spec_trap_phase(s: StateView, delta: u64, g: Grid) -> StateView {
    if s.is_paused {
        s
    } else {
        let r = spec_traps_prefix(s.trap_tiles, s.enemies, delta, g, s.trap_tiles.len() as int);
        StateView { trap_tiles: r.0, enemies: r.1, ..s }
    }
}

/// Activating the first `n` tiles never changes a tile's position, never
/// reverts a built trap, and leaves pending configurations untouched.
pub proof fn lemma_traps_prefix_preserves_state(
    entries: Seq<TrapTileEntry>,
    es: Seq<EnemyView>,
    delta: u64,
    g: Grid,
    n: int,
    k: int,
)
    requires
        0 <= n <= entries.len(),
        0 <= k < entries.len(),
    ensures
        ({
            let r = spec_traps_prefix(entries, es, delta, g, n);
            &&& r.0.len() == entries.len()
            &&& r.0[k].pos == entries[k].pos
            &&& (entries[k].tile is Built ==> r.0[k].tile is Built)
            &&& (entries[k].tile is ToBeBuild ==> r.0[k].tile == entries[k].tile)
        }),
    decreases n,
{
    if n > 0 {
        lemma_traps_prefix_preserves_state(entries, es, delta, g, n - 1, k);
        if k == n - 1 {
        } else {
            lemma_traps_prefix_preserves_state(entries, es, delta, g, n - 1, n - 1);
        }
    }
}

impl GameState {
    /// The trap step of the tick: every built trap ticks its own cooldown
    /// and fires when it finishes, damaging or attaching effects to the
    /// enemies on its target tiles; a no-op while paused.
    #[verifier::loop_isolation(false)]
    pub fn activate_traps(&mut self, delta_ms: u64, g: &Grid)
        requires
            old(self).wf(),
            delta_ms <= MAX_TICK_MS,
            g.wf(),
        ensures
            final(self)@ =~= spec_trap_phase(old(self)@, delta_ms, *g),
            final(self).wf(),
    {
        if self.is_paused {
            return ;
        }
        let ghost orig_tiles = self.trap_tiles@;
        let ghost orig_enemies = spec_views(self.enemies@);
        let mut i: usize = 0;
        while i < self.trap_tiles.len()
            invariant
                i <= orig_tiles.len(),
                self.trap_tiles@.len() == orig_tiles.len(),
                self.trap_tiles@ =~= spec_traps_prefix(
                    orig_tiles,
                    orig_enemies,
                    delta_ms,
                    *g,
                    i as int,
                ).0,
                spec_views(self.enemies@) =~= spec_traps_prefix(
                    orig_tiles,
                    orig_enemies,
                    delta_ms,
                    *g,
                    i as int,
                ).1,
                spec_all_wf(spec_views(self.enemies@)),
                forall|k: int| 0 <= k < orig_tiles.len() ==> (#[trigger] self.trap_tiles@[k]).wf(),
                forall|k: int|
                    0 <= k < orig_tiles.len() ==> (#[trigger] self.trap_tiles@[k]).pos
                        == orig_tiles[k].pos,
                self.player == old(self).player,
                self.enemy_spawner == old(self).enemy_spawner,
                self.is_paused == old(self).is_paused,
                self.is_game_over == old(self).is_game_over,
                self.selected_tile == old(self).selected_tile,
                self.run_length_ms == old(self).run_length_ms,
            decreases orig_tiles.len() - i,
        {
            let ghost pre = spec_traps_prefix(orig_tiles, orig_enemies, delta_ms, *g, i as int);
            let entry = self.trap_tiles[i];
            proof {
                assert(entry == pre.0[i as int]);
                assert(entry.wf());
            }
            let mut updated = entry;
            match entry.tile {
                TrapTile::ToBeBuild(_) => {},
                TrapTile::Built(trap) => {
                    match trap {
                        Trap::Simple { cooldown, damage } => {
                            let mut cooldown = cooldown;
                            cooldown.tick(delta_ms);
                            if cooldown.just_finished {
                                apply_simple_trap(&mut self.enemies, g, entry.pos, damage);
                            }
                            updated = TrapTileEntry {
                                pos: entry.pos,
                                tile: TrapTile::Built(Trap::Simple { cooldown, damage }),
                            };
                        },
                        Trap::DamageOverTime { cooldown, duration_ms, damage_per_second } => {
                            let mut cooldown = cooldown;
                            cooldown.tick(delta_ms);
                            if cooldown.just_finished {
                                apply_dot_trap(
                                    &mut self.enemies,
                                    g,
                                    entry.pos,
                                    duration_ms,
                                    damage_per_second,
                                );
                            }
                            updated = TrapTileEntry {
                                pos: entry.pos,
                                tile: TrapTile::Built(
                                    Trap::DamageOverTime {
                                        cooldown,
                                        duration_ms,
                                        damage_per_second,
                                    },
                                ),
                            };
                        },
                        Trap::Slow { cooldown, duration_ms, slow_effect, area } => {
                            let mut cooldown = cooldown;
                            cooldown.tick(delta_ms);
                            if cooldown.just_finished {
                                apply_slow_trap(
                                    &mut self.enemies,
                                    g,
                                    entry.pos,
                                    area,
                                    duration_ms,
                                    slow_effect,
                                );
                            }
                            updated = TrapTileEntry {
                                pos: entry.pos,
                                tile: TrapTile::Built(
                                    Trap::Slow { cooldown, duration_ms, slow_effect, area },
                                ),
                            };
                        },
                    }
                },
            }
            proof {
                let step = spec_tile_activated(pre.0[i as int], pre.1, delta_ms, *g);
                assert(updated == step.0);
                assert(spec_views(self.enemies@) =~= step.1);
            }
            let slot = &mut self.trap_tiles[i];
            *slot = updated;
            proof {
                let next = spec_traps_prefix(orig_tiles, orig_enemies, delta_ms, *g, i + 1);
                assert(self.trap_tiles@ =~= next.0);
                assert(spec_views(self.enemies@) =~= next.1);
            }
            i = i + 1;
        }
        proof {
            assert(self@ =~= spec_trap_phase(old(self)@, delta_ms, *g));
            assert forall|a: int, b: int|
                0 <= a < b < self.trap_tiles@.len() implies self.trap_tiles@[a].pos
                != self.trap_tiles@[b].pos by {
                assert(orig_tiles[a].pos != orig_tiles[b].pos);
            }
            assert(self@.wf());
        }
    }
}

} // verus!
