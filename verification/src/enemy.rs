//! Enemies: hit points, lane position, and the timed effects attached by
//! traps.
//!
//! An enemy advances along its row at a speed diminished by its active
//! slow effects, takes drain damage from its active damage-over-time
//! effects, and is removed either when its hit points run out (killed) or
//! when it reaches the right playfield edge (where it deals its damage to
//! the player).  Effects of the same kind never merge: each one keeps its
//! own timer and expires on its own schedule.

use vstd::prelude::*;

use crate::fixed::MAX_STAT;
use crate::fixed::MAX_TICK_MS;
use crate::fixed::SCALE;
use crate::fixed::WORLD_BOUND;
use crate::hit_points::HitPoints;
use crate::player::Gold;
use crate::player::Player;
use crate::state::GameState;
use crate::state::StateView;
use crate::tile_map::spec_in_area;
use crate::tile_map::spec_x_from_absolute;
use crate::tile_map::spec_x_max;
use crate::tile_map::spec_y_from_absolute;
use crate::tile_map::x_from_absolute;
use crate::tile_map::y_from_absolute;
use crate::tile_map::Grid;
use crate::tile_map::TileMapPos;
use crate::timer::Timer;

verus! {

/// A bounded-duration drain: deals `damage_per_second` (milli-units per
/// second) for as long as its one-shot timer runs, and never past it.
#[derive(Clone, Copy, PartialEq, Eq, Structural, Debug)]
pub struct DamageOverTimeEffect {
    pub timer: Timer,
    /// Drain rate in milli-units per second; equivalently, micro-units
    /// per millisecond.
    pub damage_per_second: u64,
}

/// A bounded-duration speed reduction of the given strength (milli-units).
#[derive(Clone, Copy, PartialEq, Eq, Structural, Debug)]
pub struct SlowEffect {
    pub timer: Timer,
    /// Denominator contribution in milli-units: a strength of one whole
    /// unit halves an otherwise unslowed enemy's speed.
    pub strength: u64,
}

impl DamageOverTimeEffect {
    /// Validity: a bounded one-shot timer and a bounded rate.
    pub open spec fn wf(self) -> bool {
        &&& self.timer.wf()
        &&& !self.timer.repeating
        &&& self.damage_per_second <= MAX_STAT
    }

    /// The effect with its timer advanced by `delta` milliseconds.
    pub open spec fn spec_ticked(self, delta: u64) -> DamageOverTimeEffect {
        DamageOverTimeEffect { timer: self.timer.spec_ticked(delta), ..self }
    }

    /// Damage dealt during a tick of `delta` milliseconds: the rate times
    /// the part of `delta` that still lies within the effect's remaining
    /// lifetime, in micro-units.  An effect never deals damage for time
    /// beyond its configured duration.
    pub open spec fn spec_tick_damage(self, delta: u64) -> int {
        self.damage_per_second * (self.timer.spec_ticked(delta).elapsed_ms - self.timer.elapsed_ms)
    }
}

impl SlowEffect {
    /// Validity: a bounded one-shot timer and a bounded strength.
    pub open spec fn wf(self) -> bool {
        &&& self.timer.wf()
        &&& !self.timer.repeating
        &&& self.strength <= MAX_STAT
    }

    /// The effect with its timer advanced by `delta` milliseconds.
    pub open spec fn spec_ticked(self, delta: u64) -> SlowEffect {
        SlowEffect { timer: self.timer.spec_ticked(delta), ..self }
    }
}

/// An entity advancing across the playfield.  Positions are world-space
/// micro-units; the footprint is a square of edge `size` centred on the
/// position.  The footprint is assumed never to exceed one tile and the
/// enemy to stay on a single row, so it spans at most two tiles (its
/// trailing and leading edges).
pub struct Enemy {
    pub hp: HitPoints,
    /// Base speed in milli-units per second, before slow effects.
    pub speed: u64,
    /// Damage dealt to the player on reaching the far edge, micro-units.
    pub damage: u64,
    /// World-space centre, micro-units.
    pub position_x: i64,
    pub position_y: i64,
    /// Footprint edge length, micro-units.
    pub size: u64,
    pub damage_over_time_effects: Vec<DamageOverTimeEffect>,
    /// Reward credited to the player when this enemy is killed,
    /// milli-units.
    pub gold_for_kill: u64,
    pub slow_effects: Vec<SlowEffect>,
}

/// The mathematical value of an [`Enemy`]: the same fields with the
/// effect lists abstracted to sequences.
#[verifier::ext_equal]
pub ghost struct EnemyView {
    pub hp: HitPoints,
    pub speed: u64,
    pub damage: u64,
    pub position_x: i64,
    pub position_y: i64,
    pub size: u64,
    pub dots: Seq<DamageOverTimeEffect>,
    pub gold_for_kill: u64,
    pub slows: Seq<SlowEffect>,
}

impl View for Enemy {
    type V = EnemyView;

    open spec fn view(&self) -> EnemyView {
        EnemyView {
            hp: self.hp,
            speed: self.speed,
            damage: self.damage,
            position_x: self.position_x,
            position_y: self.position_y,
            size: self.size,
            dots: self.damage_over_time_effects@,
            gold_for_kill: self.gold_for_kill,
            slows: self.slow_effects@,
        }
    }
}

impl EnemyView {
    /// Validity of every field and every attached effect.
    pub open spec fn wf(self) -> bool {
        &&& self.hp.wf()
        &&& self.speed <= MAX_STAT
        &&& self.damage <= MAX_STAT
        &&& self.size <= MAX_STAT
        &&& self.gold_for_kill <= MAX_STAT
        &&& -WORLD_BOUND <= self.position_x <= WORLD_BOUND
        &&& -WORLD_BOUND <= self.position_y <= WORLD_BOUND
        &&& forall|i: int| 0 <= i < self.dots.len() ==> (#[trigger] self.dots[i]).wf()
        &&& forall|i: int| 0 <= i < self.slows.len() ==> (#[trigger] self.slows[i]).wf()
    }
}

/// The views of a sequence of enemies, the shape every collection-level
/// contract is stated over.
pub open spec fn spec_views(es: Seq<Enemy>) -> Seq<EnemyView> {
    es.map_values(|e: Enemy| e@)
}

/// Validity of every enemy view in a sequence.
pub open spec fn spec_all_wf(es: Seq<EnemyView>) -> bool {
    forall|i: int| 0 <= i < es.len() ==> (#[trigger] es[i]).wf()
}

/// Sum of the strengths of a set of slow effects, unbounded mathematics.
pub open spec fn spec_slow_sum(slows: Seq<SlowEffect>) -> int
    decreases slows.len(),
{
    if slows.len() == 0 {
        0
    } else {
        spec_slow_sum(slows.drop_last()) + slows.last().strength
    }
}

/// The strength sum as the executable fold computes it: saturating at
/// `u64::MAX` (unreachable while effect counts stay realistic).
pub open spec fn spec_slow_sum_saturated(slows: Seq<SlowEffect>) -> int {
    if spec_slow_sum(slows) > u64::MAX {
        u64::MAX as int
    } else {
        spec_slow_sum(slows)
    }
}

/// Effective speed under a set of slow effects: the base speed divided by
/// one plus the summed strengths (fixed point, so
/// `speed * SCALE / (SCALE + sum)`).  Slows compound through the
/// denominator: they diminish speed without ever driving it negative.
pub open spec fn spec_effective_speed(speed: u64, slows: Seq<SlowEffect>) -> int {
    speed * SCALE / (SCALE + spec_slow_sum_saturated(slows))
}

/// The slow effects surviving a tick of `delta` milliseconds, each with
/// its timer advanced, the just-expired ones dropped.
pub open spec fn spec_slows_after(slows: Seq<SlowEffect>, delta: u64) -> Seq<SlowEffect>
    decreases slows.len(),
{
    if slows.len() == 0 {
        Seq::empty()
    } else {
        let rest = spec_slows_after(slows.drop_last(), delta);
        let ticked = slows.last().spec_ticked(delta);
        if ticked.timer.just_finished {
            rest
        } else {
            rest.push(ticked)
        }
    }
}

/// The damage-over-time effects surviving a tick, timers advanced and
/// just-expired ones dropped.
pub open spec fn spec_dots_after(dots: Seq<DamageOverTimeEffect>, delta: u64) -> Seq<
    DamageOverTimeEffect,
>
    decreases dots.len(),
{
    if dots.len() == 0 {
        Seq::empty()
    } else {
        let rest = spec_dots_after(dots.drop_last(), delta);
        let ticked = dots.last().spec_ticked(delta);
        if ticked.timer.just_finished {
            rest
        } else {
            rest.push(ticked)
        }
    }
}

/// A hit-point pool after taking each effect's tick damage in turn.
pub open spec fn spec_hp_after_dots(
    hp: HitPoints,
    dots: Seq<DamageOverTimeEffect>,
    delta: u64,
) -> HitPoints
    decreases dots.len(),
{
    if dots.len() == 0 {
        hp
    } else {
        spec_hp_after_dots(hp, dots.drop_last(), delta).spec_damaged(
            dots.last().spec_tick_damage(delta) as u64,
        )
    }
}

/// An enemy after its damage-over-time resolution for one tick.
pub open spec fn spec_enemy_after_dot(e: EnemyView, delta: u64) -> EnemyView {
    EnemyView {
        hp: spec_hp_after_dots(e.hp, e.dots, delta),
        dots: spec_dots_after(e.dots, delta),
        ..e
    }
}

/// An enemy after its movement resolution for one tick: slow effects
/// ticked and pruned, then the position advanced by the effective speed,
/// saturating at [`WORLD_BOUND`] (far beyond any playfield).
pub open spec fn spec_enemy_moved(e: EnemyView, delta: u64) -> EnemyView {
    let slows = spec_slows_after(e.slows, delta);
    let step = spec_effective_speed(e.speed, slows) * delta;
    let advanced = if e.position_x + step > WORLD_BOUND {
        WORLD_BOUND as int
    } else {
        e.position_x + step
    };
    EnemyView { slows, position_x: advanced as i64, ..e }
}

/// Whether the enemy's footprint overlaps tile `t`: its row must be `t.y`
/// and one of its footprint edges must fall in column `t.x`.
pub open spec fn spec_occupies(e: EnemyView, g: Grid, t: TileMapPos) -> bool {
    &&& spec_y_from_absolute(g, e.position_y as int) == Some(t.y)
    &&& {
        ||| spec_x_from_absolute(g, e.position_x - e.size / 2) == Some(t.x)
        ||| spec_x_from_absolute(g, e.position_x + e.size / 2) == Some(t.x)
    }
}

/// Whether the enemy's footprint overlaps any playfield tile within
/// Chebyshev distance `radius` of `center`.
pub open spec fn spec_occupies_area(e: EnemyView, g: Grid, center: TileMapPos, radius: u32) -> bool {
    exists|t: TileMapPos| spec_in_area(center, radius, t) && spec_occupies(e, g, t)
}

impl Enemy {
    /// Validity of every field and every attached effect.
    pub open spec fn wf(self) -> bool {
        self@.wf()
    }

    /// Resolve this enemy's damage-over-time effects for one tick: each
    /// effect's timer advances by `delta_ms`, the enemy takes each
    /// effect's rate times the elapsed time still inside the effect's
    /// lifetime, and just-expired effects are dropped.
    pub fn apply_damage_over_time(&mut self, delta_ms: u64)
        requires
            old(self).wf(),
            delta_ms <= MAX_TICK_MS,
        ensures
            final(self)@ =~= spec_enemy_after_dot(old(self)@, delta_ms),
            final(self).wf(),
    {
        let ghost orig = self@.dots;
        let mut survivors: Vec<DamageOverTimeEffect> = Vec::new();
        let mut i: usize = 0;
        while i < self.damage_over_time_effects.len()
            invariant
                self@.dots == orig,
                i <= orig.len(),
                delta_ms <= MAX_TICK_MS,
                forall|j: int| 0 <= j < orig.len() ==> (#[trigger] orig[j]).wf(),
                old(self)@.hp.wf(),
                self.hp == spec_hp_after_dots(old(self)@.hp, orig.take(i as int), delta_ms),
                self.hp.wf(),
                survivors@ == spec_dots_after(orig.take(i as int), delta_ms),
                forall|j: int| 0 <= j < survivors@.len() ==> (#[trigger] survivors@[j]).wf(),
                self.speed == old(self)@.speed,
                self.damage == old(self)@.damage,
                self.position_x == old(self)@.position_x,
                self.position_y == old(self)@.position_y,
                self.size == old(self)@.size,
                self.gold_for_kill == old(self)@.gold_for_kill,
                self@.slows == old(self)@.slows,
            decreases orig.len() - i,
        {
            let mut dot = self.damage_over_time_effects[i];
            let before = dot.timer.elapsed_ms;
            dot.timer.tick(delta_ms);
            let within = dot.timer.elapsed_ms - before;
            proof {
                assert(dot.damage_per_second * within <= 1_000_000_000_000_000_000u64)
                    by (nonlinear_arith)
                    requires
                        dot.damage_per_second <= MAX_STAT,
                        within <= MAX_TICK_MS,
                        MAX_STAT == 1_000_000_000_000u64,
                        MAX_TICK_MS == 1_000_000u64,
                ;
            }
            let tick_damage = dot.damage_per_second * within;
            self.hp.take_damage(tick_damage);
            if !dot.timer.just_finished {
                survivors.push(dot);
            }
            proof {
                assert(orig.take(i + 1).drop_last() =~= orig.take(i as int));
                assert(orig.take(i + 1).last() == orig[i as int]);
            }
            i = i + 1;
        }
        proof {
            assert(orig.take(orig.len() as int) =~= orig);
        }
        self.damage_over_time_effects = survivors;
    }

    /// Resolve this enemy's movement for one tick: tick and prune slow
    /// effects, advance by the effective (slow-diminished) speed, and
    /// report the damage to deal to the player if the far edge was
    /// reached, in which case the caller removes the enemy.
    #[verifier::rlimit(30)]
    pub fn move_and_deal_damage(&mut self, delta_ms: u64, g: &Grid) -> (r: Option<u64>)
        requires
            old(self).wf(),
            delta_ms <= MAX_TICK_MS,
            g.wf(),
        ensures
            final(self)@ =~= spec_enemy_moved(old(self)@, delta_ms),
            final(self).wf(),
            r == if spec_enemy_moved(old(self)@, delta_ms).position_x >= spec_x_max(*g) {
                Some(old(self)@.damage)
            } else {
                None::<u64>
            },
    {
        let ghost orig = self@.slows;
        let mut survivors: Vec<SlowEffect> = Vec::new();
        let mut total_slow: u64 = 0;
        let mut i: usize = 0;
        while i < self.slow_effects.len()
            invariant
                self@.slows == orig,
                i <= orig.len(),
                delta_ms <= MAX_TICK_MS,
                forall|j: int| 0 <= j < orig.len() ==> (#[trigger] orig[j]).wf(),
                survivors@ == spec_slows_after(orig.take(i as int), delta_ms),
                forall|j: int| 0 <= j < survivors@.len() ==> (#[trigger] survivors@[j]).wf(),
                total_slow == spec_slow_sum_saturated(spec_slows_after(orig.take(i as int), delta_ms)),
            decreases orig.len() - i,
        {
            let mut slow = self.slow_effects[i];
            slow.timer.tick(delta_ms);
            if !slow.timer.just_finished {
                survivors.push(slow);
                total_slow = total_slow.saturating_add(slow.strength);
            }
            proof {
                assert(orig.take(i + 1).drop_last() =~= orig.take(i as int));
                assert(orig.take(i + 1).last() == orig[i as int]);
                lemma_slow_sum_push(spec_slows_after(orig.take(i as int), delta_ms), orig[i as int].spec_ticked(delta_ms));
            }
            i = i + 1;
        }
        proof {
            assert(orig.take(orig.len() as int) =~= orig);
        }
        self.slow_effects = survivors;

        let numerator: u128 = (self.speed as u128) * (SCALE as u128);
        let quotient: u128 = numerator / (SCALE as u128 + total_slow as u128);
        proof {
            assert(quotient <= self.speed) by (nonlinear_arith)
                requires
                    numerator as int == (self.speed as int) * (SCALE as int),
                    quotient as int == (numerator as int) / (SCALE + total_slow as int),
                    self.speed <= MAX_STAT,
                    SCALE == 1000u64,
                    MAX_STAT == 1_000_000_000_000u64,
            ;
        }
        let effective: u64 = quotient as u64;
        proof {
            assert(effective * delta_ms <= 1_000_000_000_000_000_000u64) by (nonlinear_arith)
                requires
                    effective <= MAX_STAT,
                    delta_ms <= MAX_TICK_MS,
                    MAX_STAT == 1_000_000_000_000u64,
                    MAX_TICK_MS == 1_000_000u64,
            ;
        }
        let step: i64 = (effective * delta_ms) as i64;
        self.position_x = if self.position_x > WORLD_BOUND - step {
            WORLD_BOUND
        } else {
            self.position_x + step
        };
        proof {
            assert(self@.hp.wf());
            assert(-WORLD_BOUND <= self@.position_x <= WORLD_BOUND);
            assert(self@.dots == old(self)@.dots);
            assert forall|i: int| 0 <= i < self@.dots.len() implies (#[trigger] self@.dots[i]).wf()
            by {
                assert(old(self)@.dots[i].wf());
            }
            assert(forall|i: int|
                0 <= i < self@.slows.len() ==> (#[trigger] self@.slows[i]).wf());
            assert(self@.wf());
        }
        if self.position_x >= crate::tile_map::x_max(g) {
            Some(self.damage)
        } else {
            None
        }
    }

    /// The playfield tiles the enemy's footprint currently overlaps: at
    /// most two (the trailing and leading edges of its width), on its one
    /// row, deduplicated.
    pub fn on_tiles(&self, g: &Grid) -> (r: Vec<TileMapPos>)
        requires
            self.wf(),
            g.wf(),
        ensures
            forall|t: TileMapPos| r@.contains(t) <==> spec_occupies(self@, *g, t),
            r@.no_duplicates(),
    {
        broadcast use vstd::seq_lib::lemma_seq_contains_after_push;

        let mut result: Vec<TileMapPos> = Vec::new();
        if let Some(y) = y_from_absolute(g, self.position_y) {
            let min_x = self.position_x - (self.size / 2) as i64;
            let max_x = self.position_x + (self.size / 2) as i64;
            match (x_from_absolute(g, min_x), x_from_absolute(g, max_x)) {
                (Some(a), Some(b)) => {
                    result.push(TileMapPos { x: a, y });
                    if b != a {
                        result.push(TileMapPos { x: b, y });
                    }
                },
                (Some(a), None) => {
                    result.push(TileMapPos { x: a, y });
                },
                (None, Some(b)) => {
                    result.push(TileMapPos { x: b, y });
                },
                (None, None) => {},
            }
        }
        result
    }

    /// Whether the enemy's footprint overlaps the given tile.
    pub fn on_tile(&self, g: &Grid, t: TileMapPos) -> (r: bool)
        requires
            self.wf(),
            g.wf(),
        ensures
            r == spec_occupies(self@, *g, t),
    {
        let row_matches = match y_from_absolute(g, self.position_y) {
            Some(row) => row == t.y,
            None => false,
        };
        if !row_matches {
            return false;
        }
        let min_x = self.position_x - (self.size / 2) as i64;
        let max_x = self.position_x + (self.size / 2) as i64;
        let trailing = match x_from_absolute(g, min_x) {
            Some(col) => col == t.x,
            None => false,
        };
        let leading = match x_from_absolute(g, max_x) {
            Some(col) => col == t.x,
            None => false,
        };
        trailing || leading
    }

    /// Whether the enemy's footprint overlaps any playfield tile within
    /// Chebyshev distance `radius` of `center`.
    pub fn on_area(&self, g: &Grid, center: TileMapPos, radius: u32) -> (r: bool)
        requires
            self.wf(),
            g.wf(),
        ensures
            r == spec_occupies_area(self@, *g, center, radius),
    {
        let tiles = self.on_tiles(g);
        let mut i: usize = 0;
        while i < tiles.len()
            invariant
                i <= tiles@.len(),
                forall|t: TileMapPos| tiles@.contains(t) <==> spec_occupies(self@, *g, t),
                forall|j: int| 0 <= j < i ==> !spec_in_area(center, radius, #[trigger] tiles@[j]),
            decreases tiles@.len() - i,
        {
            let t = tiles[i];
            let in_x = center.x.saturating_sub(radius) <= t.x && t.x as u64 <= center.x as u64
                + radius as u64 && t.x < crate::tile_map::COLUMNS;
            let in_y = center.y.saturating_sub(radius) <= t.y && t.y as u64 <= center.y as u64
                + radius as u64 && t.y < crate::tile_map::ROWS;
            if in_x && in_y {
                proof {
                    assert(tiles@[i as int] == t);
                    assert(tiles@.contains(t));
                    assert(spec_in_area(center, radius, t) && spec_occupies(self@, *g, t));
                }
                return true;
            }
            i = i + 1;
        }
        proof {
            if spec_occupies_area(self@, *g, center, radius) {
                let t = choose|t: TileMapPos|
                    spec_in_area(center, radius, t) && spec_occupies(self@, *g, t);
                assert(tiles@.contains(t));
                let j = choose|j: int| 0 <= j < tiles@.len() && tiles@[j] == t;
                assert(!spec_in_area(center, radius, tiles@[j]));
            }
        }
        false
    }
}

/// Appending one more surviving slow effect extends the saturated sum by
/// its strength (still saturating).
proof fn lemma_slow_sum_push(slows: Seq<SlowEffect>, s: SlowEffect)
    ensures
        spec_slow_sum(slows.push(s)) == spec_slow_sum(slows) + s.strength,
{
    assert(slows.push(s).drop_last() =~= slows);
}

/// Sum of a sequence of tick lengths, in milliseconds.
pub open spec fn spec_delta_sum(deltas: Seq<u64>) -> int
    decreases deltas.len(),
{
    if deltas.len() == 0 {
        0
    } else {
        deltas[0] + spec_delta_sum(deltas.drop_first())
    }
}

/// Tick lengths are non-negative, so their sum is too.
proof fn lemma_delta_sum_nonneg(deltas: Seq<u64>)
    ensures
        spec_delta_sum(deltas) >= 0,
    decreases deltas.len(),
{
    if deltas.len() > 0 {
        lemma_delta_sum_nonneg(deltas.drop_first());
    }
}

/// Cumulative damage a single damage-over-time effect deals across a
/// whole sequence of ticks, its timer advancing tick by tick.
pub open spec fn spec_dot_cumulative_damage(d: DamageOverTimeEffect, deltas: Seq<u64>) -> int
    decreases deltas.len(),
{
    if deltas.len() == 0 {
        0
    } else {
        d.spec_tick_damage(deltas[0]) + spec_dot_cumulative_damage(
            d.spec_ticked(deltas[0]),
            deltas.drop_first(),
        )
    }
}

/// Across any ticks, a damage-over-time effect has dealt exactly its rate
/// times the part of its lifetime consumed so far.
proof fn lemma_dot_cumulative_general(d: DamageOverTimeEffect, deltas: Seq<u64>)
    requires
        d.wf(),
    ensures
        spec_dot_cumulative_damage(d, deltas) == d.damage_per_second * ((if d.timer.elapsed_ms
            + spec_delta_sum(deltas) >= d.timer.duration_ms {
            d.timer.duration_ms as int
        } else {
            d.timer.elapsed_ms + spec_delta_sum(deltas)
        }) - d.timer.elapsed_ms),
    decreases deltas.len(),
{
    let rate = d.damage_per_second as int;
    let e0 = d.timer.elapsed_ms as int;
    let dur = d.timer.duration_ms as int;
    if deltas.len() == 0 {
        assert(spec_delta_sum(deltas) == 0);
        assert(rate * ((if e0 + 0 >= dur {
            dur
        } else {
            e0 + 0
        }) - e0) == 0) by (nonlinear_arith)
            requires
                e0 <= dur,
        ;
    } else {
        let d2 = d.spec_ticked(deltas[0]);
        assert(d2.wf());
        lemma_dot_cumulative_general(d2, deltas.drop_first());
        lemma_delta_sum_nonneg(deltas.drop_first());
        assert(spec_delta_sum(deltas) == deltas[0] + spec_delta_sum(deltas.drop_first()));
        let e1 = d2.timer.elapsed_ms as int;
        let s = spec_delta_sum(deltas.drop_first());
        let consumed_total = if e0 + deltas[0] + s >= dur {
            dur
        } else {
            e0 + deltas[0] + s
        };
        let consumed_rest = if e1 + s >= dur {
            dur
        } else {
            e1 + s
        };
        assert(spec_dot_cumulative_damage(d, deltas) == d.spec_tick_damage(deltas[0])
            + spec_dot_cumulative_damage(d2, deltas.drop_first()));
        assert(d.spec_tick_damage(deltas[0]) == rate * (e1 - e0));
        assert(spec_dot_cumulative_damage(d2, deltas.drop_first()) == rate * (consumed_rest - e1));
        assert(rate * (e1 - e0) + rate * (consumed_rest - e1) == rate * (consumed_total - e0))
            by (nonlinear_arith)
            requires
                consumed_rest == consumed_total,
        ;
        assert(consumed_total == (if e0 + spec_delta_sum(deltas) >= dur {
            dur
        } else {
            e0 + spec_delta_sum(deltas)
        }));
        assert(spec_dot_cumulative_damage(d, deltas) == rate * (consumed_total - e0));
    }
}

/// Law (duration cap): a fresh damage-over-time effect with total
/// duration `D` milliseconds and rate `r` deals exactly `r * D`
/// micro-units of cumulative damage over any sequence of ticks whose
/// lengths sum to at least `D`, however the time is partitioned.
pub proof fn lemma_dot_duration_cap(d: DamageOverTimeEffect, deltas: Seq<u64>)
    requires
        d.wf(),
        d.timer.elapsed_ms == 0,
        spec_delta_sum(deltas) >= d.timer.duration_ms,
    ensures
        spec_dot_cumulative_damage(d, deltas) == d.damage_per_second * d.timer.duration_ms,
{
    lemma_dot_cumulative_general(d, deltas);
}

/// Slow strengths are unsigned, so their sum never goes negative.
proof fn lemma_slow_sum_nonneg(slows: Seq<SlowEffect>)
    ensures
        spec_slow_sum(slows) >= 0,
    decreases slows.len(),
{
    if slows.len() > 0 {
        lemma_slow_sum_nonneg(slows.drop_last());
    }
}

/// Law (forward motion): an enemy's lane position never decreases when
/// it advances, however strongly it is slowed; an enemy leaves the
/// playfield only by dying or by crossing the far edge.
pub proof fn lemma_position_monotone(e: EnemyView, delta: u64)
    requires
        e.wf(),
    ensures
        spec_enemy_moved(e, delta).position_x >= e.position_x,
{
    let slows = spec_slows_after(e.slows, delta);
    lemma_slow_sum_nonneg(slows);
    let sat = spec_slow_sum_saturated(slows);
    let eff = spec_effective_speed(e.speed, slows);
    assert(eff >= 0 && eff * delta >= 0) by (nonlinear_arith)
        requires
            eff == e.speed * SCALE / (SCALE + sat),
            sat >= 0,
            e.speed >= 0,
            delta >= 0,
            SCALE == 1000u64,
    ;
}

/// Law (slow compounding): with exactly two simultaneous slow effects of
/// strengths `s1` and `s2`, the effective speed is
/// `base * SCALE / (SCALE + s1 + s2)` — compounding through the
/// denominator, never negative, never above the base speed — and after a
/// tick on which the first expires and the second survives it reverts to
/// `base * SCALE / (SCALE + s2)`.
pub proof fn lemma_slow_compounding(e: EnemyView, delta: u64)
    requires
        e.wf(),
        e.slows.len() == 2,
        // the first effect is still running and just runs out during this tick
        e.slows[0].timer.elapsed_ms < e.slows[0].timer.duration_ms,
        e.slows[0].timer.elapsed_ms + delta >= e.slows[0].timer.duration_ms,
        // the second effect outlives this tick
        e.slows[1].timer.elapsed_ms + delta < e.slows[1].timer.duration_ms,
    ensures
        spec_effective_speed(e.speed, e.slows) == e.speed * SCALE / (SCALE + e.slows[0].strength
            + e.slows[1].strength),
        0 <= spec_effective_speed(e.speed, e.slows) <= e.speed,
        spec_effective_speed(e.speed, spec_slows_after(e.slows, delta)) == e.speed * SCALE / (SCALE
            + e.slows[1].strength),
{
    let s0 = e.slows[0];
    let s1 = e.slows[1];
    assert(s0.wf() && s1.wf());
    assert(e.slows.drop_last() =~= seq![s0]);
    assert(seq![s0].drop_last() =~= Seq::<SlowEffect>::empty());
    assert(spec_slow_sum(Seq::<SlowEffect>::empty()) == 0);
    assert(spec_slow_sum(seq![s0]) == 0 + s0.strength);
    assert(e.slows.last() == s1);
    assert(spec_slow_sum(e.slows) == spec_slow_sum(seq![s0]) + s1.strength);
    let after = spec_slows_after(e.slows, delta);
    assert(spec_slows_after(Seq::<SlowEffect>::empty(), delta) =~= Seq::<SlowEffect>::empty());
    assert(s0.spec_ticked(delta).timer.just_finished);
    assert(spec_slows_after(seq![s0], delta) =~= Seq::<SlowEffect>::empty());
    assert(!s1.spec_ticked(delta).timer.just_finished);
    assert(after =~= seq![s1.spec_ticked(delta)]);
    assert(seq![s1.spec_ticked(delta)].drop_last() =~= Seq::<SlowEffect>::empty());
    assert(spec_slow_sum(after) == s1.strength);
    assert(e.speed * SCALE / (SCALE + spec_slow_sum_saturated(e.slows)) <= e.speed)
        by (nonlinear_arith)
        requires
            e.speed <= MAX_STAT,
            0 <= spec_slow_sum_saturated(e.slows),
            SCALE == 1000u64,
            MAX_STAT == 1_000_000_000_000u64,
    ;
    assert(0 <= e.speed * SCALE / (SCALE + spec_slow_sum_saturated(e.slows))) by (nonlinear_arith)
        requires
            0 <= e.speed,
            0 <= spec_slow_sum_saturated(e.slows),
            SCALE == 1000u64,
    ;
}

} // verus!

verus! {

/// All enemies after their damage-over-time resolution for one tick.
pub open spec fn spec_enemies_after_dot(es: Seq<EnemyView>, delta: u64) -> Seq<EnemyView> {
    es.map_values(|e: EnemyView| spec_enemy_after_dot(e, delta))
}

/// The enemies that survive the cull: everyone not dead, in order.
pub open spec fn spec_surviving(es: Seq<EnemyView>) -> Seq<EnemyView>
    decreases es.len(),
{
    if es.len() == 0 {
        Seq::empty()
    } else {
        let rest = spec_surviving(es.drop_last());
        if es.last().hp.spec_is_dead() {
            rest
        } else {
            rest.push(es.last())
        }
    }
}

/// The purse after the cull credits each dead enemy's reward, in order.
pub open spec fn spec_cleanup_gold(gold: Gold, es: Seq<EnemyView>) -> Gold
    decreases es.len(),
{
    if es.len() == 0 {
        gold
    } else {
        let g = spec_cleanup_gold(gold, es.drop_last());
        if es.last().hp.spec_is_dead() {
            g.spec_credited(es.last().gold_for_kill as int)
        } else {
            g
        }
    }
}

/// The summed rewards the cull credits (before the purse cap), used to
/// state ordering laws.
pub open spec fn spec_kill_reward(es: Seq<EnemyView>) -> int
    decreases es.len(),
{
    if es.len() == 0 {
        0
    } else {
        spec_kill_reward(es.drop_last()) + if es.last().hp.spec_is_dead() {
            es.last().gold_for_kill as int
        } else {
            0
        }
    }
}

/// The enemies still on the playfield after the movement pass: each
/// advanced, those reaching the far edge removed.
pub open spec fn spec_move_survivors(es: Seq<EnemyView>, delta: u64, g: Grid) -> Seq<EnemyView>
    decreases es.len(),
{
    if es.len() == 0 {
        Seq::empty()
    } else {
        let rest = spec_move_survivors(es.drop_last(), delta, g);
        let moved = spec_enemy_moved(es.last(), delta);
        if moved.position_x >= spec_x_max(g) {
            rest
        } else {
            rest.push(moved)
        }
    }
}

/// The player's pool after every enemy that reaches the far edge this
/// tick deals it its damage, in order.
pub open spec fn spec_hp_after_border(
    hp: HitPoints,
    es: Seq<EnemyView>,
    delta: u64,
    g: Grid,
) -> HitPoints
    decreases es.len(),
{
    if es.len() == 0 {
        hp
    } else {
        let h = spec_hp_after_border(hp, es.drop_last(), delta, g);
        let moved = spec_enemy_moved(es.last(), delta);
        if moved.position_x >= spec_x_max(g) {
            h.spec_damaged(es.last().damage)
        } else {
            h
        }
    }
}

/// The whole state after the damage-over-time step; a no-op while paused.
pub open spec fn spec_dot_phase(s: StateView, delta: u64) -> StateView {
    if s.is_paused {
        s
    } else {
        StateView { enemies: spec_enemies_after_dot(s.enemies, delta), ..s }
    }
}

/// The whole state after the cull: dead enemies removed, each removed
/// enemy's reward credited; a no-op while paused.
pub open spec fn spec_cleanup_phase(s: StateView) -> StateView {
    if s.is_paused {
        s
    } else {
        StateView {
            enemies: spec_surviving(s.enemies),
            player: Player { gold: spec_cleanup_gold(s.player.gold, s.enemies), ..s.player },
            ..s
        }
    }
}

/// The whole state after the movement step: every enemy advanced, those
/// reaching the far edge removed with their damage dealt to the player;
/// a no-op while paused.
pub open spec fn spec_move_phase(s: StateView, delta: u64, g: Grid) -> StateView {
    if s.is_paused {
        s
    } else {
        StateView {
            enemies: spec_move_survivors(s.enemies, delta, g),
            player: Player { hp: spec_hp_after_border(s.player.hp, s.enemies, delta, g), ..s.player },
            ..s
        }
    }
}

/// Appending an enemy appends its view.
pub proof fn lemma_views_push(s: Seq<Enemy>, e: Enemy)
    ensures
        spec_views(s.push(e)) =~= spec_views(s).push(e@),
{
    assert forall|i: int| 0 <= i < s.len() + 1 implies #[trigger] spec_views(s.push(e))[i]
        == spec_views(s).push(e@)[i] by {
        if i < s.len() {
            assert(s.push(e)[i] == s[i]);
        } else {
            assert(s.push(e)[i] == e);
        }
    }
}

/// Removing the front element of an enemy list drops the front of its
/// view sequence.
proof fn lemma_views_remove_front(s: Seq<Enemy>)
    requires
        s.len() > 0,
    ensures
        spec_views(s.remove(0)) =~= spec_views(s).subrange(1, s.len() as int),
        spec_views(s)[0] == s[0]@,
{
    assert(s.remove(0) =~= s.subrange(1, s.len() as int));
}

impl GameState {
    /// The damage-over-time step: every enemy resolves its drains for this
    /// tick (damage capped at each effect's remaining lifetime, expired
    /// effects dropped); a no-op while paused.  Deaths are observed later,
    /// by the cull.
    #[verifier::loop_isolation(false)]
    pub fn deal_damage_over_time_to_enemies(&mut self, delta_ms: u64)
        requires
            old(self).wf(),
            delta_ms <= MAX_TICK_MS,
        ensures
            final(self)@ =~= spec_dot_phase(old(self)@, delta_ms),
            final(self).wf(),
    {
        if self.is_paused {
            return ;
        }
        let ghost orig = spec_views(self.enemies@);
        let mut j: usize = 0;
        while j < self.enemies.len()
            invariant
                self.enemies@.len() == orig.len(),
                j <= orig.len(),
                self.enemy_spawner == old(self).enemy_spawner,
                self.player == old(self).player,
                self.is_paused == old(self).is_paused,
                self.is_game_over == old(self).is_game_over,
                self.selected_tile == old(self).selected_tile,
                self.trap_tiles == old(self).trap_tiles,
                self.run_length_ms == old(self).run_length_ms,
                forall|k: int|
                    0 <= k < j ==> #[trigger] spec_views(self.enemies@)[k] == spec_enemy_after_dot(
                        orig[k],
                        delta_ms,
                    ),
                forall|k: int|
                    j <= k < orig.len() ==> #[trigger] spec_views(self.enemies@)[k] == orig[k],
                forall|k: int|
                    0 <= k < orig.len() ==> (#[trigger] spec_views(self.enemies@)[k]).wf(),
                spec_all_wf(orig),
            decreases orig.len() - j,
        {
            proof {
                assert(spec_views(self.enemies@)[j as int] == orig[j as int]);
                assert(self.enemies@[j as int]@ == spec_views(self.enemies@)[j as int]);
                assert(orig[j as int].wf());
            }
            let ghost prev = self.enemies@;
            let e = &mut self.enemies[j];
            e.apply_damage_over_time(delta_ms);
            proof {
                assert forall|k: int|
                    0 <= k < orig.len() implies (#[trigger] spec_views(self.enemies@)[k] == (if k
                    < j + 1 {
                    spec_enemy_after_dot(orig[k], delta_ms)
                } else {
                    orig[k]
                }) && spec_views(self.enemies@)[k].wf()) by {
                    assert(spec_views(prev)[k] == prev[k]@);
                    assert(spec_views(self.enemies@)[k] == self.enemies@[k]@);
                    assert(self.enemies@ == prev.update(j as int, self.enemies@[j as int]));
                    if k == j {
                        assert(self.enemies@[k]@ =~= spec_enemy_after_dot(orig[k], delta_ms));
                        assert(self.enemies@[k]@.wf());
                    } else {
                        assert(spec_views(prev)[k].wf());
                    }
                }
            }
            j = j + 1;
        }
        proof {
            let done = spec_views(self.enemies@);
            let mapped = spec_enemies_after_dot(orig, delta_ms);
            assert forall|k: int| 0 <= k < done.len() implies (#[trigger] done[k]) == mapped[k]
                && done[k].wf() by {
                assert(done[k] == spec_enemy_after_dot(orig[k], delta_ms));
                assert(orig[k].wf());
            }
            assert(done =~= mapped);
            assert(self@ =~= spec_dot_phase(old(self)@, delta_ms));
        }
    }

    /// The cull: every dead enemy (from drains, traps, or earlier ticks)
    /// is removed, its reward credited to the player first; a no-op while
    /// paused.  Each dead enemy is removed and paid exactly once.
    #[verifier::loop_isolation(false)]
    pub fn cleanup_dead_enemies(&mut self)
        requires
            old(self).wf(),
        ensures
            final(self)@ =~= spec_cleanup_phase(old(self)@),
            final(self).wf(),
    {
        if self.is_paused {
            return ;
        }
        let mut source: Vec<Enemy> = Vec::new();
        core::mem::swap(&mut source, &mut self.enemies);
        let ghost orig = spec_views(source@);
        let ghost mut k: int = 0;
        while source.len() > 0
            invariant
                0 <= k <= orig.len(),
                spec_views(source@) =~= orig.subrange(k, orig.len() as int),
                spec_views(self.enemies@) =~= spec_surviving(orig.take(k)),
                spec_all_wf(spec_views(self.enemies@)),
                self.player.gold == spec_cleanup_gold(old(self).player.gold, orig.take(k)),
                self.player.gold.wf(),
                self.player.hp == old(self).player.hp,
                self.enemy_spawner == old(self).enemy_spawner,
                self.is_paused == old(self).is_paused,
                self.is_game_over == old(self).is_game_over,
                self.selected_tile == old(self).selected_tile,
                self.trap_tiles == old(self).trap_tiles,
                self.run_length_ms == old(self).run_length_ms,
            decreases source@.len(),
        {
            proof {
                assert(spec_views(source@)[0] == orig[k]);
                assert(source@[0]@ == spec_views(source@)[0]);
                assert(orig[k].wf());
            }
            let ghost presource = source@;
            let e = source.remove(0);
            proof {
                lemma_views_remove_front(presource);
                assert(presource.subrange(1, presource.len() as int) =~= source@);
                assert(orig.subrange(k, orig.len() as int).subrange(
                    1,
                    orig.len() - k,
                ) =~= orig.subrange(k + 1, orig.len() as int));
                assert(spec_views(source@) =~= orig.subrange(k + 1, orig.len() as int));
                assert(e@ == orig[k]);
            }
            let dead = e.hp.is_dead();
            if dead {
                self.player.gold.credit(e.gold_for_kill);
            } else {
                self.enemies.push(e);
            }
            proof {
                assert(orig.take(k + 1).drop_last() =~= orig.take(k));
                assert(orig.take(k + 1).last() == orig[k]);
                if !dead {
                    assert(spec_views(self.enemies@) =~= spec_surviving(orig.take(k)).push(e@));
                }
                k = k + 1;
            }
        }
        proof {
            assert(orig.take(orig.len() as int) =~= orig);
            assert(self@ =~= spec_cleanup_phase(old(self)@));
        }
    }

    /// The movement step: every remaining enemy advances under its slow
    /// effects; an enemy reaching the far edge deals its damage to the
    /// player and is removed without reward (it was not killed); a no-op
    /// while paused.
    #[verifier::loop_isolation(false)]
    pub fn move_enemies_and_deal_damage_to_player(&mut self, delta_ms: u64, g: &Grid)
        requires
            old(self).wf(),
            delta_ms <= MAX_TICK_MS,
            g.wf(),
        ensures
            final(self)@ =~= spec_move_phase(old(self)@, delta_ms, *g),
            final(self).wf(),
    {
        if self.is_paused {
            return ;
        }
        let mut source: Vec<Enemy> = Vec::new();
        core::mem::swap(&mut source, &mut self.enemies);
        let ghost orig = spec_views(source@);
        let ghost mut k: int = 0;
        while source.len() > 0
            invariant
                0 <= k <= orig.len(),
                delta_ms <= MAX_TICK_MS,
                g.wf(),
                spec_views(source@) =~= orig.subrange(k, orig.len() as int),
                spec_views(self.enemies@) =~= spec_move_survivors(orig.take(k), delta_ms, *g),
                spec_all_wf(spec_views(self.enemies@)),
                self.player.hp == spec_hp_after_border(
                    old(self).player.hp,
                    orig.take(k),
                    delta_ms,
                    *g,
                ),
                self.player.hp.wf(),
                self.player.gold == old(self).player.gold,
                self.enemy_spawner == old(self).enemy_spawner,
                self.is_paused == old(self).is_paused,
                self.is_game_over == old(self).is_game_over,
                self.selected_tile == old(self).selected_tile,
                self.trap_tiles == old(self).trap_tiles,
                self.run_length_ms == old(self).run_length_ms,
            decreases source@.len(),
        {
            proof {
                assert(spec_views(source@)[0] == orig[k]);
                assert(source@[0]@ == spec_views(source@)[0]);
                assert(orig[k].wf());
            }
            let ghost presource = source@;
            let mut e = source.remove(0);
            proof {
                lemma_views_remove_front(presource);
                assert(presource.subrange(1, presource.len() as int) =~= source@);
                assert(orig.subrange(k, orig.len() as int).subrange(
                    1,
                    orig.len() - k,
                ) =~= orig.subrange(k + 1, orig.len() as int));
                assert(spec_views(source@) =~= orig.subrange(k + 1, orig.len() as int));
                assert(e@ == orig[k]);
            }
            let crossed = e.move_and_deal_damage(delta_ms, g);
            match crossed {
                Some(damage) => {
                    self.player.hp.take_damage(damage);
                },
                None => {
                    self.enemies.push(e);
                },
            }
            proof {
                assert(orig.take(k + 1).drop_last() =~= orig.take(k));
                assert(orig.take(k + 1).last() == orig[k]);
                if crossed is None {
                    assert(spec_views(self.enemies@) =~= spec_move_survivors(
                        orig.take(k),
                        delta_ms,
                        *g,
                    ).push(e@));
                }
                k = k + 1;
            }
        }
        proof {
            assert(orig.take(orig.len() as int) =~= orig);
            assert(self@ =~= spec_move_phase(old(self)@, delta_ms, *g));
        }
    }
}

} // verus!
