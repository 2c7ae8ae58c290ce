//! The aggregate root: all entity collections, the pause and game-over
//! flags, and the fixed per-tick step order.
//!
//! One [`GameState`] value owns everything the simulation mutates.  The
//! host loop calls [`GameState::simulate_tick`] once per frame with the
//! elapsed milliseconds, the current camera anchor, and a random seed for
//! the spawn row; between ticks, UI collaborators may only read the state
//! or use the narrow mutation entry points (pause toggle, tile selection,
//! build confirmation, tuning setters).

use vstd::prelude::*;

use crate::enemy::spec_all_wf;
use crate::enemy::spec_cleanup_gold;
use crate::enemy::spec_cleanup_phase;
use crate::enemy::spec_dot_phase;
use crate::enemy::spec_kill_reward;
use crate::enemy::spec_move_phase;
use crate::enemy::spec_surviving;
use crate::enemy::spec_views;
use crate::enemy_spawner::spec_spawn_phase;
use crate::fixed::MAX_STAT;
use crate::player::spec_dead_player_phase;
use crate::player::spec_interest_phase;
use crate::trap::spec_trap_phase;
use crate::enemy::Enemy;
use crate::enemy::EnemyView;
use crate::enemy_spawner::spec_default_spawner;
use crate::enemy_spawner::EnemySpawner;
use crate::fixed::spec_add_capped;
use crate::fixed::MAX_TICK_MS;
use crate::hit_points::HitPoints;
use crate::player::Gold;
use crate::player::Player;
use crate::tile_map::spec_tile_from_absolute;
use crate::tile_map::Grid;
use crate::tile_map::TileMapPos;
use crate::tile_map::COLUMNS;
use crate::tile_map::ROWS;
use crate::timer::Timer;
use crate::trap::TrapBuilder;
use crate::trap::TrapTile;
use crate::trap::TrapTileEntry;

verus! {

/// The whole simulation state.
pub struct GameState {
    pub enemies: Vec<Enemy>,
    pub enemy_spawner: EnemySpawner,
    pub player: Player,
    /// While set, every per-tick step is a no-op: all timers freeze.
    pub is_paused: bool,
    /// Set (together with the pause) once the player's hit points run out.
    pub is_game_over: bool,
    pub selected_tile: Option<TileMapPos>,
    /// The trap-tile mapping: at most one entry per position.
    pub trap_tiles: Vec<TrapTileEntry>,
    /// Real time simulated while unpaused, milliseconds.
    pub run_length_ms: u64,
}

/// The mathematical value of a [`GameState`].
#[verifier::ext_equal]
pub ghost struct StateView {
    pub enemies: Seq<EnemyView>,
    pub enemy_spawner: EnemySpawner,
    pub player: Player,
    pub is_paused: bool,
    pub is_game_over: bool,
    pub selected_tile: Option<TileMapPos>,
    pub trap_tiles: Seq<TrapTileEntry>,
    pub run_length_ms: u64,
}

impl View for GameState {
    type V = StateView;

    open spec fn view(&self) -> StateView {
        StateView {
            enemies: spec_views(self.enemies@),
            enemy_spawner: self.enemy_spawner,
            player: self.player,
            is_paused: self.is_paused,
            is_game_over: self.is_game_over,
            selected_tile: self.selected_tile,
            trap_tiles: self.trap_tiles@,
            run_length_ms: self.run_length_ms,
        }
    }
}

impl StateView {
    /// Validity: every owned piece valid, and the trap mapping holding at
    /// most one entry per position.
    pub open spec fn wf(self) -> bool {
        &&& spec_all_wf(self.enemies)
        &&& self.enemy_spawner.wf()
        &&& self.player.wf()
        &&& forall|i: int| 0 <= i < self.trap_tiles.len() ==> (#[trigger] self.trap_tiles[i]).wf()
        &&& forall|i: int, j: int|
            0 <= i < j < self.trap_tiles.len() ==> self.trap_tiles[i].pos != self.trap_tiles[j].pos
    }
}

/// Whether the trap-tile mapping holds an entry for `pos`.
pub open spec fn spec_has_tile(entries: Seq<TrapTileEntry>, pos: TileMapPos) -> bool {
    exists|i: int| 0 <= i < entries.len() && entries[i].pos == pos
}

/// The index of the entry for `pos` (unique while the state is valid).
pub open spec fn spec_tile_index(entries: Seq<TrapTileEntry>, pos: TileMapPos) -> int {
    choose|i: int| 0 <= i < entries.len() && entries[i].pos == pos
}

/// The initial state every run starts from (and restarts to): a default
/// spawner, a player with one hundred hit points and one hundred gold
/// with 10% interest every ten seconds capped at fifty gold per firing,
/// no enemies, no trap tiles, unpaused.
pub open spec fn spec_initial_state() -> StateView {
    StateView {
        enemies: Seq::empty(),
        enemy_spawner: spec_default_spawner(),
        player: Player {
            hp: HitPoints { maximum: 100_000_000, current: 100_000_000 },
            gold: Gold {
                value: 100_000,
                interest_cooldown: Timer {
                    duration_ms: 10_000,
                    elapsed_ms: 0,
                    repeating: true,
                    just_finished: false,
                },
                interest_size: 100,
                max_interest_gainable: 50_000,
            },
        },
        is_paused: false,
        is_game_over: false,
        selected_tile: None,
        trap_tiles: Seq::empty(),
        run_length_ms: 0,
    }
}

impl Default for GameState {
    /// A fresh run; what `new` returns.
    fn default() -> (r: GameState)
        ensures
            r@ =~= spec_initial_state(),
            r.wf(),
    {
        GameState::new()
    }
}

impl GameState {
    /// Validity of the whole aggregate.
    pub open spec fn wf(self) -> bool {
        self@.wf()
    }

    /// A fresh run.
    pub fn new() -> (r: GameState)
        ensures
            r@ =~= spec_initial_state(),
            r.wf(),
    {
        GameState {
            enemies: Vec::new(),
            enemy_spawner: EnemySpawner::default(),
            player: Player {
                hp: HitPoints::new_full(100_000_000),
                gold: Gold {
                    value: 100_000,
                    interest_cooldown: Timer::from_millis(10_000, true),
                    interest_size: 100,
                    max_interest_gainable: 50_000,
                },
            },
            is_paused: false,
            is_game_over: false,
            selected_tile: None,
            trap_tiles: Vec::new(),
            run_length_ms: 0,
        }
    }

    /// Reset the whole aggregate to the initial state.
    pub fn restart(&mut self)
        ensures
            final(self)@ =~= spec_initial_state(),
            final(self).wf(),
    {
        *self = GameState::new();
    }

    /// Flip the pause flag; the only suspension primitive.
    pub fn toggle_pause(&mut self)
        ensures
            *final(self) == (GameState { is_paused: !old(self).is_paused, ..*old(self) }),
    {
        self.is_paused = !self.is_paused;
    }

    /// Advance the run clock: real elapsed time accrues only while
    /// unpaused (saturating only at the far end of `u64` milliseconds).
    pub fn passage_of_time(&mut self, delta_ms: u64)
        requires
            delta_ms <= MAX_TICK_MS,
        ensures
            *final(self) == (GameState {
                run_length_ms: old(self).spec_run_length_after(delta_ms) as u64,
                ..*old(self)
            }),
    {
        if !self.is_paused {
            self.run_length_ms = crate::fixed::add_capped(self.run_length_ms, delta_ms, u64::MAX);
        }
    }

    /// The run clock after one tick's bookkeeping.
    pub open spec fn spec_run_length_after(self, delta_ms: u64) -> int {
        if self.is_paused {
            self.run_length_ms as int
        } else {
            spec_add_capped(self.run_length_ms as int, delta_ms as int, u64::MAX as int)
        }
    }

    /// The run clock split for display: whole minutes, seconds within the
    /// minute, and centiseconds within the second.
    pub fn run_length_parts(&self) -> (r: (u64, u64, u64))
        ensures
            r.0 == self.run_length_ms as int / 60_000,
            r.1 == (self.run_length_ms as int % 60_000) / 1_000,
            r.2 == (self.run_length_ms as int % 1_000) / 10,
    {
        (self.run_length_ms / 60_000, (self.run_length_ms % 60_000) / 1_000, (self.run_length_ms
            % 1_000) / 10)
    }

    /// Select the tile under a world-space point, or clear the selection
    /// if the point lies off the playfield.
    pub fn select_tile(&mut self, g: &Grid, world_x: i64, world_y: i64) -> (r: Option<TileMapPos>)
        requires
            g.wf(),
        ensures
            r == spec_tile_from_absolute(*g, world_x as int, world_y as int),
            *final(self) == (GameState { selected_tile: r, ..*old(self) }),
    {
        self.selected_tile = TileMapPos::from_absolute(g, world_x, world_y);
        self.selected_tile
    }

    /// Make sure `pos` has a trap-tile entry, creating the default
    /// pending configuration on first touch (nothing is charged).
    #[verifier::loop_isolation(false)]
    pub fn ensure_tile(&mut self, pos: TileMapPos)
        requires
            old(self).wf(),
            pos.x < COLUMNS,
            pos.y < ROWS,
        ensures
            final(self)@ =~= (if spec_has_tile(old(self)@.trap_tiles, pos) {
                old(self)@
            } else {
                StateView {
                    trap_tiles: old(self)@.trap_tiles.push(
                        TrapTileEntry {
                            pos,
                            tile: TrapTile::ToBeBuild(
                                TrapBuilder::Simple {
                                    cooldown_ms: 1_000u64,
                                    damage: 2_000_000u64,
                                    gold_cost: 10_000u64,
                                },
                            ),
                        },
                    ),
                    ..old(self)@
                }
            }),
            final(self).wf(),
    {
        let mut i: usize = 0;
        while i < self.trap_tiles.len()
            invariant
                *self == *old(self),
                i <= self.trap_tiles@.len(),
                forall|k: int| 0 <= k < i ==> (#[trigger] self.trap_tiles@[k]).pos != pos,
            decreases self.trap_tiles@.len() - i,
        {
            let entry = self.trap_tiles[i];
            if entry.pos.x == pos.x && entry.pos.y == pos.y {
                proof {
                    assert(self.trap_tiles@[i as int].pos == pos);
                }
                return ;
            }
            i = i + 1;
        }
        proof {
            assert(!spec_has_tile(self.trap_tiles@, pos));
        }
        self.trap_tiles.push(TrapTileEntry { pos, tile: TrapTile::default() });
    }

    /// Replace the pending configuration on the tile at `pos` (the player
    /// switching trap kind or editing parameters before committing).
    /// Exactly when the tile holds a pending configuration it is replaced
    /// and `true` returned; a missing entry or a built trap is left
    /// untouched.
    #[verifier::loop_isolation(false)]
    pub fn set_pending_builder(&mut self, pos: TileMapPos, builder: TrapBuilder) -> (r: bool)
        requires
            old(self).wf(),
            builder.wf(),
        ensures
            final(self).wf(),
            ({
                let entries = old(self)@.trap_tiles;
                let idx = spec_tile_index(entries, pos);
                if spec_has_tile(entries, pos) && entries[idx].tile is ToBeBuild {
                    &&& r == true
                    &&& final(self)@ =~= StateView {
                        trap_tiles: entries.update(
                            idx,
                            TrapTileEntry { pos, tile: TrapTile::ToBeBuild(builder) },
                        ),
                        ..old(self)@
                    }
                } else {
                    &&& r == false
                    &&& *final(self) == *old(self)
                }
            }),
    {
        let ghost entries = self.trap_tiles@;
        let mut i: usize = 0;
        while i < self.trap_tiles.len()
            invariant
                *self == *old(self),
                entries == self.trap_tiles@,
                i <= entries.len(),
                old(self).wf(),
                forall|k: int| 0 <= k < i ==> (#[trigger] entries[k]).pos != pos,
            decreases entries.len() - i,
        {
            let entry = self.trap_tiles[i];
            if entry.pos.x == pos.x && entry.pos.y == pos.y {
                proof {
                    assert(entries[i as int].pos == pos);
                    assert(spec_has_tile(entries, pos));
                    let idx = spec_tile_index(entries, pos);
                    assert(0 <= idx < entries.len() && entries[idx].pos == pos);
                    assert(idx == i as int);
                }
                match entry.tile {
                    TrapTile::Built(_) => {
                        return false;
                    },
                    TrapTile::ToBeBuild(_) => {
                        let slot = &mut self.trap_tiles[i];
                        *slot = TrapTileEntry { pos, tile: TrapTile::ToBeBuild(builder) };
                        proof {
                            assert forall|k: int|
                                0 <= k < entries.len() implies (#[trigger] self.trap_tiles@[k]).pos
                                == entries[k].pos by {
                                if k != i {
                                    assert(self.trap_tiles@[k] == entries[k]);
                                } else {
                                    assert(entries[k].pos == pos);
                                }
                            }
                            assert forall|k: int|
                                0 <= k < entries.len() implies (#[trigger] self.trap_tiles@[k]).wf()
                            by {
                                if k != i {
                                    assert(self.trap_tiles@[k] == entries[k]);
                                    assert(old(self)@.trap_tiles[k].wf());
                                    assert(self.trap_tiles@[k].wf());
                                } else {
                                    assert(self.trap_tiles@[k] == (TrapTileEntry {
                                        pos,
                                        tile: TrapTile::ToBeBuild(builder),
                                    }));
                                    assert(TrapTile::ToBeBuild(builder).wf());
                                    assert(self.trap_tiles@[k].wf());
                                }
                            }
                            assert(self@.wf());
                        }
                        return true;
                    },
                }
            }
            i = i + 1;
        }
        proof {
            assert(!spec_has_tile(entries, pos));
        }
        false
    }

    /// The gold-gated build confirmation for the tile at `pos`: exactly
    /// when the tile holds a pending configuration and the player can
    /// afford it, the gold is debited atomically with the transition to
    /// `Built`; in every other case (no entry, already built, or not
    /// enough gold) nothing changes and `false` reports the failure.
    pub fn confirm_build(&mut self, pos: TileMapPos) -> (r: bool)
        requires
            old(self).wf(),
        ensures
            final(self).wf(),
            ({
                let entries = old(self)@.trap_tiles;
                let idx = spec_tile_index(entries, pos);
                if spec_has_tile(entries, pos) && entries[idx].tile is ToBeBuild {
                    let builder = entries[idx].tile->ToBeBuild_0;
                    if old(self).player.gold.value >= builder.spec_gold_cost() {
                        &&& r == true
                        &&& final(self)@ =~= StateView {
                            trap_tiles: entries.update(
                                idx,
                                TrapTileEntry { pos, tile: TrapTile::Built(builder.spec_built()) },
                            ),
                            player: Player {
                                gold: Gold {
                                    value: (old(self).player.gold.value
                                        - builder.spec_gold_cost()) as u64,
                                    ..old(self).player.gold
                                },
                                ..old(self).player
                            },
                            ..old(self)@
                        }
                    } else {
                        &&& r == false
                        &&& *final(self) == *old(self)
                    }
                } else {
                    &&& r == false
                    &&& *final(self) == *old(self)
                }
            }),
    {
        let ghost entries = self.trap_tiles@;
        let mut i: usize = 0;
        while i < self.trap_tiles.len()
            invariant
                *self == *old(self),
                entries == self.trap_tiles@,
                i <= entries.len(),
                old(self).wf(),
                forall|k: int| 0 <= k < i ==> (#[trigger] entries[k]).pos != pos,
            decreases entries.len() - i,
        {
            let entry = self.trap_tiles[i];
            if entry.pos.x == pos.x && entry.pos.y == pos.y {
                proof {
                    assert(entries[i as int].pos == pos);
                    assert(spec_has_tile(entries, pos));
                    let idx = spec_tile_index(entries, pos);
                    // uniqueness pins the chosen index to the found one
                    assert(0 <= idx < entries.len() && entries[idx].pos == pos);
                    assert(idx == i as int);
                }
                match entry.tile {
                    TrapTile::Built(_) => {
                        return false;
                    },
                    TrapTile::ToBeBuild(builder) => {
                        let built = builder.try_build(&mut self.player.gold.value);
                        match built {
                            Some(trap) => {
                                let slot = &mut self.trap_tiles[i];
                                *slot = TrapTileEntry { pos, tile: TrapTile::Built(trap) };
                                return true;
                            },
                            None => {
                                return false;
                            },
                        }
                    },
                }
            }
            i = i + 1;
        }
        proof {
            assert(!spec_has_tile(entries, pos));
        }
        false
    }
}

} // verus!

verus! {

/// The whole state after the run-clock bookkeeping.
pub open spec fn spec_clock_phase(s: StateView, delta: u64) -> StateView {
    if s.is_paused {
        s
    } else {
        StateView {
            run_length_ms: spec_add_capped(
                s.run_length_ms as int,
                delta as int,
                u64::MAX as int,
            ) as u64,
            ..s
        }
    }
}

/// One full simulated tick: the fixed step order the simulation promises.
/// Drains and trap effects resolve, and deaths are culled and paid out,
/// before enemies move and before new enemies spawn: a kill never also
/// deals border damage, and a dying enemy never contributes to this
/// tick's movement.  The result is a function of the state and the
/// tick's inputs alone, so resuming after a pause of any real length
/// advances the state by exactly the next supplied `delta`.
pub open spec fn spec_tick(s: StateView, delta: u64, g: Grid, row_seed: u32) -> StateView {
    let s1 = spec_clock_phase(s, delta);
    let s2 = spec_dot_phase(s1, delta);
    let s3 = spec_trap_phase(s2, delta, g);
    let s4 = spec_cleanup_phase(s3);
    let s5 = spec_spawn_phase(s4, delta, g, row_seed);
    let s6 = spec_move_phase(s5, delta, g);
    let s7 = spec_dead_player_phase(s6);
    spec_interest_phase(s7, delta)
}

impl GameState {
    /// Run one simulated tick of `delta_ms` milliseconds, in the fixed
    /// order: advance the run clock; apply damage-over-time; activate
    /// traps; remove dead enemies, crediting their rewards; run the
    /// spawner (progression first); move the remaining enemies, dealing
    /// border damage; check for the player's death; accrue gold interest.
    /// Every step but the death check is a no-op while paused.  `g` is
    /// the current camera anchor and `row_seed` the injected randomness
    /// for a possible spawn.
    pub fn simulate_tick(&mut self, delta_ms: u64, g: &Grid, row_seed: u32)
        requires
            old(self).wf(),
            delta_ms <= MAX_TICK_MS,
            g.wf(),
        ensures
            final(self)@ =~= spec_tick(old(self)@, delta_ms, *g, row_seed),
            final(self).wf(),
    {
        self.passage_of_time(delta_ms);
        proof {
            assert(self@ =~= spec_clock_phase(old(self)@, delta_ms));
            assert(self@.wf());
        }
        self.deal_damage_over_time_to_enemies(delta_ms);
        self.activate_traps(delta_ms, g);
        self.cleanup_dead_enemies();
        self.spawn_enemies(delta_ms, g, row_seed);
        self.move_enemies_and_deal_damage_to_player(delta_ms, g);
        self.check_dead_player();
        self.apply_gold_interest(delta_ms);
    }
}

/// Every enemy the cull lets through is alive.
proof fn lemma_surviving_alive(es: Seq<EnemyView>)
    ensures
        forall|j: int|
            0 <= j < spec_surviving(es).len() ==> !(#[trigger] spec_surviving(
                es,
            )[j]).hp.spec_is_dead(),
    decreases es.len(),
{
    if es.len() > 0 {
        lemma_surviving_alive(es.drop_last());
        let rest = spec_surviving(es.drop_last());
        assert forall|j: int|
            0 <= j < spec_surviving(es).len() implies !(#[trigger] spec_surviving(
            es,
        )[j]).hp.spec_is_dead() by {
            if es.last().hp.spec_is_dead() || j < rest.len() {
                assert(spec_surviving(es)[j] == rest[j]);
                assert(!rest[j].hp.spec_is_dead());
            } else {
                assert(spec_surviving(es)[j] == es.last());
            }
        }
    }
}

/// The cull's summed reward is never negative.
proof fn lemma_kill_reward_nonneg(es: Seq<EnemyView>)
    ensures
        spec_kill_reward(es) >= 0,
    decreases es.len(),
{
    if es.len() > 0 {
        lemma_kill_reward_nonneg(es.drop_last());
    }
}

/// A dead enemy's reward is part of the cull's summed reward.
proof fn lemma_kill_reward_includes(es: Seq<EnemyView>, i: int)
    requires
        0 <= i < es.len(),
        es[i].hp.spec_is_dead(),
    ensures
        spec_kill_reward(es) >= es[i].gold_for_kill,
    decreases es.len(),
{
    lemma_kill_reward_nonneg(es.drop_last());
    if i < es.len() - 1 {
        lemma_kill_reward_includes(es.drop_last(), i);
        assert(es.drop_last()[i] == es[i]);
    }
}

/// Crediting each dead enemy's reward in turn amounts to crediting the
/// summed reward once, under the same purse cap.
proof fn lemma_cleanup_gold_total(gold: Gold, es: Seq<EnemyView>)
    requires
        gold.value <= MAX_STAT,
    ensures
        spec_cleanup_gold(gold, es) == (Gold {
            value: spec_add_capped(gold.value as int, spec_kill_reward(es), MAX_STAT as int) as u64,
            ..gold
        }),
    decreases es.len(),
{
    if es.len() == 0 {
    } else {
        lemma_cleanup_gold_total(gold, es.drop_last());
        lemma_kill_reward_nonneg(es.drop_last());
    }
}

/// Law (death before payout): an enemy that is dead once the drain and
/// trap steps of a tick have resolved is taken out by the cull, which
/// runs before movement: it is absent from the enemy list the movement
/// step advances (so it deals no border damage and moves no further),
/// every enemy that list still holds is alive, and the cull pays the
/// player the summed reward of all the dead — the killed enemy's reward
/// among it — under the purse cap.
pub proof fn lemma_death_before_payout(s: StateView, delta: u64, g: Grid, i: int)
    requires
        s.wf(),
        !s.is_paused,
        ({
            let mid = spec_trap_phase(spec_dot_phase(spec_clock_phase(s, delta), delta), delta, g);
            &&& 0 <= i < mid.enemies.len()
            &&& mid.enemies[i].hp.spec_is_dead()
            &&& mid.player.gold.value <= MAX_STAT
        }),
    ensures
        ({
            let mid = spec_trap_phase(spec_dot_phase(spec_clock_phase(s, delta), delta), delta, g);
            let culled = spec_cleanup_phase(mid);
            &&& !culled.enemies.contains(mid.enemies[i])
            &&& forall|j: int|
                0 <= j < culled.enemies.len() ==> !(#[trigger] culled.enemies[j]).hp.spec_is_dead()
            &&& spec_kill_reward(mid.enemies) >= mid.enemies[i].gold_for_kill
            &&& culled.player.gold.value == spec_add_capped(
                mid.player.gold.value as int,
                spec_kill_reward(mid.enemies),
                MAX_STAT as int,
            )
        }),
{
    let mid = spec_trap_phase(spec_dot_phase(spec_clock_phase(s, delta), delta), delta, g);
    let culled = spec_cleanup_phase(mid);
    lemma_surviving_alive(mid.enemies);
    lemma_kill_reward_includes(mid.enemies, i);
    lemma_cleanup_gold_total(mid.player.gold, mid.enemies);
    if culled.enemies.contains(mid.enemies[i]) {
        let j = choose|j: int| 0 <= j < culled.enemies.len() && culled.enemies[j] == mid.enemies[i];
        assert(!culled.enemies[j].hp.spec_is_dead());
    }
}

/// Law (permanence of built traps): one tick never moves a trap tile and
/// never reverts a built trap to a pending configuration: the build state
/// machine only ever advances.
pub proof fn lemma_built_trap_permanent(s: StateView, delta: u64, g: Grid, row_seed: u32, k: int)
    requires
        0 <= k < s.trap_tiles.len(),
    ensures
        ({
            let r = spec_tick(s, delta, g, row_seed);
            &&& r.trap_tiles.len() == s.trap_tiles.len()
            &&& r.trap_tiles[k].pos == s.trap_tiles[k].pos
            &&& (s.trap_tiles[k].tile is Built ==> r.trap_tiles[k].tile is Built)
        }),
{
    let s1 = spec_clock_phase(s, delta);
    let s2 = spec_dot_phase(s1, delta);
    if !s2.is_paused {
        crate::trap::lemma_traps_prefix_preserves_state(
            s2.trap_tiles,
            s2.enemies,
            delta,
            g,
            s2.trap_tiles.len() as int,
            k,
        );
    }
}

/// Law (pause freeze): a tick taken while paused leaves every timer,
/// enemy, trap, purse and the run clock exactly as they were (only the
/// death check may still raise the game-over flag).  Together with
/// `spec_tick` being a function of the state and the supplied inputs
/// alone, resuming after an arbitrarily long real-time gap advances the
/// state by exactly the next supplied `delta`, never by the elapsed
/// pause duration.
pub proof fn lemma_pause_freezes(s: StateView, delta: u64, g: Grid, row_seed: u32)
    requires
        s.is_paused,
    ensures
        ({
            let r = spec_tick(s, delta, g, row_seed);
            &&& r.enemies == s.enemies
            &&& r.enemy_spawner == s.enemy_spawner
            &&& r.trap_tiles == s.trap_tiles
            &&& r.player == s.player
            &&& r.run_length_ms == s.run_length_ms
            &&& r.selected_tile == s.selected_tile
            &&& r.is_paused == s.is_paused
            &&& !s.player.hp.spec_is_dead() ==> r == s
        }),
{
}

} // verus!
