//! Whole-state scenarios: the tick ordering, build gating, spawner
//! progression, pausing, and the passive economy.

use trapify::enemy::Enemy;
use trapify::hit_points::HitPoints;
use trapify::state::GameState;
use trapify::tile_map::{x_into_absolute_mid, y_into_absolute_mid, Grid, TileMapPos};
use trapify::timer::Timer;
use trapify::trap::{Trap, TrapBuilder, TrapTile, TrapTileEntry};

fn camera() -> Grid {
    Grid::new(-15_000_000, 3_500_000)
}

fn quiet_state() -> GameState {
    // a fresh run whose spawner will not fire during a short scenario
    let mut gs = GameState::new();
    gs.enemy_spawner.set_spawn_period_ms(1_000_000_000);
    gs
}

fn standing_enemy(g: &Grid, tile_x: u32, tile_y: u32, hp: u64, speed: u64) -> Enemy {
    Enemy {
        hp: HitPoints::new_full(hp),
        speed,
        damage: 3_000_000,
        position_x: x_into_absolute_mid(g, tile_x),
        position_y: y_into_absolute_mid(g, tile_y),
        size: 500_000,
        damage_over_time_effects: Vec::new(),
        gold_for_kill: 1_000,
        slow_effects: Vec::new(),
    }
}

fn built_simple(pos: TileMapPos, damage: u64) -> TrapTileEntry {
    TrapTileEntry {
        pos,
        tile: TrapTile::Built(Trap::Simple { cooldown: Timer::from_millis(1_000, true), damage }),
    }
}

#[test]
fn build_gating_one_gold_short_fails() {
    let mut gs = GameState::new();
    let pos = TileMapPos::new(3, 2);
    gs.ensure_tile(pos);
    // the default pending configuration costs ten gold
    gs.player.gold.value = 9_999;
    assert!(!gs.confirm_build(pos));
    assert_eq!(gs.player.gold.value, 9_999);
    assert!(matches!(gs.trap_tiles[0].tile, TrapTile::ToBeBuild(_)));
}

#[test]
fn build_gating_exact_gold_succeeds() {
    let mut gs = GameState::new();
    let pos = TileMapPos::new(3, 2);
    gs.ensure_tile(pos);
    gs.player.gold.value = 10_000;
    assert!(gs.confirm_build(pos));
    assert_eq!(gs.player.gold.value, 0);
    assert!(matches!(gs.trap_tiles[0].tile, TrapTile::Built(Trap::Simple { .. })));
}

#[test]
fn build_without_an_entry_or_twice_fails() {
    let mut gs = GameState::new();
    let pos = TileMapPos::new(3, 2);
    assert!(!gs.confirm_build(pos));
    gs.ensure_tile(pos);
    assert!(gs.confirm_build(pos));
    let gold_after = gs.player.gold.value;
    // a built tile never reverts and cannot be bought again
    assert!(!gs.confirm_build(pos));
    assert_eq!(gs.player.gold.value, gold_after);
    assert!(matches!(gs.trap_tiles[0].tile, TrapTile::Built(_)));
}

#[test]
fn pending_configuration_can_be_switched_until_built() {
    let mut gs = GameState::new();
    let pos = TileMapPos::new(7, 1);
    gs.ensure_tile(pos);
    assert!(gs.set_pending_builder(pos, TrapBuilder::default_slow()));
    assert!(matches!(gs.trap_tiles[0].tile, TrapTile::ToBeBuild(TrapBuilder::Slow { .. })));
    assert!(gs.confirm_build(pos));
    assert_eq!(gs.player.gold.value, 100_000 - 30_000);
    assert!(!gs.set_pending_builder(pos, TrapBuilder::default_simple()));
}

#[test]
fn ensure_tile_is_idempotent() {
    let mut gs = GameState::new();
    let pos = TileMapPos::new(7, 1);
    gs.ensure_tile(pos);
    gs.ensure_tile(pos);
    assert_eq!(gs.trap_tiles.len(), 1);
}

#[test]
fn try_build_debits_the_exact_cost() {
    let builder = TrapBuilder::default_damage_over_time();
    let mut gold: u64 = 25_000;
    let trap = builder.try_build(&mut gold);
    assert!(matches!(trap, Some(Trap::DamageOverTime { .. })));
    assert_eq!(gold, 5_000);
    let denied = builder.try_build(&mut gold);
    assert!(denied.is_none());
    assert_eq!(gold, 5_000);
}

#[test]
fn builder_names_follow_their_kind() {
    assert_eq!(TrapBuilder::default_simple().name(), "Simple");
    assert_eq!(TrapBuilder::default_damage_over_time().name(), "DOT");
    assert_eq!(TrapBuilder::default_slow().name(), "Slow");
}

#[test]
fn progression_compounds_geometrically() {
    let mut gs = quiet_state();
    let g = camera();
    // 10 hp growing by 30% per firing: 10 * 1.3 * 1.3 = 16.9
    gs.spawn_enemies(30_000, &g, 0);
    gs.spawn_enemies(30_000, &g, 0);
    let spawner = &gs.enemy_spawner;
    assert_eq!(spawner.maximum_hp, 16_900_000);
    assert_eq!(spawner.speed, 1_210);
    assert_eq!(spawner.damage, 4_320_000);
    assert_eq!(spawner.gold_for_kill, 1_210);
}

#[test]
fn third_generation_enemies_spawn_with_grown_stats() {
    let mut gs = GameState::new();
    let g = camera();
    // each call fires the progression once and then spawns one enemy
    gs.enemy_spawner.set_spawn_period_ms(30_000);
    gs.spawn_enemies(30_000, &g, 0);
    gs.spawn_enemies(30_000, &g, 1);
    assert_eq!(gs.enemies.len(), 2);
    assert_eq!(gs.enemies[0].hp.maximum, 13_000_000);
    assert_eq!(gs.enemies[1].hp.maximum, 16_900_000);
    // the already-alive first enemy was not retouched
    assert_eq!(gs.enemies[0].hp.current, 13_000_000);
}

#[test]
fn spawner_places_enemies_on_the_seeded_row() {
    let mut gs = GameState::new();
    let g = camera();
    gs.spawn_enemies(1_000, &g, 7);
    assert_eq!(gs.enemies.len(), 1);
    let e = &gs.enemies[0];
    // row 7 % 5 == 2, just left of the playfield
    assert_eq!(e.position_y, y_into_absolute_mid(&g, 2));
    assert_eq!(e.position_x, -14_000_000 - 250_000);
    assert_eq!(e.size, 500_000);
    assert!(e.damage_over_time_effects.is_empty());
    assert!(e.slow_effects.is_empty());
}

#[test]
fn three_trap_firings_kill_and_pay_once() {
    let mut gs = quiet_state();
    let g = camera();
    let pos = TileMapPos::new(5, 2);
    // 12 hp against a 5-damage trap: dead on the third firing
    gs.enemies.push(standing_enemy(&g, 5, 2, 12_000_000, 0));
    gs.trap_tiles.push(built_simple(pos, 5_000_000));
    gs.simulate_tick(1_000, &g, 0);
    assert_eq!(gs.enemies.len(), 1);
    assert_eq!(gs.enemies[0].hp.current, 7_000_000);
    gs.simulate_tick(1_000, &g, 0);
    assert_eq!(gs.enemies[0].hp.current, 2_000_000);
    gs.simulate_tick(1_000, &g, 0);
    assert!(gs.enemies.is_empty());
    assert_eq!(gs.player.gold.value, 101_000);
    // killed, not leaked: the player's pool is untouched
    assert_eq!(gs.player.hp.current, 100_000_000);
    assert!(!gs.is_game_over);
}

#[test]
fn death_before_payout_at_the_border() {
    let mut gs = quiet_state();
    let g = camera();
    let pos = TileMapPos::new(27, 2);
    // fast enough to cross the last half tile this very tick, but the
    // trap kills it first: reward paid, no border damage, no movement
    let mut e = standing_enemy(&g, 27, 2, 1_000_000, 1_000);
    e.damage = 50_000_000;
    gs.enemies.push(e);
    gs.trap_tiles.push(built_simple(pos, 5_000_000));
    gs.simulate_tick(1_000, &g, 0);
    assert!(gs.enemies.is_empty());
    assert_eq!(gs.player.gold.value, 101_000);
    assert_eq!(gs.player.hp.current, 100_000_000);
}

#[test]
fn leaked_enemy_damages_the_player_without_reward() {
    let mut gs = quiet_state();
    let g = camera();
    let e = standing_enemy(&g, 27, 2, 1_000_000, 1_000);
    gs.enemies.push(e);
    gs.simulate_tick(1_000, &g, 0);
    assert!(gs.enemies.is_empty());
    assert_eq!(gs.player.hp.current, 100_000_000 - 3_000_000);
    assert_eq!(gs.player.gold.value, 100_000);
}

#[test]
fn slow_trap_covers_an_area() {
    let mut gs = quiet_state();
    let g = camera();
    gs.enemies.push(standing_enemy(&g, 6, 2, 12_000_000, 0));
    gs.enemies.push(standing_enemy(&g, 9, 2, 12_000_000, 0));
    gs.trap_tiles.push(TrapTileEntry {
        pos: TileMapPos::new(5, 2),
        tile: TrapTile::Built(Trap::Slow {
            cooldown: Timer::from_millis(1_000, true),
            duration_ms: 2_000,
            slow_effect: 200,
            area: 1,
        }),
    });
    gs.simulate_tick(1_000, &g, 0);
    // only the neighbour within one tile is slowed
    assert_eq!(gs.enemies[0].slow_effects.len(), 1);
    assert_eq!(gs.enemies[0].slow_effects[0].strength, 200);
    assert!(gs.enemies[1].slow_effects.is_empty());
}

#[test]
fn dot_trap_attaches_independent_effects() {
    let mut gs = quiet_state();
    let g = camera();
    gs.enemies.push(standing_enemy(&g, 5, 2, 12_000_000, 0));
    gs.trap_tiles.push(TrapTileEntry {
        pos: TileMapPos::new(5, 2),
        tile: TrapTile::Built(Trap::DamageOverTime {
            cooldown: Timer::from_millis(1_000, true),
            duration_ms: 2_000,
            damage_per_second: 2_000,
        }),
    });
    gs.simulate_tick(1_000, &g, 0);
    assert_eq!(gs.enemies[0].damage_over_time_effects.len(), 1);
    gs.simulate_tick(1_000, &g, 0);
    // the first effect drained 2.0 over its first second; a second,
    // unmerged effect was attached by the second firing
    assert_eq!(gs.enemies[0].damage_over_time_effects.len(), 2);
    assert_eq!(gs.enemies[0].hp.current, 10_000_000);
}

#[test]
fn pausing_freezes_every_timer_and_resuming_takes_one_plain_tick() {
    let mut gs = quiet_state();
    let g = camera();
    gs.enemies.push(standing_enemy(&g, 5, 2, 12_000_000, 1_000));
    gs.trap_tiles.push(built_simple(TileMapPos::new(20, 2), 5_000_000));
    gs.simulate_tick(400, &g, 0);
    let x_before = gs.enemies[0].position_x;
    let run_before = gs.run_length_ms;
    let spawn_elapsed = gs.enemy_spawner.timer.elapsed_ms;
    gs.toggle_pause();
    // an arbitrarily long real-time gap passes while paused
    gs.simulate_tick(987_654, &g, 3);
    gs.simulate_tick(555_555, &g, 4);
    assert_eq!(gs.enemies[0].position_x, x_before);
    assert_eq!(gs.enemies[0].hp.current, 12_000_000);
    assert_eq!(gs.run_length_ms, run_before);
    assert_eq!(gs.enemy_spawner.timer.elapsed_ms, spawn_elapsed);
    assert_eq!(gs.player.gold.value, 100_000);
    // resuming advances by exactly the next supplied delta, not the gap
    gs.toggle_pause();
    gs.simulate_tick(100, &g, 5);
    assert_eq!(gs.enemies[0].position_x, x_before + 1_000 * 100);
    assert_eq!(gs.run_length_ms, run_before + 100);
}

#[test]
fn interest_accrues_every_ten_seconds() {
    let mut gs = quiet_state();
    let g = camera();
    for _ in 0..10 {
        gs.simulate_tick(1_000, &g, 0);
    }
    // 10% of 100 gold, under the 50-gold cap
    assert_eq!(gs.player.gold.value, 110_000);
    assert_eq!(gs.run_length_ms, 10_000);
    assert_eq!(gs.run_length_parts(), (0, 10, 0));
}

#[test]
fn interest_gain_is_capped() {
    let mut gs = GameState::new();
    gs.player.gold.value = 1_000_000_000;
    assert_eq!(gs.player.gold.interest_to_gain(), 50_000);
}

#[test]
fn default_spawn_cadence_is_one_per_second() {
    let mut gs = GameState::new();
    let g = camera();
    for seed in 0..10u32 {
        gs.simulate_tick(1_000, &g, seed);
    }
    assert_eq!(gs.enemies.len(), 10);
}

#[test]
fn player_death_pauses_and_ends_the_run() {
    let mut gs = quiet_state();
    let g = camera();
    gs.player.hp = HitPoints::new_full(2_000_000);
    let e = standing_enemy(&g, 27, 2, 1_000_000, 1_000);
    gs.enemies.push(e);
    gs.simulate_tick(1_000, &g, 0);
    assert!(gs.player.hp.is_dead());
    assert!(gs.is_game_over);
    assert!(gs.is_paused);
}

#[test]
fn restart_returns_to_the_initial_state() {
    let mut gs = GameState::new();
    let g = camera();
    gs.simulate_tick(1_000, &g, 0);
    gs.toggle_pause();
    gs.restart();
    assert!(gs.enemies.is_empty());
    assert!(gs.trap_tiles.is_empty());
    assert!(!gs.is_paused);
    assert!(!gs.is_game_over);
    assert_eq!(gs.run_length_ms, 0);
    assert_eq!(gs.player.gold.value, 100_000);
    assert_eq!(gs.player.hp.current, 100_000_000);
}

#[test]
fn selecting_a_tile_follows_the_pointer() {
    let mut gs = GameState::new();
    let g = camera();
    let pos = TileMapPos::new(4, 1);
    let wx = x_into_absolute_mid(&g, 4);
    let wy = y_into_absolute_mid(&g, 1);
    assert_eq!(gs.select_tile(&g, wx, wy), Some(pos));
    assert_eq!(gs.selected_tile, Some(pos));
    assert_eq!(gs.select_tile(&g, wx, 100_000_000), None);
    assert_eq!(gs.selected_tile, None);
}

#[test]
fn run_length_splits_into_display_parts() {
    let mut gs = GameState::new();
    gs.run_length_ms = 61_230;
    assert_eq!(gs.run_length_parts(), (1, 1, 23));
    gs.run_length_ms = 3_599_990;
    assert_eq!(gs.run_length_parts(), (59, 59, 99));
}

#[test]
fn spawner_setters_retune_future_enemies() {
    let mut gs = quiet_state();
    let g = camera();
    gs.enemy_spawner.set_maximum_hp(20_000_000);
    gs.enemy_spawner.set_speed(2_000);
    gs.enemy_spawner.set_damage(4_000_000);
    gs.enemy_spawner.set_gold_for_kill(2_500);
    gs.enemy_spawner.set_spawn_period_ms(500);
    gs.enemy_spawner.set_progression_increases(500, 0, 0, 0);
    gs.spawn_enemies(500, &g, 0);
    let e = &gs.enemies[0];
    assert_eq!(e.hp.maximum, 20_000_000);
    assert_eq!(e.speed, 2_000);
    assert_eq!(e.damage, 4_000_000);
    assert_eq!(e.gold_for_kill, 2_500);
}

#[test]
fn trap_cooldown_can_be_retuned() {
    let mut trap = Trap::Simple { cooldown: Timer::from_millis(1_000, true), damage: 5_000_000 };
    trap.set_cooldown_ms(250);
    assert_eq!(trap.cooldown().duration_ms, 250);
    assert_eq!(trap.cooldown().elapsed_ms, 0);
}

#[test]
fn built_trap_parameters_can_be_retuned() {
    let mut trap = Trap::Slow {
        cooldown: Timer::from_millis(1_000, true),
        duration_ms: 2_000,
        slow_effect: 200,
        area: 1,
    };
    trap.set_slow_effect(450);
    trap.set_area(3);
    trap.set_duration_ms(3_000);
    assert!(matches!(
        trap,
        Trap::Slow { duration_ms: 3_000, slow_effect: 450, area: 3, .. }
    ));
    // setters for the wrong kind leave the trap untouched
    trap.set_damage(9_000_000);
    trap.set_damage_per_second(9_000);
    assert!(matches!(
        trap,
        Trap::Slow { duration_ms: 3_000, slow_effect: 450, area: 3, .. }
    ));
    let mut simple = Trap::Simple { cooldown: Timer::from_millis(1_000, true), damage: 5_000_000 };
    simple.set_damage(7_000_000);
    assert!(matches!(simple, Trap::Simple { damage: 7_000_000, .. }));
}

#[test]
fn default_state_matches_a_fresh_run() {
    let a = GameState::new();
    let b = GameState::default();
    assert_eq!(a.player.gold.value, b.player.gold.value);
    assert_eq!(a.player.hp.maximum, b.player.hp.maximum);
    assert_eq!(a.enemy_spawner.maximum_hp, b.enemy_spawner.maximum_hp);
    assert_eq!(b.enemies.len(), 0);
}
