//! Timers, hit points, and the per-enemy effect arithmetic: the
//! duration-capped drain and the compounding slows.

use trapify::enemy::{DamageOverTimeEffect, Enemy, SlowEffect};
use trapify::hit_points::HitPoints;
use trapify::tile_map::{x_into_absolute_mid, x_min, y_into_absolute_mid, Grid, TileMapPos};
use trapify::timer::Timer;

fn camera() -> Grid {
    Grid::new(-15_000_000, 3_500_000)
}

fn enemy_at(g: &Grid, tile_x: u32, tile_y: u32, hp: u64, speed: u64) -> Enemy {
    Enemy {
        hp: HitPoints::new_full(hp),
        speed,
        damage: 3_000_000,
        position_x: x_into_absolute_mid(g, tile_x),
        position_y: y_into_absolute_mid(g, tile_y),
        size: 500_000,
        damage_over_time_effects: Vec::new(),
        gold_for_kill: 1_000,
        slow_effects: Vec::new(),
    }
}

fn fresh_dot(duration_ms: u64, rate: u64) -> DamageOverTimeEffect {
    DamageOverTimeEffect { timer: Timer::from_millis(duration_ms, false), damage_per_second: rate }
}

fn fresh_slow(duration_ms: u64, strength: u64) -> SlowEffect {
    SlowEffect { timer: Timer::from_millis(duration_ms, false), strength }
}

#[test]
fn repeating_timer_wraps_its_overshoot() {
    let mut t = Timer::from_millis(1_000, true);
    t.tick(300);
    assert!(!t.just_finished);
    assert_eq!(t.elapsed_ms, 300);
    t.tick(800);
    assert!(t.just_finished);
    assert_eq!(t.elapsed_ms, 100);
    t.tick(100);
    assert!(!t.just_finished);
    assert_eq!(t.elapsed_ms, 200);
}

#[test]
fn one_shot_timer_finishes_exactly_once() {
    let mut t = Timer::from_millis(500, false);
    t.tick(700);
    assert!(t.just_finished);
    assert_eq!(t.elapsed_ms, 500);
    t.tick(100);
    assert!(!t.just_finished);
    assert_eq!(t.elapsed_ms, 500);
}

#[test]
fn shortening_a_timer_clamps_its_elapsed_time() {
    let mut t = Timer::from_millis(1_000, true);
    t.tick(800);
    t.set_duration(600);
    assert_eq!(t.duration_ms, 600);
    assert_eq!(t.elapsed_ms, 600);
    t.set_duration(900);
    assert_eq!(t.elapsed_ms, 600);
}

#[test]
fn per_mille_left_counts_down() {
    let mut t = Timer::from_millis(1_000, true);
    assert_eq!(t.per_mille_left(), 1000);
    t.tick(250);
    assert_eq!(t.per_mille_left(), 750);
}

#[test]
fn hit_points_deplete_and_reset() {
    let mut hp = HitPoints::new_full(12_000_000);
    hp.take_damage(5_000_000);
    assert!(!hp.is_dead());
    assert_eq!(hp.current, 7_000_000);
    assert_eq!(hp.remaining_fraction(), 583);
    hp.take_damage(5_000_000);
    assert!(!hp.is_dead());
    hp.take_damage(5_000_000);
    assert!(hp.is_dead());
    assert_eq!(hp.remaining_fraction(), 0);
    hp.reset();
    assert_eq!(hp.current, 12_000_000);
    assert_eq!(hp.remaining_fraction(), 1000);
}

#[test]
fn dot_total_damage_is_independent_of_tick_partitioning() {
    let g = camera();
    // rate 1.0 per second over a one-second lifetime: exactly 1.0 damage
    let mut fine = enemy_at(&g, 5, 2, 10_000_000, 0);
    fine.damage_over_time_effects.push(fresh_dot(1_000, 1_000));
    for _ in 0..10 {
        fine.apply_damage_over_time(100);
    }
    let mut coarse = enemy_at(&g, 5, 2, 10_000_000, 0);
    coarse.damage_over_time_effects.push(fresh_dot(1_000, 1_000));
    coarse.apply_damage_over_time(1_000);
    assert_eq!(fine.hp.current, 9_000_000);
    assert_eq!(coarse.hp.current, 9_000_000);
    assert!(fine.damage_over_time_effects.is_empty());
    assert!(coarse.damage_over_time_effects.is_empty());
}

#[test]
fn dot_never_deals_damage_past_its_duration() {
    let g = camera();
    let mut e = enemy_at(&g, 5, 2, 10_000_000, 0);
    e.damage_over_time_effects.push(fresh_dot(1_000, 1_000));
    e.apply_damage_over_time(700);
    assert_eq!(e.hp.current, 9_300_000);
    assert_eq!(e.damage_over_time_effects.len(), 1);
    // only 300 ms of lifetime remain: a 700 ms tick deals 0.3, not 0.7
    e.apply_damage_over_time(700);
    assert_eq!(e.hp.current, 9_000_000);
    assert!(e.damage_over_time_effects.is_empty());
    // a long-dead effect list deals nothing
    e.apply_damage_over_time(700);
    assert_eq!(e.hp.current, 9_000_000);
}

#[test]
fn dots_stack_without_merging() {
    let g = camera();
    let mut e = enemy_at(&g, 5, 2, 10_000_000, 0);
    e.damage_over_time_effects.push(fresh_dot(1_000, 1_000));
    e.damage_over_time_effects.push(fresh_dot(2_000, 500));
    e.apply_damage_over_time(500);
    // each effect ticks on its own schedule: 0.5 + 0.25 damage
    assert_eq!(e.hp.current, 9_250_000);
    assert_eq!(e.damage_over_time_effects.len(), 2);
}

#[test]
fn slows_compound_through_the_denominator() {
    let g = camera();
    let mut e = enemy_at(&g, 5, 2, 10_000_000, 1_000);
    let x0 = e.position_x;
    e.slow_effects.push(fresh_slow(500, 200));
    e.slow_effects.push(fresh_slow(10_000, 300));
    // both active: speed = 1000 * 1000 / (1000 + 200 + 300) = 666
    assert_eq!(e.move_and_deal_damage(100, &g), None);
    assert_eq!(e.position_x, x0 + 666 * 100);
    assert_eq!(e.slow_effects.len(), 2);
    // the first expires during this tick and no longer contributes:
    // speed = 1000 * 1000 / 1300 = 769
    let x1 = e.position_x;
    assert_eq!(e.move_and_deal_damage(500, &g), None);
    assert_eq!(e.position_x, x1 + 769 * 500);
    assert_eq!(e.slow_effects.len(), 1);
    assert_eq!(e.slow_effects[0].strength, 300);
}

#[test]
fn unslowed_enemy_moves_at_base_speed() {
    let g = camera();
    let mut e = enemy_at(&g, 5, 2, 10_000_000, 1_000);
    let x0 = e.position_x;
    assert_eq!(e.move_and_deal_damage(1_000, &g), None);
    assert_eq!(e.position_x, x0 + 1_000_000);
}

#[test]
fn reaching_the_far_edge_reports_border_damage() {
    let g = camera();
    let mut e = enemy_at(&g, 27, 2, 10_000_000, 1_000);
    // half a tile to go at one unit per second: one second crosses it
    assert_eq!(e.move_and_deal_damage(1_000, &g), Some(3_000_000));
}

#[test]
fn footprint_spans_two_tiles_on_a_boundary() {
    let g = camera();
    let mut e = enemy_at(&g, 0, 2, 10_000_000, 0);
    // centre the footprint exactly on the edge between columns 0 and 1
    e.position_x = x_min(&g) + 1_000_000;
    let tiles = e.on_tiles(&g);
    assert_eq!(tiles.len(), 2);
    assert!(tiles.contains(&TileMapPos::new(0, 2)));
    assert!(tiles.contains(&TileMapPos::new(1, 2)));
    assert!(e.on_tile(&g, TileMapPos::new(1, 2)));
    assert!(!e.on_tile(&g, TileMapPos::new(2, 2)));
    assert!(e.on_area(&g, TileMapPos::new(3, 2), 2));
    assert!(!e.on_area(&g, TileMapPos::new(3, 2), 1));
    assert!(!e.on_area(&g, TileMapPos::new(1, 0), 1));
}

#[test]
fn footprint_off_the_playfield_is_empty() {
    let g = camera();
    let mut e = enemy_at(&g, 0, 2, 10_000_000, 0);
    e.position_x = x_min(&g) - 2_000_000;
    assert!(e.on_tiles(&g).is_empty());
}
