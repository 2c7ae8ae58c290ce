//! Fixed-point units and the capped arithmetic the simulation runs on.
//!
//! Conventions used throughout the crate:
//! - time: milliseconds (`u64`);
//! - magnitudes (damage rates, speeds, slow strengths, gold): milli-units,
//!   that is, fixed point with [`SCALE`] sub-units per whole unit;
//! - accumulating pools (hit points, world positions): micro-units, so
//!   that `rate [milli/s] * time [ms]` is exactly a micro-unit amount.
//!
//! Every magnitude is capped at [`MAX_STAT`], every timer duration at
//! [`MAX_TIMER_MS`], and every tick at [`MAX_TICK_MS`]; together these
//! bounds make all per-tick arithmetic provably free of overflow.

use vstd::prelude::*;

verus! {

/// Sub-units per whole unit of a milli-unit magnitude.
pub const SCALE: u64 = 1000;

/// Largest admitted magnitude (milli- or micro-units alike).
pub const MAX_STAT: u64 = 1_000_000_000_000;

/// Largest admitted single tick, in milliseconds.
pub const MAX_TICK_MS: u64 = 1_000_000;

/// Largest admitted timer duration, in milliseconds.
pub const MAX_TIMER_MS: u64 = 1_000_000_000;

/// Largest single hit applied to a hit-point pool, in micro-units.
/// A damage-over-time effect deals at most
/// `MAX_STAT * MAX_TICK_MS == MAX_HIT / 4` in one tick.
pub const MAX_HIT: u64 = 4_000_000_000_000_000_000;

/// Saturation floor for a hit-point pool, in micro-units.  A pool never
/// drops below this value; any value at or below zero already counts as
/// dead, so the floor is unobservable in play and only bounds arithmetic.
pub const HP_FLOOR: i64 = -4_000_000_000_000_000_000;

/// Bound on world coordinates, in micro-units.  Positions saturate here.
pub const WORLD_BOUND: i64 = 2_000_000_000_000_000_000;

/// Bound on the camera anchor handed to the grid, in micro-units.
pub const ORIGIN_BOUND: i64 = 1_000_000_000_000_000;

/// `a + b`, capped at `cap`.
pub open spec fn spec_add_capped(a: int, b: int, cap: int) -> int {
    if a + b > cap {
        cap
    } else {
        a + b
    }
}

/// Saturating addition with an explicit ceiling.
pub fn add_capped(a: u64, b: u64, cap: u64) -> (r: u64)
    ensures
        r == spec_add_capped(a as int, b as int, cap as int),
{
    if b > cap || a > cap - b {
        cap
    } else {
        a + b
    }
}

/// `v` grown by `rate` (milli-units per unit), capped at [`MAX_STAT`]:
/// the one-firing progression step `v * (SCALE + rate) / SCALE`.
pub open spec fn spec_grown(v: int, rate: int) -> int {
    let grown = v * (SCALE + rate) / (SCALE as int);
    if grown > MAX_STAT {
        MAX_STAT as int
    } else {
        grown
    }
}

/// One multiplicative progression step on a magnitude.
pub fn grow(v: u64, rate: u64) -> (r: u64)
    requires
        v <= MAX_STAT,
        rate <= SCALE,
    ensures
        r == spec_grown(v as int, rate as int),
        r <= MAX_STAT,
{
    proof {
        assert((v as int) * ((SCALE + rate) as int) <= 1_000_000_000_000int * 2000int)
            by (nonlinear_arith)
            requires
                v <= 1_000_000_000_000u64,
                rate <= 1000u64,
                SCALE == 1000u64,
        ;
    }
    let grown = v * (SCALE + rate) / SCALE;
    if grown > MAX_STAT {
        MAX_STAT
    } else {
        grown
    }
}

} // verus!
