//! Core of a lane-based tower-defense simulation.
//!
//! Enemies advance along a fixed axis across a rectangular grid of tiles
//! toward a defended edge; player-built traps occupying tiles periodically
//! damage, drain, or slow them.  The library owns the per-tick simulation:
//! entity state transitions (hit points, timed damage and slow effects),
//! tile-occupancy resolution, the trap build/activation state machine,
//! spawner progression, and the fixed per-tick step order.  Rendering,
//! input, and the host loop are external collaborators that call
//! [`state::GameState::simulate_tick`] once per frame and read the state
//! back for drawing.
//!
//! All quantities are fixed-point integers so that every transition is
//! exact and provable: time is counted in milliseconds, configured
//! magnitudes (rates, speeds, strengths, gold) carry three decimal places
//! (milli-units), and accumulating pools (hit points, world positions)
//! carry six (micro-units), so that a rate in milli-units per second
//! multiplied by a time in milliseconds lands exactly on a micro-unit.

pub mod enemy;
pub mod enemy_spawner;
pub mod fixed;
pub mod hit_points;
pub mod player;
pub mod state;
pub mod tile_map;
pub mod timer;
pub mod trap;

pub use fixed::MAX_STAT;
pub use fixed::MAX_TICK_MS;
pub use fixed::MAX_TIMER_MS;
pub use fixed::SCALE;
