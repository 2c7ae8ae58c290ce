//! World-space to tile-space coordinate mapping.
//!
//! The playfield is a fixed `COLUMNS x ROWS` grid of square tiles, anchored
//! one tile in from the top-left corner of the visible area.  The anchor is
//! supplied by the caller on every query (the camera may move between
//! frames, so nothing here is cached), as a [`Grid`] value in micro-units.
//! `x` grows rightward and `y` grows upward in world space; tile indices
//! count rightward and upward from the bottom-left playfield corner.

use vstd::prelude::*;

use crate::fixed::ORIGIN_BOUND;

verus! {

/// Edge length of one tile, in micro-units of world space.
pub const TILE_SIZE: u64 = 1_000_000;

/// Number of tile rows in the playfield.
pub const ROWS: u32 = 5;

/// Number of tile columns in the playfield.
pub const COLUMNS: u32 = 28;

/// The camera anchor from which all grid geometry is derived: the world
/// coordinates of the top-left corner of the visible area, in micro-units.
#[derive(Clone, Copy, PartialEq, Eq, Structural, Debug)]
pub struct Grid {
    pub top_left_x: i64,
    pub top_left_y: i64,
}

/// A discrete grid coordinate: `x` in `[0, COLUMNS)`, `y` in `[0, ROWS)`.
/// The bounds are required where they matter rather than carried as a type
/// invariant, since out-of-range values never arise from the constructors.
#[derive(Clone, Copy, PartialEq, Eq, Structural, Debug)]
pub struct TileMapPos {
    pub x: u32,
    pub y: u32,
}

impl Grid {
    /// Validity: the anchor stays within [`ORIGIN_BOUND`] of the origin.
    pub open spec fn wf(self) -> bool {
        &&& -ORIGIN_BOUND <= self.top_left_x <= ORIGIN_BOUND
        &&& -ORIGIN_BOUND <= self.top_left_y <= ORIGIN_BOUND
    }

    /// An anchor taken from the current camera position.
    pub fn new(top_left_x: i64, top_left_y: i64) -> (r: Grid)
        requires
            -ORIGIN_BOUND <= top_left_x <= ORIGIN_BOUND,
            -ORIGIN_BOUND <= top_left_y <= ORIGIN_BOUND,
        ensures
            r == (Grid { top_left_x, top_left_y }),
            r.wf(),
    {
        Grid { top_left_x, top_left_y }
    }
}

/// Left edge of the playfield: one tile margin right of the anchor.
pub open spec fn spec_x_min(g: Grid) -> int {
    g.top_left_x + TILE_SIZE
}

/// Right edge of the playfield.
pub open spec fn spec_x_max(g: Grid) -> int {
    spec_x_min(g) + COLUMNS * TILE_SIZE
}

/// Top edge of the playfield: one tile margin below the anchor.
pub open spec fn spec_y_max(g: Grid) -> int {
    g.top_left_y - TILE_SIZE
}

/// Bottom edge of the playfield.
pub open spec fn spec_y_min(g: Grid) -> int {
    spec_y_max(g) - ROWS * TILE_SIZE
}

/// World-space left edge of the playfield.
pub fn x_min(g: &Grid) -> (r: i64)
    requires
        g.wf(),
    ensures
        r == spec_x_min(*g),
{
    g.top_left_x + TILE_SIZE as i64
}

/// World-space right edge of the playfield; an enemy reaching it has
/// crossed the whole lane.
pub fn x_max(g: &Grid) -> (r: i64)
    requires
        g.wf(),
    ensures
        r == spec_x_max(*g),
{
    proof {
        assert((COLUMNS as i64) * (TILE_SIZE as i64) == 28_000_000i64) by (nonlinear_arith)
            requires
                COLUMNS == 28u32,
                TILE_SIZE == 1_000_000u64,
        ;
    }
    x_min(g) + (COLUMNS as i64) * (TILE_SIZE as i64)
}

/// World-space top edge of the playfield.
pub fn y_max(g: &Grid) -> (r: i64)
    requires
        g.wf(),
    ensures
        r == spec_y_max(*g),
{
    g.top_left_y - TILE_SIZE as i64
}

/// World-space bottom edge of the playfield.
pub fn y_min(g: &Grid) -> (r: i64)
    requires
        g.wf(),
    ensures
        r == spec_y_min(*g),
{
    proof {
        assert((ROWS as i64) * (TILE_SIZE as i64) == 5_000_000i64) by (nonlinear_arith)
            requires
                ROWS == 5u32,
                TILE_SIZE == 1_000_000u64,
        ;
    }
    y_max(g) - (ROWS as i64) * (TILE_SIZE as i64)
}

/// The column holding world coordinate `x`, if any: offsets from the left
/// edge are floored onto tile indices, and anything left of the edge or at
/// or beyond the right edge has no column.
pub open spec fn spec_x_from_absolute(g: Grid, x: int) -> Option<u32> {
    if spec_x_min(g) <= x < spec_x_max(g) {
        Some((((x - spec_x_min(g)) / (TILE_SIZE as int)) as u32))
    } else {
        None
    }
}

/// The row holding world coordinate `y`, if any.
pub open spec fn spec_y_from_absolute(g: Grid, y: int) -> Option<u32> {
    if spec_y_min(g) <= y < spec_y_min(g) + ROWS * TILE_SIZE {
        Some((((y - spec_y_min(g)) / (TILE_SIZE as int)) as u32))
    } else {
        None
    }
}

/// Helper shared by both axes: the index of `v` above `low` in a run of
/// `count` tiles, if it falls inside the run.
fn axis_from_absolute(low: i64, v: i64, count: u32) -> (r: Option<u32>)
    requires
        -2 * ORIGIN_BOUND <= low <= 2 * ORIGIN_BOUND,
        count <= 1000,
    ensures
        r == if low <= v < low + count * TILE_SIZE {
            Some((((v - low) / (TILE_SIZE as int)) as u32))
        } else {
            None::<u32>
        },
{
    let offset: i128 = v as i128 - low as i128;
    if offset < 0 {
        return None;
    }
    let q: i128 = offset / TILE_SIZE as i128;
    proof {
        assert((v - low) / (TILE_SIZE as int) < count <==> v - low < count * TILE_SIZE)
            by (nonlinear_arith)
            requires
                v - low >= 0,
                TILE_SIZE == 1_000_000u64,
                count <= 1000u32,
        ;
        assert(0 <= (v - low) / (TILE_SIZE as int)) by (nonlinear_arith)
            requires
                v - low >= 0,
                TILE_SIZE == 1_000_000u64,
        ;
    }
    if q >= count as i128 {
        None
    } else {
        Some(q as u32)
    }
}

/// The column holding world coordinate `x`, if it lies on the playfield.
pub fn x_from_absolute(g: &Grid, x: i64) -> (r: Option<u32>)
    requires
        g.wf(),
    ensures
        r == spec_x_from_absolute(*g, x as int),
        r is Some ==> r->0 < COLUMNS,
{
    axis_from_absolute(x_min(g), x, COLUMNS)
}

/// The row holding world coordinate `y`, if it lies on the playfield.
pub fn y_from_absolute(g: &Grid, y: i64) -> (r: Option<u32>)
    requires
        g.wf(),
    ensures
        r == spec_y_from_absolute(*g, y as int),
        r is Some ==> r->0 < ROWS,
{
    axis_from_absolute(y_min(g), y, ROWS)
}

/// Left edge of column `x` in world space.
pub open spec fn spec_x_into_absolute_start(g: Grid, x: u32) -> int {
    spec_x_min(g) + x * TILE_SIZE
}

/// Centre of column `x` in world space.
pub open spec fn spec_x_into_absolute_mid(g: Grid, x: u32) -> int {
    spec_x_into_absolute_start(g, x) + TILE_SIZE / 2
}

/// Bottom edge of row `y` in world space.
pub open spec fn spec_y_into_absolute_start(g: Grid, y: u32) -> int {
    spec_y_min(g) + y * TILE_SIZE
}

/// Centre of row `y` in world space.
pub open spec fn spec_y_into_absolute_mid(g: Grid, y: u32) -> int {
    spec_y_into_absolute_start(g, y) + TILE_SIZE / 2
}

/// World-space left edge of column `x`.
pub fn x_into_absolute_start(g: &Grid, x: u32) -> (r: i64)
    requires
        g.wf(),
        x <= COLUMNS,
    ensures
        r == spec_x_into_absolute_start(*g, x),
{
    x_min(g) + (x as i64) * (TILE_SIZE as i64)
}

/// World-space centre of column `x`.
pub fn x_into_absolute_mid(g: &Grid, x: u32) -> (r: i64)
    requires
        g.wf(),
        x < COLUMNS,
    ensures
        r == spec_x_into_absolute_mid(*g, x),
{
    x_into_absolute_start(g, x) + (TILE_SIZE / 2) as i64
}

/// World-space right edge of column `x`.
pub fn x_into_absolute_end(g: &Grid, x: u32) -> (r: i64)
    requires
        g.wf(),
        x < COLUMNS,
    ensures
        r == spec_x_into_absolute_start(*g, x) + TILE_SIZE,
{
    x_into_absolute_start(g, x) + TILE_SIZE as i64
}

/// World-space bottom edge of row `y`.
pub fn y_into_absolute_start(g: &Grid, y: u32) -> (r: i64)
    requires
        g.wf(),
        y <= ROWS,
    ensures
        r == spec_y_into_absolute_start(*g, y),
{
    y_min(g) + (y as i64) * (TILE_SIZE as i64)
}

/// World-space centre of row `y`.
pub fn y_into_absolute_mid(g: &Grid, y: u32) -> (r: i64)
    requires
        g.wf(),
        y < ROWS,
    ensures
        r == spec_y_into_absolute_mid(*g, y),
{
    y_into_absolute_start(g, y) + (TILE_SIZE / 2) as i64
}

/// World-space top edge of row `y`.
pub fn y_into_absolute_end(g: &Grid, y: u32) -> (r: i64)
    requires
        g.wf(),
        y < ROWS,
    ensures
        r == spec_y_into_absolute_start(*g, y) + TILE_SIZE,
{
    y_into_absolute_start(g, y) + TILE_SIZE as i64
}

/// The tile holding a world-space point, if it lies on the playfield.
pub open spec fn spec_tile_from_absolute(g: Grid, x: int, y: int) -> Option<TileMapPos> {
    match (spec_x_from_absolute(g, x), spec_y_from_absolute(g, y)) {
        (Some(tx), Some(ty)) => Some(TileMapPos { x: tx, y: ty }),
        _ => None,
    }
}

/// Whether tile `t` lies on the playfield within Chebyshev distance
/// `radius` of `center`: the target shape of an area trap.
pub open spec fn spec_in_area(center: TileMapPos, radius: u32, t: TileMapPos) -> bool {
    &&& t.x < COLUMNS
    &&& t.y < ROWS
    &&& center.x - radius <= t.x <= center.x + radius
    &&& center.y - radius <= t.y <= center.y + radius
}

impl TileMapPos {
    pub fn new(x: u32, y: u32) -> (r: TileMapPos)
        ensures
            r == (TileMapPos { x, y }),
    {
        TileMapPos { x, y }
    }

    /// The tile holding a world-space point, if it lies on the playfield.
    pub fn from_absolute(g: &Grid, x: i64, y: i64) -> (r: Option<TileMapPos>)
        requires
            g.wf(),
        ensures
            r == spec_tile_from_absolute(*g, x as int, y as int),
            r is Some ==> r->0.x < COLUMNS && r->0.y < ROWS,
    {
        let tx = match x_from_absolute(g, x) {
            Some(tx) => tx,
            None => {
                return None;
            },
        };
        let ty = match y_from_absolute(g, y) {
            Some(ty) => ty,
            None => {
                return None;
            },
        };
        Some(TileMapPos { x: tx, y: ty })
    }

    /// World-space bottom-left corner of the tile.
    pub fn into_absolute_start(self, g: &Grid) -> (r: (i64, i64))
        requires
            g.wf(),
            self.x < COLUMNS,
            self.y < ROWS,
        ensures
            r.0 == spec_x_into_absolute_start(*g, self.x),
            r.1 == spec_y_into_absolute_start(*g, self.y),
    {
        (x_into_absolute_start(g, self.x), y_into_absolute_start(g, self.y))
    }

    /// World-space top-right corner of the tile.
    pub fn into_absolute_end(self, g: &Grid) -> (r: (i64, i64))
        requires
            g.wf(),
            self.x < COLUMNS,
            self.y < ROWS,
        ensures
            r.0 == spec_x_into_absolute_start(*g, self.x) + TILE_SIZE,
            r.1 == spec_y_into_absolute_start(*g, self.y) + TILE_SIZE,
    {
        (x_into_absolute_end(g, self.x), y_into_absolute_end(g, self.y))
    }

    /// World-space centre of the tile.
    pub fn into_absolute_mid(self, g: &Grid) -> (r: (i64, i64))
        requires
            g.wf(),
            self.x < COLUMNS,
            self.y < ROWS,
        ensures
            r.0 == spec_x_into_absolute_mid(*g, self.x),
            r.1 == spec_y_into_absolute_mid(*g, self.y),
    {
        (x_into_absolute_mid(g, self.x), y_into_absolute_mid(g, self.y))
    }

    /// Every playfield tile within Chebyshev distance `radius` of `self`,
    /// clipped to the grid bounds.
    pub fn area_til_distance(self, radius: u32) -> (r: Vec<TileMapPos>)
        ensures
            forall|t: TileMapPos| r@.contains(t) <==> spec_in_area(self, radius, t),
            r@.no_duplicates(),
    {
        broadcast use vstd::seq_lib::lemma_seq_contains_after_push;

        let mut result: Vec<TileMapPos> = Vec::new();
        let mut x: u32 = 0;
        while x < COLUMNS
            invariant
                x <= COLUMNS,
                forall|t: TileMapPos|
                    result@.contains(t) <==> (spec_in_area(self, radius, t) && t.x < x),
                result@.no_duplicates(),
            decreases COLUMNS - x,
        {
            let mut y: u32 = 0;
            while y < ROWS
                invariant
                    x < COLUMNS,
                    y <= ROWS,
                    forall|t: TileMapPos|
                        result@.contains(t) <==> (spec_in_area(self, radius, t) && (t.x < x || (
                        t.x == x && t.y < y))),
                    result@.no_duplicates(),
                decreases ROWS - y,
            {
                let in_x = self.x.saturating_sub(radius) <= x && x as u64 <= self.x as u64
                    + radius as u64;
                let in_y = self.y.saturating_sub(radius) <= y && y as u64 <= self.y as u64
                    + radius as u64;
                let ghost prev = result@;
                let candidate = TileMapPos { x, y };
                if in_x && in_y {
                    result.push(candidate);
                }
                proof {
                    assert(in_x && in_y ==> spec_in_area(self, radius, candidate));
                    assert(!(in_x && in_y) ==> !spec_in_area(self, radius, candidate));
                    assert(!prev.contains(candidate));
                    if in_x && in_y {
                        assert forall|a: int, b: int|
                            0 <= a < result@.len() && 0 <= b < result@.len() && a != b implies result@[a]
                            != result@[b] by {
                            if a < prev.len() && b < prev.len() {
                                assert(result@[a] == prev[a] && result@[b] == prev[b]);
                            } else if b == prev.len() {
                                assert(result@[b] == candidate && result@[a] == prev[a]);
                                assert(prev[a] != candidate);
                            } else {
                                assert(result@[a] == candidate && result@[b] == prev[b]);
                                assert(prev[b] != candidate);
                            }
                        }
                        assert(result@.no_duplicates());
                    }
                    assert forall|t: TileMapPos|
                        result@.contains(t) <==> (spec_in_area(self, radius, t) && (t.x < x || (t.x
                            == x && t.y < y + 1))) by {
                        if in_x && in_y {
                            vstd::seq_lib::lemma_seq_contains_after_push(prev, candidate, t);
                            assert(result@ == prev.push(candidate));
                        }
                        assert(result@.contains(t) <==> (prev.contains(t) || (in_x && in_y && t
                            == candidate)));
                    }
                }
                y = y + 1;
            }
            x = x + 1;
        }
        result
    }
}

/// Law: the grid mapping round-trips.  For every tile on the playfield,
/// mapping its world-space centre back through `from_absolute` yields
/// exactly that tile, whatever the camera anchor.
pub proof fn lemma_grid_round_trip(g: Grid, t: TileMapPos)
    requires
        g.wf(),
        t.x < COLUMNS,
        t.y < ROWS,
    ensures
        spec_tile_from_absolute(
            g,
            spec_x_into_absolute_mid(g, t.x),
            spec_y_into_absolute_mid(g, t.y),
        ) == Some(t),
{
    let ts = TILE_SIZE as int;
    assert((t.x * TILE_SIZE + TILE_SIZE / 2) / ts == t.x && t.x * TILE_SIZE + TILE_SIZE / 2
        < COLUMNS * TILE_SIZE) by (nonlinear_arith)
        requires
            t.x < COLUMNS,
            ts == 1_000_000,
            TILE_SIZE == 1_000_000u64,
            COLUMNS == 28u32,
    ;
    assert((t.y * TILE_SIZE + TILE_SIZE / 2) / ts == t.y && t.y * TILE_SIZE + TILE_SIZE / 2 < ROWS
        * TILE_SIZE) by (nonlinear_arith)
        requires
            t.y < ROWS,
            ts == 1_000_000,
            TILE_SIZE == 1_000_000u64,
            ROWS == 5u32,
    ;
}

} // verus!
