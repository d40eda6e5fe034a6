//! The grid engine: a fixed-size toroidal grid of cells, the Game of Life
//! transition rule, and deterministic seeding from a fixed catalog of shapes.
//!
//! The grid is stored as a flat row-major buffer of booleans. All contracts
//! speak of cells through `cell(g, x, y)`, the value at column `x` of row `y`.

use vstd::prelude::*;

use crate::framebuffer::alive_color;
use crate::framebuffer::Framebuffer;

verus! {

/// Number of columns of the grid.
pub const WIDTH: usize = 100;
/// Number of rows of the grid.
pub const HEIGHT: usize = 100;
/// Number of cells: the grids are flat row-major buffers of this length.
pub const GRID_LEN: usize = WIDTH * HEIGHT;

/// A flat buffer is a well-formed grid when it holds exactly one boolean per cell.
pub open spec fn grid_wf(g: Seq<bool>) -> bool {
    g.len() == GRID_LEN
}

/// The cell at column `x` of row `y`, for in-range coordinates.
pub open spec fn cell(g: Seq<bool>, x: int, y: int) -> bool
    recommends
        grid_wf(g),
        0 <= x < WIDTH as int,
        0 <= y < HEIGHT as int,
{
    g[y * (WIDTH as int) + x]
}

/// Toroidal wrap of a coordinate that is off by at most one grid length:
/// the canonical representative of `i` modulo `n`.
pub open spec fn wrap(i: int, n: int) -> int
    recommends
        0 < n,
        -n <= i < 2 * n,
{
    if i < 0 {
        i + n
    } else if i >= n {
        i - n
    } else {
        i
    }
}

/// One where the cell is live, zero where it is dead.
pub open spec fn live_count(b: bool) -> int {
    if b {
        1
    } else {
        0
    }
}

/// Whether the wrapped neighbor of `(x, y)` in direction `(dx, dy)` is live.
pub open spec fn neighbor_live(g: Seq<bool>, x: int, y: int, dx: int, dy: int) -> bool
    recommends
        grid_wf(g),
        0 <= x < WIDTH as int,
        0 <= y < HEIGHT as int,
        -1 <= dx <= 1,
        -1 <= dy <= 1,
{
    cell(g, wrap(x + dx, WIDTH as int), wrap(y + dy, HEIGHT as int))
}

/// Number of live cells among the eight toroidal neighbors of `(x, y)`.
pub open spec fn live_neighbors(g: Seq<bool>, x: int, y: int) -> int
    recommends
        grid_wf(g),
        0 <= x < WIDTH as int,
        0 <= y < HEIGHT as int,
{
    live_count(neighbor_live(g, x, y, -1, -1)) + live_count(neighbor_live(g, x, y, 0, -1))
        + live_count(neighbor_live(g, x, y, 1, -1)) + live_count(neighbor_live(g, x, y, -1, 0))
        + live_count(neighbor_live(g, x, y, 1, 0)) + live_count(neighbor_live(g, x, y, -1, 1))
        + live_count(neighbor_live(g, x, y, 0, 1)) + live_count(neighbor_live(g, x, y, 1, 1))
}

/// The Game of Life rule for one cell: a live cell survives with exactly two
/// or three live neighbors; a dead cell is born with exactly three.
pub open spec fn next_cell(g: Seq<bool>, x: int, y: int) -> bool
    recommends
        grid_wf(g),
        0 <= x < WIDTH as int,
        0 <= y < HEIGHT as int,
{
    if cell(g, x, y) {
        live_neighbors(g, x, y) == 2 || live_neighbors(g, x, y) == 3
    } else {
        live_neighbors(g, x, y) == 3
    }
}

/// `h` is the generation that follows `g`: every cell of `h` is the rule
/// applied to the corresponding cell of `g`.
pub open spec fn is_step(g: Seq<bool>, h: Seq<bool>) -> bool {
    &&& grid_wf(g)
    &&& grid_wf(h)
    &&& forall|x: int, y: int|
        #![trigger cell(h, x, y)]
        0 <= x < WIDTH as int && 0 <= y < HEIGHT as int ==> cell(h, x, y) == next_cell(g, x, y)
}

/// The cells a blinker (three in a row) anchored at `(cx, cy)` covers.
pub open spec fn blinker_covers(cx: int, cy: int, x: int, y: int) -> bool {
    y == cy && (x == cx || x == cx + 1 || x == cx + 2)
}

/// The cells a vertical blinker (three in a column) anchored at `(cx, cy)` covers.
pub open spec fn blinker_vertical_covers(cx: int, cy: int, x: int, y: int) -> bool {
    x == cx && (y == cy || y == cy + 1 || y == cy + 2)
}

/// The cells a tub anchored at `(cx, cy)` covers.
pub open spec fn tub_covers(cx: int, cy: int, x: int, y: int) -> bool {
    ||| (y == cy && x == cx + 1)
    ||| (y == cy + 1 && (x == cx || x == cx + 2))
    ||| (y == cy + 2 && x == cx + 1)
}

/// The cells a beehive anchored at `(cx, cy)` covers.
pub open spec fn beehive_covers(cx: int, cy: int, x: int, y: int) -> bool {
    ||| (y == cy && (x == cx + 1 || x == cx + 2))
    ||| (y == cy + 1 && (x == cx || x == cx + 3))
    ||| (y == cy + 2 && (x == cx + 1 || x == cx + 2))
}

/// The cells a toad anchored at `(cx, cy)` covers.
pub open spec fn toad_covers(cx: int, cy: int, x: int, y: int) -> bool {
    ||| (y == cy && (x == cx + 1 || x == cx + 2 || x == cx + 3))
    ||| (y == cy + 1 && (x == cx || x == cx + 1 || x == cx + 2))
}

/// The cells a glider in its base orientation anchored at `(cx, cy)` covers.
pub open spec fn glider_covers(cx: int, cy: int, x: int, y: int) -> bool {
    ||| (y == cy && x == cx + 1)
    ||| (y == cy + 1 && x == cx + 2)
    ||| (y == cy + 2 && (x == cx || x == cx + 1 || x == cx + 2))
}

/// The cells a glider of the given rotation (reduced modulo four) anchored at
/// `(cx, cy)` covers. Rotation zero is the base orientation.
pub open spec fn glider_rotation_covers(r: int, cx: int, cy: int, x: int, y: int) -> bool {
    if r == 1 {
        ||| (y == cy && x == cx + 2)
        ||| (y == cy + 1 && (x == cx || x == cx + 2))
        ||| (y == cy + 2 && (x == cx + 1 || x == cx + 2))
    } else if r == 2 {
        ||| (y == cy && (x == cx || x == cx + 1 || x == cx + 2))
        ||| (y == cy + 1 && x == cx)
        ||| (y == cy + 2 && x == cx + 1)
    } else if r == 3 {
        ||| (y == cy && (x == cx || x == cx + 1))
        ||| (y == cy + 1 && (x == cx || x == cx + 2))
        ||| (y == cy + 2 && x == cx)
    } else {
        glider_covers(cx, cy, x, y)
    }
}

/// The cells a pulsar centered at `(cx, cy)` covers.
pub open spec fn pulsar_covers(cx: int, cy: int, x: int, y: int) -> bool {
    ||| ((y == cy - 6 || y == cy - 1 || y == cy + 1 || y == cy + 6) && (x == cx - 4 || x == cx
        - 3 || x == cx - 2 || x == cx + 2 || x == cx + 3 || x == cx + 4))
    ||| ((y == cy - 4 || y == cy - 3 || y == cy - 2 || y == cy + 2 || y == cy + 3 || y == cy + 4)
        && (x == cx - 6 || x == cx - 1 || x == cx + 1 || x == cx + 6))
}

/// The cross of pulsars the seed places: one at the grid center `(50, 50)`
/// and four offset thirty cells along each axis (the lower one clamped to
/// keep the shape in range).
pub open spec fn cross_pulsars_covers(x: int, y: int) -> bool {
    ||| pulsar_covers(50, 50, x, y)
    ||| pulsar_covers(50, 20, x, y)
    ||| pulsar_covers(50, 80, x, y)
    ||| pulsar_covers(20, 50, x, y)
    ||| pulsar_covers(80, 50, x, y)
}

/// The four tubs the seed places at the midpoints between the center and
/// each pulsar of the cross, each shifted by one cell up and left.
pub open spec fn midpoint_tubs_covers(x: int, y: int) -> bool {
    ||| tub_covers(34, 49, x, y)
    ||| tub_covers(64, 49, x, y)
    ||| tub_covers(49, 34, x, y)
    ||| tub_covers(49, 64, x, y)
}

/// The four toads the seed places near the grid corners, inset four cells
/// from each edge with an extra two-cell inset on the bottom.
pub open spec fn corner_toads_covers(x: int, y: int) -> bool {
    ||| toad_covers(4, 4, x, y)
    ||| toad_covers(92, 4, x, y)
    ||| toad_covers(4, 94, x, y)
    ||| toad_covers(92, 94, x, y)
}

/// A beehive anchored at `(bx, by)`, placed only when its whole bounding box
/// stays inside the grid.
pub open spec fn beehive_checked_covers(bx: int, by: int, x: int, y: int) -> bool {
    bx + 3 < WIDTH as int && by + 2 < HEIGHT as int && beehive_covers(bx, by, x, y)
}

/// The beehives of one corner cluster: four offsets from the corner anchor,
/// from a top-row table when the anchor sits at row zero and from a
/// bottom-row table otherwise, each placement skipped when it would exceed
/// the grid.
pub open spec fn beehive_cluster_covers(ax: int, ay: int, x: int, y: int) -> bool {
    if ay == 0 {
        ||| beehive_checked_covers(ax + 12, ay + 6, x, y)
        ||| beehive_checked_covers(ax + 8, ay + 12, x, y)
        ||| beehive_checked_covers(ax + 16, ay + 12, x, y)
        ||| beehive_checked_covers(ax + 12, ay + 18, x, y)
    } else {
        ||| beehive_checked_covers(ax + 12, ay + 2, x, y)
        ||| beehive_checked_covers(ax + 8, ay + 8, x, y)
        ||| beehive_checked_covers(ax + 16, ay + 8, x, y)
        ||| beehive_checked_covers(ax + 12, ay + 14, x, y)
    }
}

/// One cluster of beehives per grid corner.
pub open spec fn corner_beehives_covers(x: int, y: int) -> bool {
    ||| beehive_cluster_covers(0, 0, x, y)
    ||| beehive_cluster_covers(74, 0, x, y)
    ||| beehive_cluster_covers(0, 74, x, y)
    ||| beehive_cluster_covers(74, 74, x, y)
}

/// The ring of four blinkers around one diamond center `(cx, cy)`: vertical
/// blinkers above and below, horizontal blinkers left and right, each offset
/// by the fixed six-cell gap and placed only when it stays inside the grid.
pub open spec fn blinker_ring_covers(cx: int, cy: int, x: int, y: int) -> bool {
    ||| (cy - 7 >= 0 && cy - 5 < HEIGHT as int && blinker_vertical_covers(cx, cy - 7, x, y))
    ||| (cy + 5 >= 0 && cy + 7 < HEIGHT as int && blinker_vertical_covers(cx, cy + 5, x, y))
    ||| (cx - 7 >= 0 && cx - 5 < WIDTH as int && cy >= 1 && blinker_covers(cx - 7, cy - 1, x, y))
    ||| (cx + 5 >= 0 && cx + 7 < WIDTH as int && cy >= 1 && blinker_covers(cx + 5, cy - 1, x, y))
}

/// The diamond arrangement of blinkers around the four fixed centers.
pub open spec fn diamond_blinkers_covers(x: int, y: int) -> bool {
    ||| blinker_ring_covers(32, 32, x, y)
    ||| blinker_ring_covers(68, 32, x, y)
    ||| blinker_ring_covers(32, 68, x, y)
    ||| blinker_ring_covers(68, 68, x, y)
}

/// The four horizontal blinkers near the edges where the cross of pulsars
/// meets the grid boundary, at the fixed eight-cell margin.
pub open spec fn edge_blinkers_covers(x: int, y: int) -> bool {
    ||| blinker_covers(49, 8, x, y)
    ||| blinker_covers(49, 91, x, y)
    ||| blinker_covers(8, 49, x, y)
    ||| blinker_covers(89, 49, x, y)
}

/// The two gliders the seed places: a base-orientation one near the left
/// edge and the rotation-one glider near the right edge, both fifteen cells
/// above the vertical center.
pub open spec fn seeded_gliders_covers(x: int, y: int) -> bool {
    ||| glider_covers(8, 35, x, y)
    ||| glider_rotation_covers(1, 92, 35, x, y)
}

/// Every cell the fixed seed arrangement marks alive.
pub open spec fn seeded_covers(x: int, y: int) -> bool {
    ||| cross_pulsars_covers(x, y)
    ||| midpoint_tubs_covers(x, y)
    ||| corner_toads_covers(x, y)
    ||| corner_beehives_covers(x, y)
    ||| diamond_blinkers_covers(x, y)
    ||| edge_blinkers_covers(x, y)
    ||| seeded_gliders_covers(x, y)
}

/// The game state: the current generation and a scratch buffer for the next one.
pub struct Life {
    pub grid: Vec<bool>,
    pub next: Vec<bool>,
}

impl Life {
    /// Both buffers hold exactly one boolean per cell.
    pub open spec fn wf(self) -> bool {
        grid_wf(self.grid@) && grid_wf(self.next@)
    }

    /// Marks the cell at `(x, y)` live if the coordinate is in range;
    /// otherwise leaves the grid unchanged. Placement primitives funnel
    /// through here, so a shape that overhangs an edge is clipped, never
    /// wrapped and never an error.
    fn mark(&mut self, x: i64, y: i64)
        requires
            old(self).wf(),
        ensures
            final(self).wf(),
            final(self).next@ == old(self).next@,
            forall|i: int, j: int|
                #![trigger cell(final(self).grid@, i, j)]
                0 <= i < WIDTH as int && 0 <= j < HEIGHT as int ==> cell(final(self).grid@, i, j)
                    == (cell(old(self).grid@, i, j) || (i == x as int && j == y as int)),
    {
        if 0 <= x && x < WIDTH as i64 && 0 <= y && y < HEIGHT as i64 {
            let idx: usize = (y as usize) * WIDTH + (x as usize);
            self.grid.set(idx, true);
        }
    }

    /// Reads one cell of the current generation.
    fn at(&self, x: usize, y: usize) -> (b: bool)
        requires
            self.wf(),
            x < WIDTH,
            y < HEIGHT,
        ensures
            b == cell(self.grid@, x as int, y as int),
    {
        self.grid[y * WIDTH + x]
    }

    /// Places a blinker with its anchor at `(cx, cy)`, clipping any cell that
    /// falls outside the grid.
    pub fn add_blinker(&mut self, cx: usize, cy: usize)
        requires
            old(self).wf(),
            cx < WIDTH,
            cy < HEIGHT,
        ensures
            final(self).wf(),
            final(self).next@ == old(self).next@,
            forall|i: int, j: int|
                #![trigger cell(final(self).grid@, i, j)]
                0 <= i < WIDTH as int && 0 <= j < HEIGHT as int ==> cell(final(self).grid@, i, j)
                    == (cell(old(self).grid@, i, j) || blinker_covers(cx as int, cy as int, i, j)),
    {
        let x: i64 = cx as i64;
        let y: i64 = cy as i64;
        self.mark(x, y);
        self.mark(x + 1, y);
        self.mark(x + 2, y);
    }

    /// Places a vertical blinker with its anchor at `(cx, cy)`, clipping any
    /// cell that falls outside the grid.
    pub fn add_blinker_vertical(&mut self, cx: usize, cy: usize)
        requires
            old(self).wf(),
            cx < WIDTH,
            cy < HEIGHT,
        ensures
            final(self).wf(),
            final(self).next@ == old(self).next@,
            forall|i: int, j: int|
                #![trigger cell(final(self).grid@, i, j)]
                0 <= i < WIDTH as int && 0 <= j < HEIGHT as int ==> cell(final(self).grid@, i, j)
                    == (cell(old(self).grid@, i, j) || blinker_vertical_covers(
                    cx as int,
                    cy as int,
                    i,
                    j,
                )),
    {
        let x: i64 = cx as i64;
        let y: i64 = cy as i64;
        self.mark(x, y);
        self.mark(x, y + 1);
        self.mark(x, y + 2);
    }

    /// Places a tub with its anchor at `(cx, cy)`, clipping any cell that
    /// falls outside the grid.
    pub fn add_tub(&mut self, cx: usize, cy: usize)
        requires
            old(self).wf(),
            cx < WIDTH,
            cy < HEIGHT,
        ensures
            final(self).wf(),
            final(self).next@ == old(self).next@,
            forall|i: int, j: int|
                #![trigger cell(final(self).grid@, i, j)]
                0 <= i < WIDTH as int && 0 <= j < HEIGHT as int ==> cell(final(self).grid@, i, j)
                    == (cell(old(self).grid@, i, j) || tub_covers(cx as int, cy as int, i, j)),
    {
        let x: i64 = cx as i64;
        let y: i64 = cy as i64;
        self.mark(x + 1, y);
        self.mark(x, y + 1);
        self.mark(x + 2, y + 1);
        self.mark(x + 1, y + 2);
    }

    /// Places a beehive with its anchor at `(cx, cy)`, clipping any cell that
    /// falls outside the grid.
    pub fn add_beehive(&mut self, cx: usize, cy: usize)
        requires
            old(self).wf(),
            cx < WIDTH,
            cy < HEIGHT,
        ensures
            final(self).wf(),
            final(self).next@ == old(self).next@,
            forall|i: int, j: int|
                #![trigger cell(final(self).grid@, i, j)]
                0 <= i < WIDTH as int && 0 <= j < HEIGHT as int ==> cell(final(self).grid@, i, j)
                    == (cell(old(self).grid@, i, j) || beehive_covers(cx as int, cy as int, i, j)),
    {
        let x: i64 = cx as i64;
        let y: i64 = cy as i64;
        self.mark(x + 1, y);
        self.mark(x + 2, y);
        self.mark(x, y + 1);
        self.mark(x + 3, y + 1);
        self.mark(x + 1, y + 2);
        self.mark(x + 2, y + 2);
    }

    /// Places a toad with its anchor at `(cx, cy)`, clipping any cell that
    /// falls outside the grid.
    pub fn add_toad(&mut self, cx: usize, cy: usize)
        requires
            old(self).wf(),
            cx < WIDTH,
            cy < HEIGHT,
        ensures
            final(self).wf(),
            final(self).next@ == old(self).next@,
            forall|i: int, j: int|
                #![trigger cell(final(self).grid@, i, j)]
                0 <= i < WIDTH as int && 0 <= j < HEIGHT as int ==> cell(final(self).grid@, i, j)
                    == (cell(old(self).grid@, i, j) || toad_covers(cx as int, cy as int, i, j)),
    {
        let x: i64 = cx as i64;
        let y: i64 = cy as i64;
        self.mark(x + 1, y);
        self.mark(x + 2, y);
        self.mark(x + 3, y);
        self.mark(x, y + 1);
        self.mark(x + 1, y + 1);
        self.mark(x + 2, y + 1);
    }

    /// Places a glider in its base orientation with its anchor at `(cx, cy)`,
    /// clipping any cell that falls outside the grid.
    pub fn add_glider(&mut self, cx: usize, cy: usize)
        requires
            old(self).wf(),
            cx < WIDTH,
            cy < HEIGHT,
        ensures
            final(self).wf(),
            final(self).next@ == old(self).next@,
            forall|i: int, j: int|
                #![trigger cell(final(self).grid@, i, j)]
                0 <= i < WIDTH as int && 0 <= j < HEIGHT as int ==> cell(final(self).grid@, i, j)
                    == (cell(old(self).grid@, i, j) || glider_covers(cx as int, cy as int, i, j)),
    {
        let x: i64 = cx as i64;
        let y: i64 = cy as i64;
        self.mark(x + 1, y);
        self.mark(x + 2, y + 1);
        self.mark(x, y + 2);
        self.mark(x + 1, y + 2);
        self.mark(x + 2, y + 2);
    }

    /// Places a glider of the given rotation (reduced modulo four) with its
    /// anchor at `(cx, cy)`, clipping any cell that falls outside the grid.
    pub fn add_glider_rotated(&mut self, cx: usize, cy: usize, rotation: u8)
        requires
            old(self).wf(),
            cx < WIDTH,
            cy < HEIGHT,
        ensures
            final(self).wf(),
            final(self).next@ == old(self).next@,
            forall|i: int, j: int|
                #![trigger cell(final(self).grid@, i, j)]
                0 <= i < WIDTH as int && 0 <= j < HEIGHT as int ==> cell(final(self).grid@, i, j)
                    == (cell(old(self).grid@, i, j) || glider_rotation_covers(
                    (rotation as int) % 4,
                    cx as int,
                    cy as int,
                    i,
                    j,
                )),
    {
        let x: i64 = cx as i64;
        let y: i64 = cy as i64;
        let r: u8 = rotation % 4;
        if r == 1 {
            self.mark(x + 2, y);
            self.mark(x, y + 1);
            self.mark(x + 2, y + 1);
            self.mark(x + 1, y + 2);
            self.mark(x + 2, y + 2);
        } else if r == 2 {
            self.mark(x, y);
            self.mark(x + 1, y);
            self.mark(x + 2, y);
            self.mark(x, y + 1);
            self.mark(x + 1, y + 2);
        } else if r == 3 {
            self.mark(x, y);
            self.mark(x + 1, y);
            self.mark(x, y + 1);
            self.mark(x + 2, y + 1);
            self.mark(x, y + 2);
        } else {
            self.mark(x + 1, y);
            self.mark(x + 2, y + 1);
            self.mark(x, y + 2);
            self.mark(x + 1, y + 2);
            self.mark(x + 2, y + 2);
        }
    }

    /// Places a pulsar centered at `(cx, cy)`, clipping any cell that falls
    /// outside the grid.
    pub fn add_pulsar(&mut self, cx: usize, cy: usize)
        requires
            old(self).wf(),
            cx < WIDTH,
            cy < HEIGHT,
        ensures
            final(self).wf(),
            final(self).next@ == old(self).next@,
            forall|i: int, j: int|
                #![trigger cell(final(self).grid@, i, j)]
                0 <= i < WIDTH as int && 0 <= j < HEIGHT as int ==> cell(final(self).grid@, i, j)
                    == (cell(old(self).grid@, i, j) || pulsar_covers(cx as int, cy as int, i, j)),
    {
        let x: i64 = cx as i64;
        let y: i64 = cy as i64;
        self.pulsar_arms(x, y - 6, y - 1);
        self.pulsar_arms(x, y + 1, y + 6);
        self.pulsar_sides(x, y - 4, y - 3, y - 2);
        self.pulsar_sides(x, y + 2, y + 3, y + 4);
    }

    /// Marks the two six-cell horizontal arms of a pulsar that lie in the
    /// rows `ya` and `yb`, centered on column `x`.
    fn pulsar_arms(&mut self, x: i64, ya: i64, yb: i64)
        requires
            old(self).wf(),
            -200 <= x <= 200,
            -200 <= ya <= 200,
            -200 <= yb <= 200,
        ensures
            final(self).wf(),
            final(self).next@ == old(self).next@,
            forall|i: int, j: int|
                #![trigger cell(final(self).grid@, i, j)]
                0 <= i < WIDTH as int && 0 <= j < HEIGHT as int ==> cell(final(self).grid@, i, j)
                    == (cell(old(self).grid@, i, j) || ((j == ya as int || j == yb as int) && (i
                    == x - 4 || i == x - 3 || i == x - 2 || i == x + 2 || i == x + 3 || i == x
                    + 4))),
    {
        self.mark(x - 4, ya);
        self.mark(x - 3, ya);
        self.mark(x - 2, ya);
        self.mark(x + 2, ya);
        self.mark(x + 3, ya);
        self.mark(x + 4, ya);
        self.mark(x - 4, yb);
        self.mark(x - 3, yb);
        self.mark(x - 2, yb);
        self.mark(x + 2, yb);
        self.mark(x + 3, yb);
        self.mark(x + 4, yb);
    }

    /// Marks the four-cell side rows of a pulsar that lie in the rows `ya`,
    /// `yb` and `yc`, centered on column `x`.
    fn pulsar_sides(&mut self, x: i64, ya: i64, yb: i64, yc: i64)
        requires
            old(self).wf(),
            -200 <= x <= 200,
            -200 <= ya <= 200,
            -200 <= yb <= 200,
            -200 <= yc <= 200,
        ensures
            final(self).wf(),
            final(self).next@ == old(self).next@,
            forall|i: int, j: int|
                #![trigger cell(final(self).grid@, i, j)]
                0 <= i < WIDTH as int && 0 <= j < HEIGHT as int ==> cell(final(self).grid@, i, j)
                    == (cell(old(self).grid@, i, j) || ((j == ya as int || j == yb as int || j
                    == yc as int) && (i == x - 6 || i == x - 1 || i == x + 1 || i == x + 6))),
    {
        self.mark(x - 6, ya);
        self.mark(x - 1, ya);
        self.mark(x + 1, ya);
        self.mark(x + 6, ya);
        self.mark(x - 6, yb);
        self.mark(x - 1, yb);
        self.mark(x + 1, yb);
        self.mark(x + 6, yb);
        self.mark(x - 6, yc);
        self.mark(x - 1, yc);
        self.mark(x + 1, yc);
        self.mark(x + 6, yc);
    }

    /// Places the cross of pulsars: one at the center, four offset thirty
    /// cells along the axes, the offsets clamped to keep each shape in range.
    fn seed_pulsars(&mut self)
        requires
            old(self).wf(),
        ensures
            final(self).wf(),
            final(self).next@ == old(self).next@,
            forall|i: int, j: int|
                #![trigger cell(final(self).grid@, i, j)]
                0 <= i < WIDTH as int && 0 <= j < HEIGHT as int ==> cell(final(self).grid@, i, j)
                    == (cell(old(self).grid@, i, j) || cross_pulsars_covers(i, j)),
    {
        let center_x: usize = WIDTH / 2;
        let center_y: usize = HEIGHT / 2;
        self.add_pulsar(center_x, center_y);
        self.add_pulsar(center_x, center_y - 30);
        let south: usize = if center_y + 30 < HEIGHT - 15 {
            center_y + 30
        } else {
            HEIGHT - 15
        };
        self.add_pulsar(center_x, south);
        self.add_pulsar(center_x - 30, center_y);
        let east: usize = if center_x + 30 < WIDTH - 15 {
            center_x + 30
        } else {
            WIDTH - 15
        };
        self.add_pulsar(east, center_y);
    }

    /// Places a tub one cell up and left of the midpoint `(mx, my)`, only
    /// when that keeps the shape in range with a margin of one on all sides.
    fn tub_near_midpoint(&mut self, mx: usize, my: usize)
        requires
            old(self).wf(),
        ensures
            final(self).wf(),
            final(self).next@ == old(self).next@,
            forall|i: int, j: int|
                #![trigger cell(final(self).grid@, i, j)]
                0 <= i < WIDTH as int && 0 <= j < HEIGHT as int ==> cell(final(self).grid@, i, j)
                    == (cell(old(self).grid@, i, j) || (1 < mx as int && 1 < my as int && mx as int
                    + 1 < WIDTH as int && my as int + 1 < HEIGHT as int && tub_covers(
                    mx as int - 1,
                    my as int - 1,
                    i,
                    j,
                ))),
    {
        if mx > 1 && my > 1 && mx < WIDTH - 1 && my < HEIGHT - 1 {
            self.add_tub(mx - 1, my - 1);
        }
    }

    /// Places the four tubs at the midpoints between the center and each
    /// pulsar of the cross.
    fn seed_tubs(&mut self)
        requires
            old(self).wf(),
        ensures
            final(self).wf(),
            final(self).next@ == old(self).next@,
            forall|i: int, j: int|
                #![trigger cell(final(self).grid@, i, j)]
                0 <= i < WIDTH as int && 0 <= j < HEIGHT as int ==> cell(final(self).grid@, i, j)
                    == (cell(old(self).grid@, i, j) || midpoint_tubs_covers(i, j)),
    {
        let center_x: usize = WIDTH / 2;
        let center_y: usize = HEIGHT / 2;
        self.tub_near_midpoint(center_x - 15, center_y);
        self.tub_near_midpoint(center_x + 15, center_y);
        self.tub_near_midpoint(center_x, center_y - 15);
        self.tub_near_midpoint(center_x, center_y + 15);
    }

    /// Places the four toads near the grid corners, inset by the fixed
    /// margin, with the extra inset on the bottom edge.
    fn seed_toads(&mut self)
        requires
            old(self).wf(),
        ensures
            final(self).wf(),
            final(self).next@ == old(self).next@,
            forall|i: int, j: int|
                #![trigger cell(final(self).grid@, i, j)]
                0 <= i < WIDTH as int && 0 <= j < HEIGHT as int ==> cell(final(self).grid@, i, j)
                    == (cell(old(self).grid@, i, j) || corner_toads_covers(i, j)),
    {
        let cmx: usize = 4;
        let cmy: usize = 4;
        self.add_toad(cmx, cmy);
        self.add_toad(WIDTH - cmx - 4, cmy);
        self.add_toad(cmx, HEIGHT - cmy - 2);
        self.add_toad(WIDTH - cmx - 4, HEIGHT - cmy - 2);
    }

    /// Places a beehive anchored at `(bx, by)` only when its whole bounding
    /// box stays inside the grid.
    fn beehive_checked(&mut self, bx: usize, by: usize)
        requires
            old(self).wf(),
            bx <= 200,
            by <= 200,
        ensures
            final(self).wf(),
            final(self).next@ == old(self).next@,
            forall|i: int, j: int|
                #![trigger cell(final(self).grid@, i, j)]
                0 <= i < WIDTH as int && 0 <= j < HEIGHT as int ==> cell(final(self).grid@, i, j)
                    == (cell(old(self).grid@, i, j) || beehive_checked_covers(
                    bx as int,
                    by as int,
                    i,
                    j,
                )),
    {
        if bx + 3 < WIDTH && by + 2 < HEIGHT {
            self.add_beehive(bx, by);
        }
    }

    /// Places one corner cluster of beehives anchored at `(ax, ay)`, with the
    /// top-row offset table when the anchor sits at row zero and the
    /// bottom-row table otherwise.
    fn beehive_cluster(&mut self, ax: usize, ay: usize)
        requires
            old(self).wf(),
            ax <= 100,
            ay <= 100,
        ensures
            final(self).wf(),
            final(self).next@ == old(self).next@,
            forall|i: int, j: int|
                #![trigger cell(final(self).grid@, i, j)]
                0 <= i < WIDTH as int && 0 <= j < HEIGHT as int ==> cell(final(self).grid@, i, j)
                    == (cell(old(self).grid@, i, j) || beehive_cluster_covers(
                    ax as int,
                    ay as int,
                    i,
                    j,
                )),
    {
        if ay == 0 {
            self.beehive_checked(ax + 12, ay + 6);
            self.beehive_checked(ax + 8, ay + 12);
            self.beehive_checked(ax + 16, ay + 12);
            self.beehive_checked(ax + 12, ay + 18);
        } else {
            self.beehive_checked(ax + 12, ay + 2);
            self.beehive_checked(ax + 8, ay + 8);
            self.beehive_checked(ax + 16, ay + 8);
            self.beehive_checked(ax + 12, ay + 14);
        }
    }

    /// Places the four corner clusters of beehives.
    fn seed_beehives(&mut self)
        requires
            old(self).wf(),
        ensures
            final(self).wf(),
            final(self).next@ == old(self).next@,
            forall|i: int, j: int|
                #![trigger cell(final(self).grid@, i, j)]
                0 <= i < WIDTH as int && 0 <= j < HEIGHT as int ==> cell(final(self).grid@, i, j)
                    == (cell(old(self).grid@, i, j) || corner_beehives_covers(i, j)),
    {
        self.beehive_cluster(0, 0);
        self.beehive_cluster(WIDTH - 26, 0);
        self.beehive_cluster(0, HEIGHT - 26);
        self.beehive_cluster(WIDTH - 26, HEIGHT - 26);
    }

    /// Places the ring of four blinkers around the diamond center `(cx, cy)`,
    /// each offset by the fixed six-cell gap in one cardinal direction and
    /// skipped when it would exceed the grid on either axis.
    fn blinker_ring(&mut self, cx: usize, cy: usize)
        requires
            old(self).wf(),
            cx < WIDTH,
            cy < HEIGHT,
        ensures
            final(self).wf(),
            final(self).next@ == old(self).next@,
            forall|i: int, j: int|
                #![trigger cell(final(self).grid@, i, j)]
                0 <= i < WIDTH as int && 0 <= j < HEIGHT as int ==> cell(final(self).grid@, i, j)
                    == (cell(old(self).grid@, i, j) || blinker_ring_covers(
                    cx as int,
                    cy as int,
                    i,
                    j,
                )),
    {
        if cy >= 7 && cy - 5 < HEIGHT {
            self.add_blinker_vertical(cx, cy - 7);
        }
        if cy + 7 < HEIGHT {
            self.add_blinker_vertical(cx, cy + 5);
        }
        if cx >= 7 && cx - 5 < WIDTH && cy >= 1 {
            self.add_blinker(cx - 7, cy - 1);
        }
        if cx + 7 < WIDTH && cy >= 1 {
            self.add_blinker(cx + 5, cy - 1);
        }
    }

    /// Places the diamond arrangement of blinkers around the four fixed
    /// centers.
    fn seed_blinker_diamond(&mut self)
        requires
            old(self).wf(),
        ensures
            final(self).wf(),
            final(self).next@ == old(self).next@,
            forall|i: int, j: int|
                #![trigger cell(final(self).grid@, i, j)]
                0 <= i < WIDTH as int && 0 <= j < HEIGHT as int ==> cell(final(self).grid@, i, j)
                    == (cell(old(self).grid@, i, j) || diamond_blinkers_covers(i, j)),
    {
        self.blinker_ring(32, 32);
        self.blinker_ring(WIDTH - 32, 32);
        self.blinker_ring(32, HEIGHT - 32);
        self.blinker_ring(WIDTH - 32, HEIGHT - 32);
    }

    /// Places the four horizontal blinkers near the edges where the cross of
    /// pulsars meets the grid boundary.
    fn seed_edge_blinkers(&mut self)
        requires
            old(self).wf(),
        ensures
            final(self).wf(),
            final(self).next@ == old(self).next@,
            forall|i: int, j: int|
                #![trigger cell(final(self).grid@, i, j)]
                0 <= i < WIDTH as int && 0 <= j < HEIGHT as int ==> cell(final(self).grid@, i, j)
                    == (cell(old(self).grid@, i, j) || edge_blinkers_covers(i, j)),
    {
        let center_x: usize = WIDTH / 2;
        let center_y: usize = HEIGHT / 2;
        let edge_margin: usize = 8;
        self.add_blinker(center_x - 1, edge_margin);
        self.add_blinker(center_x - 1, HEIGHT - edge_margin - 1);
        self.add_blinker(edge_margin, center_y - 1);
        self.add_blinker(WIDTH - edge_margin - 3, center_y - 1);
    }

    /// Places the two gliders: a base-orientation one near the left edge and
    /// the rotation-one glider near the right edge.
    fn seed_gliders(&mut self)
        requires
            old(self).wf(),
        ensures
            final(self).wf(),
            final(self).next@ == old(self).next@,
            forall|i: int, j: int|
                #![trigger cell(final(self).grid@, i, j)]
                0 <= i < WIDTH as int && 0 <= j < HEIGHT as int ==> cell(final(self).grid@, i, j)
                    == (cell(old(self).grid@, i, j) || seeded_gliders_covers(i, j)),
    {
        let center_y: usize = HEIGHT / 2;
        self.add_glider(8, center_y - 15);
        self.add_glider_rotated(WIDTH - 8, center_y - 15, 1);
    }

    /// Marks every cell of the fixed seed arrangement alive: the cross of
    /// pulsars, the midpoint tubs, the corner toads and beehive clusters, the
    /// blinker diamonds, the edge blinkers and the two gliders. Cells already
    /// alive stay alive; every placement is clipped at the grid edges.
    pub fn seed(&mut self)
        requires
            old(self).wf(),
        ensures
            final(self).wf(),
            final(self).next@ == old(self).next@,
            forall|i: int, j: int|
                #![trigger cell(final(self).grid@, i, j)]
                0 <= i < WIDTH as int && 0 <= j < HEIGHT as int ==> cell(final(self).grid@, i, j)
                    == (cell(old(self).grid@, i, j) || seeded_covers(i, j)),
    {
        self.seed_pulsars();
        self.seed_tubs();
        self.seed_toads();
        self.seed_beehives();
        self.seed_blinker_diamond();
        self.seed_edge_blinkers();
        self.seed_gliders();
    }

    /// A freshly initialized game: both buffers fully dead, then the fixed
    /// seed arrangement marked alive in the current grid. No inputs and no
    /// failure modes; the resulting grid is the same on every call.
    pub fn new() -> (life: Life)
        ensures
            life.wf(),
            forall|i: int, j: int|
                #![trigger cell(life.grid@, i, j)]
                0 <= i < WIDTH as int && 0 <= j < HEIGHT as int ==> cell(life.grid@, i, j)
                    == seeded_covers(i, j),
            forall|k: int| 0 <= k < life.next@.len() ==> !life.next@[k],
    {
        let mut life = Life { grid: blank_grid(), next: blank_grid() };
        assert(forall|i: int, j: int|
            0 <= i < WIDTH as int && 0 <= j < HEIGHT as int ==> !cell(life.grid@, i, j));
        life.seed();
        life
    }

    /// Counts the live cells among the eight toroidal neighbors of `(x, y)`:
    /// a coordinate one off the edge wraps to the opposite edge.
    #[verifier::rlimit(50)]
    fn count_neighbors(&self, x: usize, y: usize) -> (n: u8)
        requires
            self.wf(),
            x < WIDTH,
            y < HEIGHT,
        ensures
            n as int == live_neighbors(self.grid@, x as int, y as int),
    {
        let xm: usize = if x == 0 {
            WIDTH - 1
        } else {
            x - 1
        };
        let xp: usize = if x + 1 == WIDTH {
            0
        } else {
            x + 1
        };
        let ym: usize = if y == 0 {
            HEIGHT - 1
        } else {
            y - 1
        };
        let yp: usize = if y + 1 == HEIGHT {
            0
        } else {
            y + 1
        };
        let mut n: u8 = 0;
        if self.at(xm, ym) {
            n = n + 1;
        }
        if self.at(x, ym) {
            n = n + 1;
        }
        if self.at(xp, ym) {
            n = n + 1;
        }
        if self.at(xm, y) {
            n = n + 1;
        }
        if self.at(xp, y) {
            n = n + 1;
        }
        if self.at(xm, yp) {
            n = n + 1;
        }
        if self.at(x, yp) {
            n = n + 1;
        }
        if self.at(xp, yp) {
            n = n + 1;
        }
        n
    }

    /// Computes the next generation from the current one: the rule is applied
    /// to every cell independently, reading only the generation before the
    /// step, and the result replaces the current grid. After the call the
    /// scratch buffer equals the new current generation.
    pub fn update(&mut self)
        requires
            old(self).wf(),
        ensures
            final(self).wf(),
            is_step(old(self).grid@, final(self).grid@),
            final(self).next@ == final(self).grid@,
    {
        let mut y: usize = 0;
        while y < HEIGHT
            invariant
                self.wf(),
                y <= HEIGHT,
                self.grid@ == old(self).grid@,
                forall|i: int, j: int|
                    0 <= i < WIDTH as int && 0 <= j < y as int ==> cell(self.next@, i, j)
                        == next_cell(self.grid@, i, j),
            decreases HEIGHT - y,
        {
            let mut x: usize = 0;
            while x < WIDTH
                invariant
                    self.wf(),
                    x <= WIDTH,
                    y < HEIGHT,
                    self.grid@ == old(self).grid@,
                    forall|i: int, j: int|
                        0 <= i < WIDTH as int && 0 <= j < y as int ==> cell(self.next@, i, j)
                            == next_cell(self.grid@, i, j),
                    forall|i: int|
                        0 <= i < x as int ==> cell(self.next@, i, y as int) == next_cell(
                            self.grid@,
                            i,
                            y as int,
                        ),
                decreases WIDTH - x,
            {
                let n: u8 = self.count_neighbors(x, y);
                let lives = if self.at(x, y) {
                    n == 2 || n == 3
                } else {
                    n == 3
                };
                self.next.set(y * WIDTH + x, lives);
                x = x + 1;
            }
            y = y + 1;
        }
        let copied = clone_grid(&self.next);
        self.grid = copied;
    }

    /// Paints the current generation into the pixel surface: every surface
    /// pixel that lies on the grid gets the color of its cell's aliveness;
    /// pixels beyond the grid, and the whole surface when a write would fall
    /// outside it, are left as they were.
    pub fn render(&self, fb: &mut Framebuffer)
        requires
            self.wf(),
            old(fb).wf(),
        ensures
            final(fb).wf(),
            final(fb).spec_width() == old(fb).spec_width(),
            final(fb).spec_height() == old(fb).spec_height(),
            forall|i: int, j: int|
                final(fb).in_bounds(i, j) ==> #[trigger] final(fb).pix(i, j) == if i < WIDTH as int
                    && j < HEIGHT as int {
                    alive_color(cell(self.grid@, i, j))
                } else {
                    old(fb).pix(i, j)
                },
    {
        let mut y: usize = 0;
        while y < HEIGHT
            invariant
                self.wf(),
                fb.wf(),
                y <= HEIGHT,
                fb.spec_width() == old(fb).spec_width(),
                fb.spec_height() == old(fb).spec_height(),
                forall|i: int, j: int|
                    fb.in_bounds(i, j) ==> #[trigger] fb.pix(i, j) == if i < WIDTH as int && j < y as int {
                        alive_color(cell(self.grid@, i, j))
                    } else {
                        old(fb).pix(i, j)
                    },
            decreases HEIGHT - y,
        {
            let mut x: usize = 0;
            while x < WIDTH
                invariant
                    self.wf(),
                    fb.wf(),
                    x <= WIDTH,
                    y < HEIGHT,
                    fb.spec_width() == old(fb).spec_width(),
                    fb.spec_height() == old(fb).spec_height(),
                    forall|i: int, j: int|
                        fb.in_bounds(i, j) ==> #[trigger] fb.pix(i, j) == if (i < WIDTH as int && j
                            < y as int) || (i < x as int && j == y as int) {
                            alive_color(cell(self.grid@, i, j))
                        } else {
                            old(fb).pix(i, j)
                        },
                decreases WIDTH - x,
            {
                let alive = self.at(x, y);
                let color = fb.get_color(alive);
                fb.set_pixel(x as i32, y as i32, color);
                x = x + 1;
            }
            y = y + 1;
        }
    }

    /// The state of the cell at `(x, y)`, or `None` when the coordinate lies
    /// outside the grid.
    pub fn is_alive(&self, x: usize, y: usize) -> (r: Option<bool>)
        requires
            self.wf(),
        ensures
            r == if x < WIDTH && y < HEIGHT {
                Some(cell(self.grid@, x as int, y as int))
            } else {
                None::<bool>
            },
    {
        if x < WIDTH && y < HEIGHT {
            Some(self.at(x, y))
        } else {
            None
        }
    }
}

/// A fresh buffer with the same cells as `v`.
fn clone_grid(v: &Vec<bool>) -> (r: Vec<bool>)
    ensures
        r@ == v@,
{
    let mut r: Vec<bool> = Vec::new();
    let mut k: usize = 0;
    while k < v.len()
        invariant
            k == r@.len(),
            k <= v@.len(),
            forall|m: int| 0 <= m < k as int ==> r@[m] == v@[m],
        decreases v@.len() - k,
    {
        r.push(v[k]);
        k = k + 1;
    }
    assert(r@ =~= v@);
    r
}

/// A buffer of `GRID_LEN` dead cells.
fn blank_grid() -> (g: Vec<bool>)
    ensures
        grid_wf(g@),
        forall|k: int| 0 <= k < g@.len() ==> !g@[k],
{
    let mut g: Vec<bool> = Vec::new();
    let mut k: usize = 0;
    while k < GRID_LEN
        invariant
            k == g@.len(),
            k <= GRID_LEN,
            forall|m: int| 0 <= m < g@.len() ==> !g@[m],
        decreases GRID_LEN - k,
    {
        g.push(false);
        k = k + 1;
    }
    g
}

} // verus!
