//! Properties of the grid engine, stated and proved over the spec functions
//! that the engine's contracts use: the per-cell transition rule, the
//! toroidal adjacency of opposite edges, the fate of an isolated cell, the
//! period-two blinker, the translating glider, and the determinism of the
//! seeded grid.

use vstd::prelude::*;

use crate::conway::blinker_covers;
use crate::conway::cell;
use crate::conway::glider_covers;
use crate::conway::grid_wf;
use crate::conway::is_step;
use crate::conway::live_neighbors;
use crate::conway::neighbor_live;
use crate::conway::next_cell;
use crate::conway::seeded_covers;
use crate::conway::wrap;
use crate::conway::GRID_LEN;
use crate::conway::HEIGHT;
use crate::conway::WIDTH;

verus! {

/// A live cell survives one step if and only if it has exactly two or three
/// live wrapped neighbors; with any other count it dies.
pub proof fn lemma_live_cell_rule(g: Seq<bool>, x: int, y: int)
    requires
        grid_wf(g),
        0 <= x < WIDTH as int,
        0 <= y < HEIGHT as int,
        cell(g, x, y),
    ensures
        next_cell(g, x, y) <==> (live_neighbors(g, x, y) == 2 || live_neighbors(g, x, y) == 3),
{
}

/// A dead cell becomes alive after one step if and only if it has exactly
/// three live wrapped neighbors; otherwise it stays dead.
pub proof fn lemma_dead_cell_rule(g: Seq<bool>, x: int, y: int)
    requires
        grid_wf(g),
        0 <= x < WIDTH as int,
        0 <= y < HEIGHT as int,
        !cell(g, x, y),
    ensures
        next_cell(g, x, y) <==> live_neighbors(g, x, y) == 3,
{
}

/// Toroidal wrap: a cell in the first column counts the last column as
/// adjacent and vice versa, and the same holds for the first and last rows.
/// In particular a live cell on one edge contributes to the neighbor count
/// across the seam.
pub proof fn lemma_toroidal_wrap(g: Seq<bool>, x: int, y: int)
    requires
        grid_wf(g),
        0 <= x < WIDTH as int,
        0 <= y < HEIGHT as int,
    ensures
        neighbor_live(g, 0, y, -1, 0) == cell(g, WIDTH as int - 1, y),
        neighbor_live(g, WIDTH as int - 1, y, 1, 0) == cell(g, 0, y),
        neighbor_live(g, x, 0, 0, -1) == cell(g, x, HEIGHT as int - 1),
        neighbor_live(g, x, HEIGHT as int - 1, 0, 1) == cell(g, x, 0),
        cell(g, WIDTH as int - 1, y) ==> live_neighbors(g, 0, y) >= 1,
        cell(g, 0, y) ==> live_neighbors(g, WIDTH as int - 1, y) >= 1,
        cell(g, x, HEIGHT as int - 1) ==> live_neighbors(g, x, 0) >= 1,
        cell(g, x, 0) ==> live_neighbors(g, x, HEIGHT as int - 1) >= 1,
{
}

/// A single isolated live cell has no live neighbors and dies in the next
/// generation, wherever it stands — corners and edges included — and no
/// other cell is born from it.
pub proof fn lemma_lone_cell_dies(g: Seq<bool>, x: int, y: int)
    requires
        grid_wf(g),
        0 <= x < WIDTH as int,
        0 <= y < HEIGHT as int,
        forall|i: int, j: int|
            0 <= i < WIDTH as int && 0 <= j < HEIGHT as int ==> (#[trigger] cell(g, i, j) <==> (i
                == x && j == y)),
    ensures
        live_neighbors(g, x, y) == 0,
        forall|i: int, j: int|
            0 <= i < WIDTH as int && 0 <= j < HEIGHT as int ==> !#[trigger] next_cell(g, i, j),
{
    assert forall|i: int, j: int|
        0 <= i < WIDTH as int && 0 <= j < HEIGHT as int implies !#[trigger] next_cell(
        g,
        i,
        j,
    ) by {
        assert(live_neighbors(g, i, j) <= 1);
    }
}

/// The seeded grid is a function of nothing: any two grids that satisfy the
/// seed characterization are cell-for-cell identical.
pub proof fn lemma_seed_deterministic(a: Seq<bool>, b: Seq<bool>)
    requires
        grid_wf(a),
        grid_wf(b),
        forall|i: int, j: int|
            0 <= i < WIDTH as int && 0 <= j < HEIGHT as int ==> #[trigger] cell(a, i, j)
                == seeded_covers(i, j),
        forall|i: int, j: int|
            0 <= i < WIDTH as int && 0 <= j < HEIGHT as int ==> #[trigger] cell(b, i, j)
                == seeded_covers(i, j),
    ensures
        a == b,
{
    assert forall|k: int| 0 <= k < GRID_LEN as int implies a[k] == b[k] by {
        let x = k % (WIDTH as int);
        let y = k / (WIDTH as int);
        assert(0 <= x < WIDTH as int && 0 <= y < HEIGHT as int && y * (WIDTH as int) + x == k);
        assert(cell(a, x, y) == cell(b, x, y));
    }
    assert(a =~= b);
}

/// Seeding never writes outside the grid: every cell the fixed arrangement
/// marks alive has in-range coordinates, corner clusters and edge shapes
/// included.
pub proof fn lemma_seed_in_range(x: int, y: int)
    ensures
        seeded_covers(x, y) ==> 0 <= x < WIDTH as int && 0 <= y < HEIGHT as int,
{
}

/// A horizontal blinker whose center is `(cx, cy)`: exactly its three cells
/// are live, the end cells wrapped at a vertical seam.
pub open spec fn horizontal_blinker_at(g: Seq<bool>, cx: int, cy: int) -> bool {
    forall|i: int, j: int|
        0 <= i < WIDTH as int && 0 <= j < HEIGHT as int ==> #[trigger] cell(g, i, j) == (j == cy
            && (i == wrap(cx - 1, WIDTH as int) || i == cx || i == wrap(cx + 1, WIDTH as int)))
}

/// A vertical blinker whose center is `(cx, cy)`: exactly its three cells
/// are live, the end cells wrapped at a horizontal seam.
pub open spec fn vertical_blinker_at(g: Seq<bool>, cx: int, cy: int) -> bool {
    forall|i: int, j: int|
        0 <= i < WIDTH as int && 0 <= j < HEIGHT as int ==> #[trigger] cell(g, i, j) == (i == cx
            && (j == wrap(cy - 1, HEIGHT as int) || j == cy || j == wrap(cy + 1, HEIGHT as int)))
}

/// Placing a blinker on an all-dead grid, clear of the right edge, yields a
/// horizontal blinker centered on the shape's middle cell: the placement
/// contracts and the oscillation law meet here.
pub proof fn lemma_placed_blinker(g0: Seq<bool>, g1: Seq<bool>, cx: int, cy: int)
    requires
        grid_wf(g0),
        grid_wf(g1),
        0 <= cx,
        cx + 2 < WIDTH as int,
        0 <= cy < HEIGHT as int,
        forall|i: int, j: int|
            0 <= i < WIDTH as int && 0 <= j < HEIGHT as int ==> !#[trigger] cell(g0, i, j),
        forall|i: int, j: int|
            #![trigger cell(g1, i, j)]
            0 <= i < WIDTH as int && 0 <= j < HEIGHT as int ==> cell(g1, i, j) == (cell(g0, i, j)
                || blinker_covers(cx, cy, i, j)),
    ensures
        horizontal_blinker_at(g1, cx + 1, cy),
{
}

/// Placing a glider on an all-dead grid, inside the margin, yields exactly
/// the lone glider the translation law speaks of.
pub proof fn lemma_placed_glider(g0: Seq<bool>, g1: Seq<bool>, cx: int, cy: int)
    requires
        grid_wf(g0),
        grid_wf(g1),
        glider_margin(cx, cy),
        forall|i: int, j: int|
            0 <= i < WIDTH as int && 0 <= j < HEIGHT as int ==> !#[trigger] cell(g0, i, j),
        forall|i: int, j: int|
            #![trigger cell(g1, i, j)]
            0 <= i < WIDTH as int && 0 <= j < HEIGHT as int ==> cell(g1, i, j) == (cell(g0, i, j)
                || glider_covers(cx, cy, i, j)),
    ensures
        glider_at(g1, cx, cy),
{
}

/// One step turns a horizontal blinker into the vertical blinker with the
/// same center, wherever the center stands on the torus.
pub proof fn lemma_blinker_h_to_v(g: Seq<bool>, h: Seq<bool>, cx: int, cy: int)
    requires
        0 <= cx < WIDTH as int,
        0 <= cy < HEIGHT as int,
        horizontal_blinker_at(g, cx, cy),
        is_step(g, h),
    ensures
        vertical_blinker_at(h, cx, cy),
{
    assert forall|i: int, j: int|
        0 <= i < WIDTH as int && 0 <= j < HEIGHT as int implies #[trigger] cell(h, i, j) == (i
        == cx && (j == wrap(cy - 1, HEIGHT as int) || j == cy || j == wrap(
        cy + 1,
        HEIGHT as int,
    ))) by {
        assert(cell(h, i, j) == next_cell(g, i, j));
    }
}

/// One step turns a vertical blinker into the horizontal blinker with the
/// same center, wherever the center stands on the torus.
pub proof fn lemma_blinker_v_to_h(g: Seq<bool>, h: Seq<bool>, cx: int, cy: int)
    requires
        0 <= cx < WIDTH as int,
        0 <= cy < HEIGHT as int,
        vertical_blinker_at(g, cx, cy),
        is_step(g, h),
    ensures
        horizontal_blinker_at(h, cx, cy),
{
    assert forall|i: int, j: int|
        0 <= i < WIDTH as int && 0 <= j < HEIGHT as int implies #[trigger] cell(h, i, j) == (j
        == cy && (i == wrap(cx - 1, WIDTH as int) || i == cx || i == wrap(
        cx + 1,
        WIDTH as int,
    ))) by {
        assert(cell(h, i, j) == next_cell(g, i, j));
    }
}

/// A blinker oscillates with period two: two steps after a horizontal
/// blinker the grid holds the same horizontal blinker again, so the pair of
/// shapes repeats indefinitely.
pub proof fn lemma_blinker_period_two(
    g: Seq<bool>,
    h: Seq<bool>,
    k: Seq<bool>,
    cx: int,
    cy: int,
)
    requires
        0 <= cx < WIDTH as int,
        0 <= cy < HEIGHT as int,
        horizontal_blinker_at(g, cx, cy),
        is_step(g, h),
        is_step(h, k),
    ensures
        vertical_blinker_at(h, cx, cy),
        horizontal_blinker_at(k, cx, cy),
        forall|i: int, j: int|
            0 <= i < WIDTH as int && 0 <= j < HEIGHT as int ==> #[trigger] cell(k, i, j) == cell(
                g,
                i,
                j,
            ),
{
    lemma_blinker_h_to_v(g, h, cx, cy);
    lemma_blinker_v_to_h(h, k, cx, cy);
}

/// A grid whose only live cells are a base-orientation glider anchored at
/// `(cx, cy)`.
pub open spec fn glider_at(g: Seq<bool>, cx: int, cy: int) -> bool {
    forall|i: int, j: int|
        0 <= i < WIDTH as int && 0 <= j < HEIGHT as int ==> #[trigger] cell(g, i, j)
            == glider_covers(cx, cy, i, j)
}

/// The glider one step after its base orientation.
pub open spec fn glider_phase_one_covers(cx: int, cy: int, x: int, y: int) -> bool {
    ||| (y == cy + 1 && (x == cx || x == cx + 2))
    ||| (y == cy + 2 && (x == cx + 1 || x == cx + 2))
    ||| (y == cy + 3 && x == cx + 1)
}

/// The glider two steps after its base orientation.
pub open spec fn glider_phase_two_covers(cx: int, cy: int, x: int, y: int) -> bool {
    ||| (y == cy + 1 && x == cx + 2)
    ||| (y == cy + 2 && (x == cx || x == cx + 2))
    ||| (y == cy + 3 && (x == cx + 1 || x == cx + 2))
}

/// The glider three steps after its base orientation.
pub open spec fn glider_phase_three_covers(cx: int, cy: int, x: int, y: int) -> bool {
    ||| (y == cy + 1 && x == cx + 1)
    ||| (y == cy + 2 && (x == cx + 2 || x == cx + 3))
    ||| (y == cy + 3 && (x == cx + 1 || x == cx + 2))
}

/// A grid whose only live cells are the first mid-phase of a glider.
pub open spec fn glider_phase_one_at(g: Seq<bool>, cx: int, cy: int) -> bool {
    forall|i: int, j: int|
        0 <= i < WIDTH as int && 0 <= j < HEIGHT as int ==> #[trigger] cell(g, i, j)
            == glider_phase_one_covers(cx, cy, i, j)
}

/// A grid whose only live cells are the second mid-phase of a glider.
pub open spec fn glider_phase_two_at(g: Seq<bool>, cx: int, cy: int) -> bool {
    forall|i: int, j: int|
        0 <= i < WIDTH as int && 0 <= j < HEIGHT as int ==> #[trigger] cell(g, i, j)
            == glider_phase_two_covers(cx, cy, i, j)
}

/// A grid whose only live cells are the third mid-phase of a glider.
pub open spec fn glider_phase_three_at(g: Seq<bool>, cx: int, cy: int) -> bool {
    forall|i: int, j: int|
        0 <= i < WIDTH as int && 0 <= j < HEIGHT as int ==> #[trigger] cell(g, i, j)
            == glider_phase_three_covers(cx, cy, i, j)
}

/// The anchor keeps the glider and its whole four-step evolution away from
/// the grid edges.
pub open spec fn glider_margin(cx: int, cy: int) -> bool {
    1 <= cx && cx + 4 < WIDTH as int && 1 <= cy && cy + 4 < HEIGHT as int
}

/// One step takes a lone base-orientation glider to its first mid-phase.
pub proof fn lemma_glider_phase_a(g: Seq<bool>, h: Seq<bool>, cx: int, cy: int)
    requires
        glider_margin(cx, cy),
        glider_at(g, cx, cy),
        is_step(g, h),
    ensures
        glider_phase_one_at(h, cx, cy),
{
    assert forall|i: int, j: int|
        0 <= i < WIDTH as int && 0 <= j < HEIGHT as int implies #[trigger] cell(h, i, j)
        == glider_phase_one_covers(cx, cy, i, j) by {
        assert(cell(h, i, j) == next_cell(g, i, j));
    }
}

/// One step takes the first mid-phase of a glider to the second.
pub proof fn lemma_glider_phase_b(g: Seq<bool>, h: Seq<bool>, cx: int, cy: int)
    requires
        glider_margin(cx, cy),
        glider_phase_one_at(g, cx, cy),
        is_step(g, h),
    ensures
        glider_phase_two_at(h, cx, cy),
{
    assert forall|i: int, j: int|
        0 <= i < WIDTH as int && 0 <= j < HEIGHT as int implies #[trigger] cell(h, i, j)
        == glider_phase_two_covers(cx, cy, i, j) by {
        assert(cell(h, i, j) == next_cell(g, i, j));
    }
}

/// One step takes the second mid-phase of a glider to the third.
pub proof fn lemma_glider_phase_c(g: Seq<bool>, h: Seq<bool>, cx: int, cy: int)
    requires
        glider_margin(cx, cy),
        glider_phase_two_at(g, cx, cy),
        is_step(g, h),
    ensures
        glider_phase_three_at(h, cx, cy),
{
    assert forall|i: int, j: int|
        0 <= i < WIDTH as int && 0 <= j < HEIGHT as int implies #[trigger] cell(h, i, j)
        == glider_phase_three_covers(cx, cy, i, j) by {
        assert(cell(h, i, j) == next_cell(g, i, j));
    }
}

/// One step takes the third mid-phase of a glider back to the base
/// orientation, anchored one cell down and one cell right.
pub proof fn lemma_glider_phase_d(g: Seq<bool>, h: Seq<bool>, cx: int, cy: int)
    requires
        glider_margin(cx, cy),
        glider_phase_three_at(g, cx, cy),
        is_step(g, h),
    ensures
        glider_at(h, cx + 1, cy + 1),
{
    assert forall|i: int, j: int|
        0 <= i < WIDTH as int && 0 <= j < HEIGHT as int implies #[trigger] cell(h, i, j)
        == glider_covers(cx + 1, cy + 1, i, j) by {
        assert(cell(h, i, j) == next_cell(g, i, j));
    }
}

/// A lone glider translates diagonally by one cell down and one cell right
/// every four steps, preserving its five-cell shape exactly; as long as the
/// margin holds, the translation repeats indefinitely.
pub proof fn lemma_glider_translates(
    g0: Seq<bool>,
    g1: Seq<bool>,
    g2: Seq<bool>,
    g3: Seq<bool>,
    g4: Seq<bool>,
    cx: int,
    cy: int,
)
    requires
        glider_margin(cx, cy),
        glider_at(g0, cx, cy),
        is_step(g0, g1),
        is_step(g1, g2),
        is_step(g2, g3),
        is_step(g3, g4),
    ensures
        glider_at(g4, cx + 1, cy + 1),
{
    lemma_glider_phase_a(g0, g1, cx, cy);
    lemma_glider_phase_b(g1, g2, cx, cy);
    lemma_glider_phase_c(g2, g3, cx, cy);
    lemma_glider_phase_d(g3, g4, cx, cy);
}

} // verus!
