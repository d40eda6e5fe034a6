use conway::conway::Life;
use conway::conway::GRID_LEN;
use conway::conway::HEIGHT;
use conway::conway::WIDTH;

fn blank_life() -> Life {
    Life { grid: vec![false; GRID_LEN], next: vec![false; GRID_LEN] }
}

fn set_cell(life: &mut Life, x: usize, y: usize) {
    life.grid[y * WIDTH + x] = true;
}

fn alive(life: &Life, x: usize, y: usize) -> bool {
    life.is_alive(x, y).unwrap()
}

fn live_cells(life: &Life) -> Vec<(usize, usize)> {
    let mut cells = Vec::new();
    for y in 0..HEIGHT {
        for x in 0..WIDTH {
            if alive(life, x, y) {
                cells.push((x, y));
            }
        }
    }
    cells
}

#[test]
fn seed_is_deterministic() {
    let a = Life::new();
    let b = Life::new();
    for y in 0..HEIGHT {
        for x in 0..WIDTH {
            assert_eq!(a.is_alive(x, y), b.is_alive(x, y));
        }
    }
}

#[test]
fn seeded_grid_has_known_cells() {
    let life = Life::new();
    // Cells of the center pulsar.
    assert_eq!(life.is_alive(52, 51), Some(true));
    assert_eq!(life.is_alive(44, 46), Some(true));
    // The pulsar's own center stays dead.
    assert_eq!(life.is_alive(50, 50), Some(false));
    // The left-edge glider at (8, 35).
    assert!(alive(&life, 9, 35));
    assert!(alive(&life, 10, 36));
    assert!(alive(&life, 8, 37));
    assert!(alive(&life, 9, 37));
    assert!(alive(&life, 10, 37));
    // The rotated glider at (92, 35).
    assert!(alive(&life, 94, 35));
    assert!(alive(&life, 92, 36));
    assert!(alive(&life, 94, 36));
    assert!(alive(&life, 93, 37));
    assert!(alive(&life, 94, 37));
    // One corner beehive: anchor (0, 0) plus offset (12, 6).
    assert!(alive(&life, 13, 6));
    assert!(alive(&life, 12, 7));
    assert!(alive(&life, 15, 7));
    // A grid corner stays empty.
    assert_eq!(life.is_alive(0, 0), Some(false));
}

#[test]
fn seeded_scratch_buffer_is_clear() {
    let life = Life::new();
    assert_eq!(life.next, vec![false; GRID_LEN]);
}

#[test]
fn is_alive_rejects_out_of_range() {
    let life = Life::new();
    assert_eq!(life.is_alive(WIDTH, 0), None);
    assert_eq!(life.is_alive(0, HEIGHT), None);
    assert_eq!(life.is_alive(WIDTH, HEIGHT), None);
    assert_eq!(life.is_alive(usize::MAX, 3), None);
    assert!(life.is_alive(WIDTH - 1, HEIGHT - 1).is_some());
}

#[test]
fn lone_cell_dies_everywhere() {
    for &(x, y) in &[(0usize, 0usize), (99, 99), (0, 50), (99, 0), (50, 50)] {
        let mut life = blank_life();
        set_cell(&mut life, x, y);
        life.update();
        assert_eq!(live_cells(&life), vec![]);
    }
}

#[test]
fn live_cell_with_two_or_three_neighbors_survives() {
    // A two-by-two block is a still life: every cell has three neighbors.
    let mut life = blank_life();
    set_cell(&mut life, 5, 5);
    set_cell(&mut life, 6, 5);
    set_cell(&mut life, 5, 6);
    set_cell(&mut life, 6, 6);
    life.update();
    assert_eq!(live_cells(&life), vec![(5, 5), (6, 5), (5, 6), (6, 6)]);
}

#[test]
fn dead_cell_with_three_neighbors_is_born() {
    // Three corners of a square complete themselves into a block.
    let mut life = blank_life();
    set_cell(&mut life, 5, 5);
    set_cell(&mut life, 6, 5);
    set_cell(&mut life, 5, 6);
    life.update();
    assert_eq!(live_cells(&life), vec![(5, 5), (6, 5), (5, 6), (6, 6)]);
}

#[test]
fn live_cell_with_four_neighbors_dies() {
    // The center of a plus shape has four neighbors and dies.
    let mut life = blank_life();
    set_cell(&mut life, 5, 4);
    set_cell(&mut life, 4, 5);
    set_cell(&mut life, 5, 5);
    set_cell(&mut life, 6, 5);
    set_cell(&mut life, 5, 6);
    life.update();
    assert!(!alive(&life, 5, 5));
    // An arm kept exactly three neighbors and survives.
    assert!(alive(&life, 5, 4));
}

#[test]
fn columns_wrap_around() {
    // A blinker straddling the vertical seam: its ends sit in the last and
    // the second column, so the end cells are neighbors of the center at
    // column zero.
    let mut life = blank_life();
    set_cell(&mut life, 99, 10);
    set_cell(&mut life, 0, 10);
    set_cell(&mut life, 1, 10);
    life.update();
    assert_eq!(live_cells(&life), vec![(0, 9), (0, 10), (0, 11)]);
}

#[test]
fn rows_wrap_around() {
    // A vertical blinker straddling the horizontal seam.
    let mut life = blank_life();
    set_cell(&mut life, 10, 99);
    set_cell(&mut life, 10, 0);
    set_cell(&mut life, 10, 1);
    life.update();
    assert_eq!(live_cells(&life), vec![(9, 0), (10, 0), (11, 0)]);
}

#[test]
fn blinker_oscillates_with_period_two() {
    let mut life = blank_life();
    life.add_blinker(40, 40);
    let start = life.grid.clone();
    life.update();
    // The horizontal row became the vertical column through the same center.
    assert_eq!(live_cells(&life), vec![(41, 39), (41, 40), (41, 41)]);
    life.update();
    assert_eq!(life.grid, start);
    // And it keeps oscillating.
    life.update();
    life.update();
    assert_eq!(life.grid, start);
}

#[test]
fn glider_translates_diagonally_every_four_steps() {
    let mut life = blank_life();
    life.add_glider(10, 10);
    for _ in 0..4 {
        life.update();
    }
    let mut shifted = blank_life();
    shifted.add_glider(11, 11);
    assert_eq!(life.grid, shifted.grid);
    for _ in 0..4 {
        life.update();
    }
    let mut shifted_twice = blank_life();
    shifted_twice.add_glider(12, 12);
    assert_eq!(life.grid, shifted_twice.grid);
}

#[test]
fn placement_clips_at_the_edge() {
    // A pulsar centered on the corner: only the offsets with non-negative
    // coordinates are placed; nothing wraps to the far side.
    let mut life = blank_life();
    life.add_pulsar(0, 0);
    let cells = live_cells(&life);
    assert_eq!(cells.len(), 12);
    for &(x, y) in &cells {
        assert!(x <= 6 && y <= 6);
    }
    // The clipped cells do not reappear at the opposite edge.
    assert!(!alive(&life, 96, 94));
    assert!(!alive(&life, 99, 99));
}

#[test]
fn every_seeded_cell_is_in_range() {
    // Scanning the whole grid after seeding reaches every live cell; each
    // read is in range and the borders beyond the grid hold nothing.
    let life = Life::new();
    let cells = live_cells(&life);
    assert!(!cells.is_empty());
    for &(x, y) in &cells {
        assert!(x < WIDTH && y < HEIGHT);
    }
}

#[test]
fn shapes_cover_their_exact_cells() {
    let mut life = blank_life();
    life.add_tub(10, 10);
    assert_eq!(live_cells(&life), vec![(11, 10), (10, 11), (12, 11), (11, 12)]);

    let mut life = blank_life();
    life.add_beehive(10, 10);
    assert_eq!(live_cells(&life), vec![(11, 10), (12, 10), (10, 11), (13, 11), (11, 12), (12, 12)]);

    let mut life = blank_life();
    life.add_toad(10, 10);
    assert_eq!(live_cells(&life), vec![(11, 10), (12, 10), (13, 10), (10, 11), (11, 11), (12, 11)]);

    let mut life = blank_life();
    life.add_blinker_vertical(10, 10);
    assert_eq!(live_cells(&life), vec![(10, 10), (10, 11), (10, 12)]);

    let mut life = blank_life();
    life.add_glider_rotated(10, 10, 1);
    assert_eq!(live_cells(&life), vec![(12, 10), (10, 11), (12, 11), (11, 12), (12, 12)]);

    // A rotation index is reduced modulo four: five is rotation one.
    let mut wrapped = blank_life();
    wrapped.add_glider_rotated(10, 10, 5);
    assert_eq!(live_cells(&wrapped), vec![(12, 10), (10, 11), (12, 11), (11, 12), (12, 12)]);

    let mut life = blank_life();
    life.add_glider_rotated(10, 10, 0);
    let mut base = blank_life();
    base.add_glider(10, 10);
    assert_eq!(live_cells(&life), live_cells(&base));
}

#[test]
fn update_leaves_buffers_in_sync() {
    let mut life = Life::new();
    life.update();
    assert_eq!(life.grid, life.next);
}
