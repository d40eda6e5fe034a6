use conway::conway::Life;
use conway::conway::GRID_LEN;
use conway::framebuffer::Color;
use conway::framebuffer::Framebuffer;

fn black() -> Color {
    Color { r: 0, g: 0, b: 0, a: 255 }
}

fn white() -> Color {
    Color { r: 255, g: 255, b: 255, a: 255 }
}

fn teal() -> Color {
    Color { r: 0, g: 128, b: 128, a: 255 }
}

#[test]
fn new_surface_is_filled_with_background() {
    let mut fb = Framebuffer::new(7, 5, teal());
    for y in 0..5 {
        for x in 0..7 {
            assert_eq!(fb.get_pixel(x, y), Some(teal()));
        }
    }
}

#[test]
fn get_after_set_returns_the_written_color() {
    let mut fb = Framebuffer::new(10, 8, black());
    fb.set_pixel(3, 4, teal());
    assert_eq!(fb.get_pixel(3, 4), Some(teal()));
    // Every other pixel still reads the background.
    assert_eq!(fb.get_pixel(4, 3), Some(black()));
    assert_eq!(fb.get_pixel(0, 0), Some(black()));
    assert_eq!(fb.get_pixel(9, 7), Some(black()));
}

#[test]
fn out_of_bounds_get_is_absent_not_a_default() {
    let mut fb = Framebuffer::new(10, 8, black());
    assert_eq!(fb.get_pixel(-1, 0), None);
    assert_eq!(fb.get_pixel(0, -1), None);
    assert_eq!(fb.get_pixel(10, 0), None);
    assert_eq!(fb.get_pixel(0, 8), None);
    assert_eq!(fb.get_pixel(i32::MAX, i32::MAX), None);
}

#[test]
fn out_of_bounds_set_changes_nothing() {
    let mut fb = Framebuffer::new(4, 4, black());
    fb.set_pixel(4, 0, teal());
    fb.set_pixel(0, 4, teal());
    fb.set_pixel(-1, 2, teal());
    for y in 0..4 {
        for x in 0..4 {
            assert_eq!(fb.get_pixel(x, y), Some(black()));
        }
    }
}

#[test]
fn non_positive_dimensions_give_an_empty_surface() {
    let mut fb = Framebuffer::new(0, 5, teal());
    assert_eq!(fb.get_pixel(0, 0), None);
    let mut fb = Framebuffer::new(-3, 4, teal());
    assert_eq!(fb.get_pixel(0, 0), None);
    let mut fb = Framebuffer::new(6, -2, teal());
    assert_eq!(fb.get_pixel(0, 0), None);
}

#[test]
fn aliveness_maps_to_white_and_black() {
    let fb = Framebuffer::new(1, 1, black());
    assert_eq!(fb.get_color(true), white());
    assert_eq!(fb.get_color(false), black());
}

#[test]
fn render_paints_aliveness_into_the_surface() {
    let mut life = Life { grid: vec![false; GRID_LEN], next: vec![false; GRID_LEN] };
    life.add_blinker(1, 1);
    let mut fb = Framebuffer::new(100, 100, teal());
    life.render(&mut fb);
    assert_eq!(fb.get_pixel(1, 1), Some(white()));
    assert_eq!(fb.get_pixel(2, 1), Some(white()));
    assert_eq!(fb.get_pixel(3, 1), Some(white()));
    assert_eq!(fb.get_pixel(0, 0), Some(black()));
    assert_eq!(fb.get_pixel(4, 1), Some(black()));
    assert_eq!(fb.get_pixel(99, 99), Some(black()));
}

#[test]
fn render_into_a_small_surface_clips_quietly() {
    let mut life = Life { grid: vec![false; GRID_LEN], next: vec![false; GRID_LEN] };
    life.add_blinker(1, 1);
    let mut fb = Framebuffer::new(3, 3, teal());
    life.render(&mut fb);
    assert_eq!(fb.get_pixel(1, 1), Some(white()));
    assert_eq!(fb.get_pixel(2, 1), Some(white()));
    assert_eq!(fb.get_pixel(0, 0), Some(black()));
    assert_eq!(fb.get_pixel(3, 1), None);
}
