use asm_firmware::raster::{Frame, HEIGHT, WIDTH};
use asm_firmware::render::{Display, FRAME_INTERVAL_MS, PIPELINE_CAPACITY};

fn lit_pixels(frame: &Frame) -> Vec<(u32, u32)> {
    let mut out = Vec::new();
    for y in 0..HEIGHT {
        for x in 0..WIDTH {
            if frame.pixel(x, y) != 0 {
                out.push((x, y));
            }
        }
    }
    out
}

fn offsets(points: &[(u32, u32)], cx: i64, cy: i64) -> Vec<(i64, i64)> {
    let mut out: Vec<(i64, i64)> = points.iter().map(|&(x, y)| (x as i64 - cx, y as i64 - cy)).collect();
    out.sort();
    out
}

#[test]
fn queue_keeps_capacity_and_drops_the_next() {
    let mut d = Display::build();
    for i in 0..(PIPELINE_CAPACITY as u32 + 1) {
        d.draw_square(i, 0, 1);
    }
    assert_eq!(d.queue_len(), PIPELINE_CAPACITY);
    assert_eq!(d.queue_len(), 32);
    assert!(d.update(FRAME_INTERVAL_MS));
    let lit = lit_pixels(d.frame());
    // squares 0..32 were kept; the one at x = 32 was dropped
    assert_eq!(lit.len(), 32);
    assert!(lit.contains(&(31, 0)));
    assert!(!lit.contains(&(32, 0)));
    assert_eq!(d.queue_len(), 0);
}

#[test]
fn every_primitive_kind_fits_until_full() {
    let mut d = Display::build();
    d.draw_rectangle(0, 0, 2, 2);
    d.draw_circle(10, 10, 1);
    d.draw_square(20, 20, 3);
    assert_eq!(d.queue_len(), 3);
}

#[test]
fn flush_gating_draws_once_within_an_interval() {
    let mut d = Display::build();
    d.draw_square(0, 0, 2);
    assert!(!d.update(50));
    assert_eq!(d.queue_len(), 1);
    assert!(d.update(100));
    assert_eq!(d.queue_len(), 0);
    d.draw_square(5, 5, 2);
    assert!(!d.update(150));
    assert!(!d.update(199));
    assert_eq!(d.queue_len(), 1);
    assert!(d.update(200));
    assert_eq!(d.queue_len(), 0);
}

#[test]
fn gating_near_the_counter_wrap_matches_gating_near_zero() {
    let mut low = Display::build();
    assert!(low.update(1000));
    assert!(!low.update(1099));
    assert!(low.update(1100));

    let mut high = Display::build();
    assert!(high.update(0xFFFF_FFC0));
    assert!(!high.update(0xFFFF_FFC0u32.wrapping_add(99)));
    assert!(high.update(0xFFFF_FFC0u32.wrapping_add(100)));
}

#[test]
fn frame_is_cleared_before_drawing() {
    let mut d = Display::build();
    d.draw_square(0, 0, 4);
    assert!(d.update(100));
    assert_eq!(lit_pixels(d.frame()).len(), 16);
    d.draw_square(100, 50, 2);
    assert!(d.update(200));
    assert_eq!(lit_pixels(d.frame()), vec![(100, 50), (101, 50), (100, 51), (101, 51)]);
}

#[test]
fn update_without_commands_gives_a_blank_frame() {
    let mut d = Display::build();
    d.set_pixel(3, 3, 1);
    assert_eq!(d.frame().pixel(3, 3), 1);
    assert!(d.update(100));
    assert!(lit_pixels(d.frame()).is_empty());
}

#[test]
fn init_draws_the_queue() {
    let mut d = Display::build();
    d.draw_rectangle(1, 2, 3, 1);
    d.init();
    assert_eq!(lit_pixels(d.frame()), vec![(1, 2), (2, 2), (3, 2)]);
    assert_eq!(d.queue_len(), 0);
}

#[test]
fn rectangle_fills_its_interior() {
    let mut d = Display::build();
    d.draw_rectangle(10, 20, 3, 2);
    d.init();
    let lit = lit_pixels(d.frame());
    assert_eq!(lit, vec![(10, 20), (11, 20), (12, 20), (10, 21), (11, 21), (12, 21)]);
}

#[test]
fn rectangle_is_clipped_at_the_edges() {
    let mut d = Display::build();
    d.draw_rectangle(126, 62, 10, 10);
    d.draw_rectangle(200, 0, 5, 5);
    d.draw_rectangle(u32::MAX, u32::MAX, u32::MAX, u32::MAX);
    d.init();
    assert_eq!(lit_pixels(d.frame()), vec![(126, 62), (127, 62), (126, 63), (127, 63)]);
}

#[test]
fn empty_rectangle_draws_nothing() {
    let mut d = Display::build();
    d.draw_rectangle(5, 5, 0, 7);
    d.draw_square(5, 5, 0);
    d.init();
    assert!(lit_pixels(d.frame()).is_empty());
}

#[test]
fn square_has_equal_sides() {
    let mut d = Display::build();
    d.draw_square(7, 3, 3);
    d.init();
    let lit = lit_pixels(d.frame());
    assert_eq!(lit.len(), 9);
    assert!(lit.contains(&(7, 3)));
    assert!(lit.contains(&(9, 5)));
    assert!(!lit.contains(&(10, 5)));
}

#[test]
fn circle_of_radius_zero_is_its_centre() {
    let mut d = Display::build();
    d.draw_circle(40, 30, 0);
    d.init();
    assert_eq!(lit_pixels(d.frame()), vec![(40, 30)]);
}

#[test]
fn circle_of_radius_one() {
    let mut d = Display::build();
    d.draw_circle(40, 30, 1);
    d.init();
    let got = offsets(&lit_pixels(d.frame()), 40, 30);
    assert_eq!(got, vec![(-1, -1), (-1, 0), (-1, 1), (0, -1), (0, 1), (1, -1), (1, 0), (1, 1)]);
}

#[test]
fn circle_of_radius_five_is_symmetric() {
    let mut d = Display::build();
    d.draw_circle(60, 30, 5);
    d.init();
    let got = offsets(&lit_pixels(d.frame()), 60, 30);
    let expected: Vec<(i64, i64)> = vec![
        (-5, -1), (-5, 0), (-5, 1), (-4, -3), (-4, -2), (-4, 2), (-4, 3), (-3, -4), (-3, 4),
        (-2, -4), (-2, 4), (-1, -5), (-1, 5), (0, -5), (0, 5), (1, -5), (1, 5), (2, -4), (2, 4),
        (3, -4), (3, 4), (4, -3), (4, -2), (4, 2), (4, 3), (5, -1), (5, 0), (5, 1),
    ];
    assert_eq!(got, expected);
    for &(dx, dy) in &got {
        for r in [(dx, -dy), (-dx, dy), (-dx, -dy), (dy, dx), (dy, -dx), (-dy, dx), (-dy, -dx)] {
            assert!(got.contains(&r));
        }
    }
}

#[test]
fn circle_is_clipped_not_wrapped() {
    let mut d = Display::build();
    d.draw_circle(0, 0, 2);
    d.init();
    let lit = lit_pixels(d.frame());
    assert_eq!(lit, vec![(2, 0), (2, 1), (0, 2), (1, 2)]);
}

#[test]
fn frame_pixels_off_the_display_read_as_zero() {
    let mut f = Frame::new();
    f.set_pixel(200, 10, 1);
    f.set_pixel(10, 64, 1);
    assert!(lit_pixels(&f).is_empty());
    assert_eq!(f.pixel(200, 10), 0);
    f.set_pixel(127, 63, 1);
    assert_eq!(f.pixel(127, 63), 1);
    f.clear();
    assert_eq!(f.pixel(127, 63), 0);
}

#[test]
fn frame_drawing_without_queue() {
    let mut f = Frame::new();
    f.draw_square(0, 0, 2);
    f.draw_circle(50, 30, 0);
    f.draw_rectangle(10, 10, 1, 3);
    assert_eq!(lit_pixels(&f), vec![(0, 0), (1, 0), (0, 1), (1, 1), (10, 10), (10, 11), (10, 12), (50, 30)]);
}
