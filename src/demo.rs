use vstd::prelude::*;

use crate::raster::{circle_points, in_bounds, in_rect, pixel_of, Frame, HEIGHT, WIDTH};

verus! {

/// Joystick reading at which the square reaches the far edge.
pub const FULL_DEFLECTION: u32 = 690;

/// Where the top left corner of a square of side `size` sits for joystick readings
/// `(read_x, read_y)`: each axis scaled from `0..FULL_DEFLECTION` onto the free room along it,
/// the horizontal one held at the right edge.
pub open spec fn square_origin_spec(read_x: u16, read_y: u16, size: u32) -> (int, int) {
    let room_x = WIDTH - size;
    let room_y = HEIGHT - size;
    let x = (read_x * room_x) / FULL_DEFLECTION as int;
    (if x < room_x { x } else { room_x as int }, (read_y * room_y) / FULL_DEFLECTION as int)
}

/// The corner of the square for the joystick readings `(read_x, read_y)`.
pub fn square_origin(read_x: u16, read_y: u16, size: u32) -> (r: (u32, u32))
    requires
        size <= HEIGHT,
    ensures
        (r.0 as int, r.1 as int) == square_origin_spec(read_x, read_y, size),
{
    let room_x: u32 = WIDTH - size;
    let room_y: u32 = HEIGHT - size;
    assert(read_x as u32 * room_x <= 65535 * 128) by (nonlinear_arith)
        requires
            room_x <= 128,
    ;
    assert(read_y as u32 * room_y <= 65535 * 64) by (nonlinear_arith)
        requires
            room_y <= 64,
    ;
    let scaled_x: u32 = (read_x as u32 * room_x) / FULL_DEFLECTION;
    let x: u32 = if scaled_x < room_x { scaled_x } else { room_x };
    let y: u32 = (read_y as u32 * room_y) / FULL_DEFLECTION;
    (x, y)
}

/// The square's next side: one more while the button is held, else one less down to 1.
pub fn next_square_size(size: u32, pressed: bool) -> (r: u32)
    requires
        pressed ==> size < u32::MAX,
    ensures
        r == if pressed {
            size + 1
        } else if size > 1 {
            size - 1
        } else {
            size as int
        },
{
    if pressed {
        size + 1
    } else if size > 1 {
        size - 1
    } else {
        size
    }
}

/// Draws the demo frame: a clear frame with the filled square of side `size` at `(x, y)` and
/// the outline of the circle of radius `size` around the square's centre.
pub fn draw_demo_frame(frame: &mut Frame, x: u32, y: u32, size: u32)
    requires
        old(frame).wf(),
        x + size / 2 <= u32::MAX,
        y + size / 2 <= u32::MAX,
    ensures
        final(frame).wf(),
        forall|px: int, py: int|
            in_bounds(px, py) ==> #[trigger] pixel_of(final(frame)@, px, py) == if in_rect(
                x as int,
                y as int,
                size as int,
                size as int,
                px,
                py,
            ) || circle_points(x + size / 2, y + size / 2, size as int).contains((px, py)) {
                1u8
            } else {
                0u8
            },
{
    frame.clear();
    frame.draw_square(x, y, size);
    frame.draw_circle(x + size / 2, y + size / 2, size);
}

} // verus!
