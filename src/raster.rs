use vstd::prelude::*;

verus! {

/// Display width in pixels.
pub const WIDTH: u32 = 128;

/// Display height in pixels.
pub const HEIGHT: u32 = 64;

/// Number of pixels on the display.
pub const PIXELS: usize = 8192;

/// Whether `(px, py)` lies on the display.
pub open spec fn in_bounds(px: int, py: int) -> bool {
    0 <= px < WIDTH && 0 <= py < HEIGHT
}

/// Where pixel `(px, py)` is stored: row by row.
pub open spec fn index_of(px: int, py: int) -> int {
    py * 128 + px
}

/// The value of pixel `(px, py)` in a frame's contents.
pub open spec fn pixel_of(s: Seq<u8>, px: int, py: int) -> u8 {
    s[index_of(px, py)]
}

/// Whether `(px, py)` lies in the `w` by `h` rectangle whose top left corner is `(x, y)`.
pub open spec fn in_rect(x: int, y: int, w: int, h: int, px: int, py: int) -> bool {
    x <= px < x + w && y <= py < y + h
}

/// The steps of the midpoint circle algorithm from offsets `(x, y)` and error term `err`:
/// each step gives one offset of the first octant (`y <= x`), then `y` grows by one and,
/// when the error is positive, `x` shrinks by one. The walk ends once `x < y`.
pub open spec fn octant(x: int, y: int, err: int) -> Seq<(int, int)>
    decreases x - y + 2,
{
    if x < y {
        Seq::empty()
    } else {
        let ny = y + 1;
        if err <= 0 {
            seq![(x, y)] + octant(x, ny, err + 2 * ny + 1)
        } else {
            seq![(x, y)] + octant(x - 1, ny, err + 2 * (ny - (x - 1)) + 1)
        }
    }
}

pub open spec fn abs(v: int) -> int {
    if v < 0 {
        -v
    } else {
        v
    }
}

/// Whether the offset `(dx, dy)` is one of the eight reflections of the octant offset `p`
/// through the axes and the diagonals.
pub open spec fn reflects(p: (int, int), dx: int, dy: int) -> bool {
    (abs(dx) == p.0 && abs(dy) == p.1) || (abs(dx) == p.1 && abs(dy) == p.0)
}

/// Whether some offset of `steps` reflects to `(dx, dy)`.
pub open spec fn covered(steps: Seq<(int, int)>, dx: int, dy: int) -> bool {
    exists|k: int| 0 <= k < steps.len() && #[trigger] reflects(steps[k], dx, dy)
}

/// The points that the circle of centre `(cx, cy)` and radius `r` plots, before clipping.
pub open spec fn circle_points(cx: int, cy: int, r: int) -> Set<(int, int)> {
    Set::new(|p: (int, int)| covered(octant(r, 0, 0), p.0 - cx, p.1 - cy))
}

/// A monochrome frame of the display, one byte per pixel.
pub struct Frame {
    pixels: Vec<u8>,
}

impl View for Frame {
    type V = Seq<u8>;

    closed spec fn view(&self) -> Seq<u8> {
        self.pixels@
    }
}

impl Frame {
    pub open spec fn wf(&self) -> bool {
        self@.len() == PIXELS
    }

    /// A frame with every pixel off.
    pub fn new() -> (r: Frame)
        ensures
            r.wf(),
            forall|i: int| 0 <= i < PIXELS ==> #[trigger] r@[i] == 0,
    {
        let mut pixels: Vec<u8> = Vec::new();
        let mut i: usize = 0;
        while i < PIXELS
            invariant
                i <= PIXELS,
                pixels@.len() == i,
                forall|k: int| 0 <= k < i ==> #[trigger] pixels@[k] == 0,
            decreases PIXELS - i,
        {
            pixels.push(0);
            i = i + 1;
        }
        Frame { pixels }
    }

    /// Turns every pixel off.
    pub fn clear(&mut self)
        requires
            old(self).wf(),
        ensures
            final(self).wf(),
            forall|i: int| 0 <= i < PIXELS ==> #[trigger] final(self)@[i] == 0,
    {
        let mut i: usize = 0;
        while i < PIXELS
            invariant
                self.wf(),
                i <= PIXELS,
                forall|k: int| 0 <= k < i ==> #[trigger] self@[k] == 0,
            decreases PIXELS - i,
        {
            self.pixels.set(i, 0);
            i = i + 1;
        }
    }

    /// The value of pixel `(x, y)`; 0 off the display.
    pub fn pixel(&self, x: u32, y: u32) -> (r: u8)
        requires
            self.wf(),
        ensures
            r == if in_bounds(x as int, y as int) { pixel_of(self@, x as int, y as int) } else { 0 },
    {
        if x < WIDTH && y < HEIGHT {
            self.pixels[(y as usize) * 128 + (x as usize)]
        } else {
            0
        }
    }

    /// Sets pixel `(x, y)` to `value`; a pixel off the display is ignored.
    pub fn set_pixel(&mut self, x: u32, y: u32, value: u8)
        requires
            old(self).wf(),
        ensures
            final(self).wf(),
            !in_bounds(x as int, y as int) ==> final(self)@ == old(self)@,
            forall|px: int, py: int|
                in_bounds(px, py) ==> #[trigger] pixel_of(final(self)@, px, py) == if px == x && py == y {
                    value
                } else {
                    pixel_of(old(self)@, px, py)
                },
    {
        if x < WIDTH && y < HEIGHT {
            let idx: usize = (y as usize) * 128 + (x as usize);
            self.pixels.set(idx, value);
        }
    }
    /// Fills the `w` by `h` rectangle whose top left corner is `(x, y)`, pixel by pixel;
    /// the part off the display is clipped.
    pub fn draw_rectangle(&mut self, x: u32, y: u32, w: u32, h: u32)
        requires
            old(self).wf(),
        ensures
            final(self).wf(),
            forall|px: int, py: int|
                in_bounds(px, py) ==> #[trigger] pixel_of(final(self)@, px, py) == if in_rect(
                    x as int,
                    y as int,
                    w as int,
                    h as int,
                    px,
                    py,
                ) {
                    1
                } else {
                    pixel_of(old(self)@, px, py)
                },
    {
        if x >= WIDTH || y >= HEIGHT {
            return;
        }
        let cols: u32 = if w < WIDTH - x { w } else { WIDTH - x };
        let rows: u32 = if h < HEIGHT - y { h } else { HEIGHT - y };
        let ghost before = self@;
        let mut i: u32 = 0;
        while i < cols
            invariant
                self.wf(),
                x < WIDTH,
                y < HEIGHT,
                cols <= w,
                x + cols <= WIDTH,
                rows <= h,
                y + rows <= HEIGHT,
                cols == w || x + cols == WIDTH,
                rows == h || y + rows == HEIGHT,
                i <= cols,
                forall|px: int, py: int|
                    in_bounds(px, py) ==> #[trigger] pixel_of(self@, px, py) == if in_rect(
                        x as int,
                        y as int,
                        i as int,
                        rows as int,
                        px,
                        py,
                    ) {
                        1
                    } else {
                        pixel_of(before, px, py)
                    },
            decreases cols - i,
        {
            let mut j: u32 = 0;
            while j < rows
                invariant
                    self.wf(),
                    x < WIDTH,
                    y < HEIGHT,
                    x + cols <= WIDTH,
                    y + rows <= HEIGHT,
                    i < cols,
                    j <= rows,
                    forall|px: int, py: int|
                        in_bounds(px, py) ==> #[trigger] pixel_of(self@, px, py) == if in_rect(
                            x as int,
                            y as int,
                            i as int,
                            rows as int,
                            px,
                            py,
                        ) || (px == x + i && y <= py < y + j) {
                            1
                        } else {
                            pixel_of(before, px, py)
                        },
                decreases rows - j,
            {
                self.set_pixel(x + i, y + j, 1);
                j = j + 1;
            }
            i = i + 1;
        }
    }

    /// Fills the square of side `size` whose top left corner is `(x, y)`.
    pub fn draw_square(&mut self, x: u32, y: u32, size: u32)
        requires
            old(self).wf(),
        ensures
            final(self).wf(),
            forall|px: int, py: int|
                in_bounds(px, py) ==> #[trigger] pixel_of(final(self)@, px, py) == if in_rect(
                    x as int,
                    y as int,
                    size as int,
                    size as int,
                    px,
                    py,
                ) {
                    1
                } else {
                    pixel_of(old(self)@, px, py)
                },
    {
        self.draw_rectangle(x, y, size, size);
    }
    /// Turns on the pixel at signed coordinates `(px, py)`, if it lies on the display.
    fn plot(&mut self, px: i64, py: i64)
        requires
            old(self).wf(),
        ensures
            final(self).wf(),
            forall|qx: int, qy: int|
                in_bounds(qx, qy) ==> #[trigger] pixel_of(final(self)@, qx, qy) == if qx == px && qy
                    == py {
                    1
                } else {
                    pixel_of(old(self)@, qx, qy)
                },
    {
        if 0 <= px && px < WIDTH as i64 && 0 <= py && py < HEIGHT as i64 {
            self.set_pixel(px as u32, py as u32, 1);
        }
    }

    /// Plots the eight reflections of the octant offset `(x, y)` around `(cx, cy)`.
    fn plot_reflections(&mut self, cx: i64, cy: i64, x: i64, y: i64)
        requires
            old(self).wf(),
            0 <= y <= x <= u32::MAX,
            0 <= cx <= u32::MAX,
            0 <= cy <= u32::MAX,
        ensures
            final(self).wf(),
            forall|qx: int, qy: int|
                in_bounds(qx, qy) ==> #[trigger] pixel_of(final(self)@, qx, qy) == if reflects(
                    (x as int, y as int),
                    qx - cx,
                    qy - cy,
                ) {
                    1
                } else {
                    pixel_of(old(self)@, qx, qy)
                },
    {
        let ghost before = self@;
        self.plot(cx + x, cy + y);
        self.plot(cx + y, cy + x);
        self.plot(cx - y, cy + x);
        self.plot(cx - x, cy + y);
        self.plot(cx - x, cy - y);
        self.plot(cx - y, cy - x);
        self.plot(cx + y, cy - x);
        self.plot(cx + x, cy - y);
        assert forall|qx: int, qy: int| in_bounds(qx, qy) implies #[trigger] pixel_of(self@, qx, qy)
            == if reflects((x as int, y as int), qx - cx, qy - cy) {
            1
        } else {
            pixel_of(before, qx, qy)
        } by {
            let dx = qx - cx;
            let dy = qy - cy;
            if reflects((x as int, y as int), dx, dy) {
                assert((dx == x || dx == -x) && (dy == y || dy == -y) || (dx == y || dx == -y) && (
                dy == x || dy == -x));
            }
        }
    }

    /// Draws the outline of the circle of centre `(x0, y0)` and radius `radius` with the
    /// midpoint algorithm, plotting the eight symmetric points of each step; the part off the
    /// display is clipped.
    pub fn draw_circle(&mut self, x0: u32, y0: u32, radius: u32)
        requires
            old(self).wf(),
        ensures
            final(self).wf(),
            forall|px: int, py: int|
                in_bounds(px, py) ==> #[trigger] pixel_of(final(self)@, px, py) == if circle_points(
                    x0 as int,
                    y0 as int,
                    radius as int,
                ).contains((px, py)) {
                    1
                } else {
                    pixel_of(old(self)@, px, py)
                },
    {
        let ghost before = self@;
        let ghost r = radius as int;
        let cx: i64 = x0 as i64;
        let cy: i64 = y0 as i64;
        let mut x: i64 = radius as i64;
        let mut y: i64 = 0;
        let mut err: i64 = 0;
        let ghost mut done: Seq<(int, int)> = Seq::empty();
        while x >= y
            invariant
                self.wf(),
                cx == x0,
                cy == y0,
                -1 <= x <= r,
                0 <= y <= r + 1,
                y <= x + 2,
                -2 * r - 2 <= err <= 2 * r + 6 * y + 6,
                r == radius,
                done + octant(x as int, y as int, err as int) == octant(r, 0, 0),
                forall|px: int, py: int|
                    in_bounds(px, py) ==> #[trigger] pixel_of(self@, px, py) == if covered(
                        done,
                        px - cx,
                        py - cy,
                    ) {
                        1
                    } else {
                        pixel_of(before, px, py)
                    },
            decreases x - y + 2,
        {
            let ghost prev = self@;
            self.plot_reflections(cx, cy, x, y);
            let ghost step = (x as int, y as int);
            proof {
                lemma_covered_push(done, step);
                let ny = y + 1;
                let rest = if err <= 0 {
                    octant(x as int, ny, err + 2 * ny + 1)
                } else {
                    octant(x - 1, ny, err + 2 * (ny - (x - 1)) + 1)
                };
                assert(octant(x as int, y as int, err as int) == seq![step] + rest);
                assert(done + octant(x as int, y as int, err as int) == done.push(step) + rest);
                done = done.push(step);
            }
            y += 1;
            if err <= 0 {
                err += 2 * y + 1;
            } else {
                x -= 1;
                err += 2 * (y - x) + 1;
            }
        }
        proof {
            assert(done =~= octant(r, 0, 0));
        }
    }
}

/// Appending an offset to the steps covers what the steps covered and the reflections of
/// that offset.
proof fn lemma_covered_push(steps: Seq<(int, int)>, p: (int, int))
    ensures
        forall|dx: int, dy: int|
            #[trigger] covered(steps.push(p), dx, dy) == (covered(steps, dx, dy) || reflects(
                p,
                dx,
                dy,
            )),
{
    assert forall|dx: int, dy: int|
        #[trigger] covered(steps.push(p), dx, dy) == (covered(steps, dx, dy) || reflects(
            p,
            dx,
            dy,
        )) by {
        let s2 = steps.push(p);
        if covered(steps, dx, dy) {
            let k = choose|k: int| 0 <= k < steps.len() && #[trigger] reflects(steps[k], dx, dy);
            assert(s2[k] == steps[k]);
        }
        if reflects(p, dx, dy) {
            assert(s2[steps.len() as int] == p);
        }
        if covered(s2, dx, dy) {
            let k = choose|k: int| 0 <= k < s2.len() && #[trigger] reflects(s2[k], dx, dy);
            if k < steps.len() {
                assert(s2[k] == steps[k]);
            }
        }
    }
}


/// A circle of radius 0 plots exactly one point: its centre.
pub proof fn lemma_circle_radius_zero(cx: int, cy: int)
    ensures
        circle_points(cx, cy, 0) == set![(cx, cy)],
{
    reveal_with_fuel(octant, 2);
    let steps = octant(0, 0, 0);
    assert(steps == seq![(0int, 0int)]);
    assert forall|p: (int, int)| circle_points(cx, cy, 0).contains(p) <==> p == (cx, cy) by {
        if p == (cx, cy) {
            assert(reflects(steps[0], p.0 - cx, p.1 - cy));
        }
        if circle_points(cx, cy, 0).contains(p) {
            let k = choose|k: int| 0 <= k < steps.len() && #[trigger] reflects(steps[k], p.0 - cx, p.1 - cy);
            assert(k == 0);
        }
    }
    assert(circle_points(cx, cy, 0) =~= set![(cx, cy)]);
}

/// The plotted points of any circle are symmetric under the eight reflections of the
/// algorithm: through the two axes and the two diagonals that cross at the centre.
pub proof fn lemma_circle_symmetry(cx: int, cy: int, r: int, dx: int, dy: int)
    requires
        circle_points(cx, cy, r).contains((cx + dx, cy + dy)),
    ensures
        circle_points(cx, cy, r).contains((cx + dx, cy - dy)),
        circle_points(cx, cy, r).contains((cx - dx, cy + dy)),
        circle_points(cx, cy, r).contains((cx - dx, cy - dy)),
        circle_points(cx, cy, r).contains((cx + dy, cy + dx)),
        circle_points(cx, cy, r).contains((cx + dy, cy - dx)),
        circle_points(cx, cy, r).contains((cx - dy, cy + dx)),
        circle_points(cx, cy, r).contains((cx - dy, cy - dx)),
{
    let steps = octant(r, 0, 0);
    assert(covered(steps, dx, dy));
    let k = choose|k: int| 0 <= k < steps.len() && #[trigger] reflects(steps[k], dx, dy);
    assert(reflects(steps[k], dx, -dy));
    assert(reflects(steps[k], -dx, dy));
    assert(reflects(steps[k], -dx, -dy));
    assert(reflects(steps[k], dy, dx));
    assert(reflects(steps[k], dy, -dx));
    assert(reflects(steps[k], -dy, dx));
    assert(reflects(steps[k], -dy, -dx));
}

} // verus!
