use vstd::prelude::*;

use crate::queue::{
    param_values, params_get, params_len, params_new, params_push, pipeline_capacity, pipeline_len,
    pipeline_new, pipeline_pop, pipeline_push, queued,
};
use crate::raster::{circle_points, in_bounds, in_rect, pixel_of, Frame, PIXELS};
use crate::ticks::{elapsed, is_due, ticks_between};

verus! {

/// Least number of ticks between two frames.
pub const FRAME_INTERVAL_MS: u32 = 100;

/// Most commands the pipeline holds; further ones are dropped.
pub const PIPELINE_CAPACITY: usize = 32;

/// The primitive that a queued command draws.
#[derive(Clone, Copy, Debug, PartialEq, Eq, Structural)]
pub enum FuncType {
    DrawSquare,
    DrawRectangle,
    DrawCircle,
}

/// A queued draw command: the primitive and its parameters (square: x, y, size;
/// rectangle: x, y, w, h; circle: centre x, centre y, radius).
pub struct Func {
    pub func_type: FuncType,
    pub params: heapless::Vec<u32, 4>,
}

/// Whether drawing `f` turns on pixel `(px, py)`. A command with too few parameters draws
/// nothing.
pub open spec fn covers(f: Func, px: int, py: int) -> bool {
    let p = param_values(f.params);
    match f.func_type {
        FuncType::DrawSquare => p.len() >= 3 && in_rect(
            p[0] as int,
            p[1] as int,
            p[2] as int,
            p[2] as int,
            px,
            py,
        ),
        FuncType::DrawRectangle => p.len() >= 4 && in_rect(
            p[0] as int,
            p[1] as int,
            p[2] as int,
            p[3] as int,
            px,
            py,
        ),
        FuncType::DrawCircle => p.len() >= 3 && circle_points(p[0] as int, p[1] as int, p[2] as int).contains(
            (px, py),
        ),
    }
}

/// Whether some command of `cmds` turns on pixel `(px, py)`.
pub open spec fn lit_by(cmds: Seq<Func>, px: int, py: int) -> bool {
    exists|k: int| 0 <= k < cmds.len() && #[trigger] covers(cmds[k], px, py)
}

/// The pipeline after offering it `f`: appended if there is room, else unchanged.
pub open spec fn enqueued(q: Seq<Func>, f: Func) -> Seq<Func> {
    if q.len() < PIPELINE_CAPACITY {
        q.push(f)
    } else {
        q
    }
}

/// The pipeline after offering it the commands of `fs` in order.
pub open spec fn enqueued_all(q: Seq<Func>, fs: Seq<Func>) -> Seq<Func>
    decreases fs.len(),
{
    if fs.len() == 0 {
        q
    } else {
        enqueued(enqueued_all(q, fs.drop_last()), fs.last())
    }
}

/// Whether `new` is `old` with one command of primitive `t` and parameters `p` appended
/// when there was room, and `old` unchanged when there was none.
pub open spec fn offered(old: Seq<Func>, new: Seq<Func>, t: FuncType, p: Seq<u32>) -> bool {
    if old.len() < PIPELINE_CAPACITY {
        &&& new.len() == old.len() + 1
        &&& new.drop_last() == old
        &&& new.last().func_type == t
        &&& param_values(new.last().params) == p
    } else {
        new == old
    }
}

/// The frame buffer and draw pipeline of the display. Commands are queued by the producers
/// and drawn, last queued first, when a frame is due; sending the frame to the panel is left
/// to the caller.
pub struct Display {
    frame: Frame,
    last_frame: u32,
    pub pipeline: heapless::Vec<Func, 32>,
}

impl Display {
    pub closed spec fn wf(&self) -> bool {
        self.frame.wf()
    }

    /// The tick at which the last frame was drawn.
    pub closed spec fn last_frame_tick(&self) -> u32 {
        self.last_frame
    }

    /// The queued commands, oldest first.
    pub closed spec fn commands(&self) -> Seq<Func> {
        queued(self.pipeline)
    }

    /// The frame's contents.
    pub closed spec fn pixels(&self) -> Seq<u8> {
        self.frame@
    }

    /// A display with a blank frame, an empty pipeline and its last frame at tick 0.
    pub fn build() -> (r: Display)
        ensures
            r.wf(),
            r.last_frame_tick() == 0,
            r.commands() == Seq::<Func>::empty(),
            forall|i: int| 0 <= i < PIXELS ==> #[trigger] r.pixels()[i] == 0,
    {
        Display { frame: Frame::new(), last_frame: 0, pipeline: pipeline_new() }
    }

    /// The frame as last drawn.
    pub fn frame(&self) -> (r: &Frame)
        requires
            self.wf(),
        ensures
            r.wf(),
            r@ == self.pixels(),
    {
        &self.frame
    }

    /// The number of queued commands.
    pub fn queue_len(&self) -> (r: usize)
        ensures
            r == self.commands().len(),
    {
        pipeline_len(&self.pipeline)
    }

    /// Turns every pixel of the frame off.
    pub fn clear(&mut self)
        requires
            old(self).wf(),
        ensures
            final(self).wf(),
            final(self).last_frame_tick() == old(self).last_frame_tick(),
            final(self).commands() == old(self).commands(),
            forall|i: int| 0 <= i < PIXELS ==> #[trigger] final(self).pixels()[i] == 0,
    {
        self.frame.clear();
    }

    /// Sets pixel `(x, y)` of the frame to `value`; a pixel off the display is ignored.
    pub fn set_pixel(&mut self, x: u32, y: u32, value: u8)
        requires
            old(self).wf(),
        ensures
            final(self).wf(),
            final(self).last_frame_tick() == old(self).last_frame_tick(),
            final(self).commands() == old(self).commands(),
            forall|px: int, py: int|
                in_bounds(px, py) ==> #[trigger] pixel_of(final(self).pixels(), px, py) == if px
                    == x && py == y {
                    value
                } else {
                    pixel_of(old(self).pixels(), px, py)
                },
    {
        self.frame.set_pixel(x, y, value);
    }

    /// Whether `interval` ticks have passed since the last frame at tick `now`; if so, `now`
    /// becomes the last frame's tick.
    fn should_update(&mut self, now: u32, interval: u32) -> (r: bool)
        ensures
            r == is_due(old(self).last_frame, now, interval),
            final(self).last_frame == if r { now } else { old(self).last_frame },
            final(self).frame == old(self).frame,
            final(self).pipeline == old(self).pipeline,
    {
        if elapsed(self.last_frame, now) >= interval {
            self.last_frame = now;
            true
        } else {
            false
        }
    }

    /// Rasterizes one command into the frame.
    fn render_command(&mut self, func: Func)
        requires
            old(self).wf(),
        ensures
            final(self).wf(),
            final(self).last_frame == old(self).last_frame,
            final(self).pipeline == old(self).pipeline,
            forall|px: int, py: int|
                in_bounds(px, py) ==> #[trigger] pixel_of(final(self).pixels(), px, py) == if covers(
                    func,
                    px,
                    py,
                ) {
                    1
                } else {
                    pixel_of(old(self).pixels(), px, py)
                },
    {
        let n: usize = params_len(&func.params);
        match func.func_type {
            FuncType::DrawSquare => {
                if n >= 3 {
                    let x: u32 = params_get(&func.params, 0);
                    let y: u32 = params_get(&func.params, 1);
                    let size: u32 = params_get(&func.params, 2);
                    self.frame.draw_square(x, y, size);
                }
            },
            FuncType::DrawRectangle => {
                if n >= 4 {
                    let x: u32 = params_get(&func.params, 0);
                    let y: u32 = params_get(&func.params, 1);
                    let w: u32 = params_get(&func.params, 2);
                    let h: u32 = params_get(&func.params, 3);
                    self.frame.draw_rectangle(x, y, w, h);
                }
            },
            FuncType::DrawCircle => {
                if n >= 3 {
                    let x0: u32 = params_get(&func.params, 0);
                    let y0: u32 = params_get(&func.params, 1);
                    let radius: u32 = params_get(&func.params, 2);
                    self.frame.draw_circle(x0, y0, radius);
                }
            },
        }
    }
    /// Clears the frame and draws every queued command into it, the last queued first,
    /// leaving the pipeline empty.
    fn draw(&mut self)
        requires
            old(self).wf(),
        ensures
            final(self).wf(),
            final(self).last_frame == old(self).last_frame,
            final(self).commands() == Seq::<Func>::empty(),
            forall|px: int, py: int|
                in_bounds(px, py) ==> #[trigger] pixel_of(final(self).pixels(), px, py) == if lit_by(
                    old(self).commands(),
                    px,
                    py,
                ) {
                    1u8
                } else {
                    0u8
                },
    {
        self.clear();
        let ghost all = self.commands();
        proof {
            assert(all.subrange(0, all.len() as int) =~= all);
        }
        while pipeline_len(&self.pipeline) > 0
            invariant
                self.wf(),
                self.last_frame == old(self).last_frame,
                all == old(self).commands(),
                self.commands().len() <= all.len(),
                self.commands() == all.subrange(0, self.commands().len() as int),
                forall|px: int, py: int|
                    in_bounds(px, py) ==> #[trigger] pixel_of(self.pixels(), px, py) == if lit_by(
                        all.subrange(self.commands().len() as int, all.len() as int),
                        px,
                        py,
                    ) {
                        1u8
                    } else {
                        0u8
                    },
            decreases self.commands().len(),
        {
            let ghost n = self.commands().len() as int;
            let ghost head = self.pixels();
            match pipeline_pop(&mut self.pipeline) {
                Some(func) => {
                    proof {
                        assert(func == all[n - 1]);
                        assert(self.commands() =~= all.subrange(0, n - 1));
                        lemma_lit_by_step(all, n);
                    }
                    let ghost prev = self.pixels();
                    assert(prev == head);
                    self.render_command(func);
                    assert forall|px: int, py: int| in_bounds(px, py) implies #[trigger] pixel_of(
                        self.pixels(),
                        px,
                        py,
                    ) == if lit_by(all.subrange(n - 1, all.len() as int), px, py) {
                        1u8
                    } else {
                        0u8
                    } by {
                        assert(pixel_of(head, px, py) == if lit_by(
                            all.subrange(n, all.len() as int),
                            px,
                            py,
                        ) {
                            1u8
                        } else {
                            0u8
                        });
                    }
                },
                None => {},
            }
        }
        proof {
            assert(all.subrange(0, all.len() as int) =~= all);
        }
    }

    /// Brings the display up: draws whatever is queued into a cleared frame.
    pub fn init(&mut self)
        requires
            old(self).wf(),
        ensures
            final(self).wf(),
            final(self).last_frame_tick() == old(self).last_frame_tick(),
            final(self).commands() == Seq::<Func>::empty(),
            forall|px: int, py: int|
                in_bounds(px, py) ==> #[trigger] pixel_of(final(self).pixels(), px, py) == if lit_by(
                    old(self).commands(),
                    px,
                    py,
                ) {
                    1u8
                } else {
                    0u8
                },
    {
        self.draw();
    }

    /// Draws a frame if one is due at tick `now`: when `FRAME_INTERVAL_MS` ticks have passed
    /// since the last frame, the frame is cleared, the queue drained into it and `now` kept as
    /// the last frame's tick, and `true` is returned so that the caller sends the frame;
    /// otherwise nothing changes.
    pub fn update(&mut self, now: u32) -> (r: bool)
        requires
            old(self).wf(),
        ensures
            final(self).wf(),
            r == is_due(old(self).last_frame_tick(), now, FRAME_INTERVAL_MS),
            r ==> final(self).last_frame_tick() == now,
            r ==> final(self).commands() == Seq::<Func>::empty(),
            r ==> forall|px: int, py: int|
                in_bounds(px, py) ==> #[trigger] pixel_of(final(self).pixels(), px, py) == if lit_by(
                    old(self).commands(),
                    px,
                    py,
                ) {
                    1u8
                } else {
                    0u8
                },
            !r ==> final(self).last_frame_tick() == old(self).last_frame_tick(),
            !r ==> final(self).commands() == old(self).commands(),
            !r ==> final(self).pixels() == old(self).pixels(),
    {
        if self.should_update(now, FRAME_INTERVAL_MS) {
            self.draw();
            true
        } else {
            false
        }
    }

    /// Queues `func` if the pipeline has room; a command offered to a full pipeline is
    /// dropped without notice.
    pub fn enqueue_func(&mut self, func: Func)
        requires
            old(self).wf(),
        ensures
            final(self).wf(),
            final(self).last_frame_tick() == old(self).last_frame_tick(),
            final(self).pixels() == old(self).pixels(),
            final(self).commands() == enqueued(old(self).commands(), func),
    {
        if pipeline_len(&self.pipeline) < pipeline_capacity(&self.pipeline) {
            let _ = pipeline_push(&mut self.pipeline, func);
        }
    }

    /// Queues a filled `w` by `h` rectangle with top left corner `(x, y)`.
    pub fn draw_rectangle(&mut self, x: u32, y: u32, w: u32, h: u32)
        requires
            old(self).wf(),
        ensures
            final(self).wf(),
            final(self).last_frame_tick() == old(self).last_frame_tick(),
            final(self).pixels() == old(self).pixels(),
            offered(old(self).commands(), final(self).commands(), FuncType::DrawRectangle, seq![x, y, w, h]),
    {
        let mut params = params_new();
        let _ = params_push(&mut params, x);
        let _ = params_push(&mut params, y);
        let _ = params_push(&mut params, w);
        let _ = params_push(&mut params, h);
        assert(param_values(params) =~= seq![x, y, w, h]);
        let ghost before = self.commands();
        let func = Func { func_type: FuncType::DrawRectangle, params };
        let ghost queued_func = func;
        self.enqueue_func(func);
        assert(before.push(queued_func).drop_last() =~= before);
    }

    /// Queues a filled square of side `size` with top left corner `(x, y)`.
    pub fn draw_square(&mut self, x: u32, y: u32, size: u32)
        requires
            old(self).wf(),
        ensures
            final(self).wf(),
            final(self).last_frame_tick() == old(self).last_frame_tick(),
            final(self).pixels() == old(self).pixels(),
            offered(old(self).commands(), final(self).commands(), FuncType::DrawSquare, seq![x, y, size]),
    {
        let mut params = params_new();
        let _ = params_push(&mut params, x);
        let _ = params_push(&mut params, y);
        let _ = params_push(&mut params, size);
        assert(param_values(params) =~= seq![x, y, size]);
        let ghost before = self.commands();
        let func = Func { func_type: FuncType::DrawSquare, params };
        let ghost queued_func = func;
        self.enqueue_func(func);
        assert(before.push(queued_func).drop_last() =~= before);
    }

    /// Queues a circle outline of centre `(x0, y0)` and radius `radius`.
    pub fn draw_circle(&mut self, x0: u32, y0: u32, radius: u32)
        requires
            old(self).wf(),
        ensures
            final(self).wf(),
            final(self).last_frame_tick() == old(self).last_frame_tick(),
            final(self).pixels() == old(self).pixels(),
            offered(old(self).commands(), final(self).commands(), FuncType::DrawCircle, seq![x0, y0, radius]),
    {
        let mut params = params_new();
        let _ = params_push(&mut params, x0);
        let _ = params_push(&mut params, y0);
        let _ = params_push(&mut params, radius);
        assert(param_values(params) =~= seq![x0, y0, radius]);
        let ghost before = self.commands();
        let func = Func { func_type: FuncType::DrawCircle, params };
        let ghost queued_func = func;
        self.enqueue_func(func);
        assert(before.push(queued_func).drop_last() =~= before);
    }
}

/// Dropping the first of the commands still to draw adds exactly what that command covers.
proof fn lemma_lit_by_step(all: Seq<Func>, n: int)
    requires
        0 < n <= all.len(),
    ensures
        forall|px: int, py: int|
            #[trigger] lit_by(all.subrange(n - 1, all.len() as int), px, py) == (covers(all[n - 1], px, py)
                || lit_by(all.subrange(n, all.len() as int), px, py)),
{
    let longer = all.subrange(n - 1, all.len() as int);
    let shorter = all.subrange(n, all.len() as int);
    assert forall|px: int, py: int|
        #[trigger] lit_by(longer, px, py) == (covers(all[n - 1], px, py) || lit_by(shorter, px, py)) by {
        if lit_by(shorter, px, py) {
            let k = choose|k: int| 0 <= k < shorter.len() && #[trigger] covers(shorter[k], px, py);
            assert(longer[k + 1] == shorter[k]);
        }
        if covers(all[n - 1], px, py) {
            assert(longer[0] == all[n - 1]);
        }
        if lit_by(longer, px, py) {
            let k = choose|k: int| 0 <= k < longer.len() && #[trigger] covers(longer[k], px, py);
            if k > 0 {
                assert(shorter[k - 1] == longer[k]);
            }
        }
    }
}

/// Offering commands one by one to an empty pipeline keeps the first `PIPELINE_CAPACITY` of
/// them, in order, and drops the rest.
pub proof fn lemma_enqueued_all_keeps_first(fs: Seq<Func>)
    ensures
        enqueued_all(Seq::empty(), fs) == fs.take(
            if fs.len() < PIPELINE_CAPACITY { fs.len() as int } else { PIPELINE_CAPACITY as int },
        ),
    decreases fs.len(),
{
    if fs.len() > 0 {
        lemma_enqueued_all_keeps_first(fs.drop_last());
        if fs.len() <= PIPELINE_CAPACITY {
            assert(fs.drop_last().take(fs.len() - 1).push(fs.last()) =~= fs.take(fs.len() as int));
        } else {
            assert(fs.drop_last().take(PIPELINE_CAPACITY as int) =~= fs.take(PIPELINE_CAPACITY as int));
        }
    } else {
        assert(fs.take(0) =~= Seq::<Func>::empty());
    }
}

/// Offering one command more than the pipeline holds leaves exactly `PIPELINE_CAPACITY`
/// commands queued: all but the last one offered, which is dropped.
pub proof fn lemma_queue_bound(fs: Seq<Func>)
    requires
        fs.len() == PIPELINE_CAPACITY + 1,
    ensures
        enqueued_all(Seq::empty(), fs).len() == PIPELINE_CAPACITY,
        enqueued_all(Seq::empty(), fs) == fs.drop_last(),
{
    lemma_enqueued_all_keeps_first(fs);
    assert(fs.take(PIPELINE_CAPACITY as int) =~= fs.drop_last());
}

/// Two updates less than `FRAME_INTERVAL_MS` ticks apart draw at most one frame: once the
/// first has drawn, the second finds no frame due.
pub proof fn lemma_flush_gating(last: u32, t1: u32, t2: u32)
    requires
        ticks_between(t1, t2) < FRAME_INTERVAL_MS,
    ensures
        is_due(last, t1, FRAME_INTERVAL_MS) ==> !is_due(t1, t2, FRAME_INTERVAL_MS),
        !(is_due(last, t1, FRAME_INTERVAL_MS) && is_due(
            if is_due(last, t1, FRAME_INTERVAL_MS) { t1 } else { last },
            t2,
            FRAME_INTERVAL_MS,
        )),
{
}


} // verus!
