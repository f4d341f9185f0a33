use vstd::prelude::*;

use crate::animation::AnimationController;
use crate::shapes::{Rectangle, Rgba};

verus! {

/// Numerator of the clip-space x coordinate of pixel column `px` on a canvas
/// `w` wide; the coordinate is this over `w`, that is `px * (2 / w) - 1`.
pub open spec fn clip_x(px: int, w: int) -> int {
    2 * px - w
}

/// Numerator of the clip-space y coordinate of pixel row `py` on a canvas
/// `h` high; the coordinate is this over `h`, that is `-(py * (2 / h) - 1)`.
pub open spec fn clip_y(py: int, h: int) -> int {
    h - 2 * py
}

/// The twelve position entries of one rectangle: two triangles, top-left,
/// top-right, bottom-left, then bottom-left, top-right, bottom-right, each
/// vertex as an (x, y) pair of clip-space numerators.
pub open spec fn quad_positions(r: Rectangle, w: int, h: int) -> Seq<int> {
    let x1 = clip_x(r.x as int, w);
    let y1 = clip_y(r.y as int, h);
    let x2 = clip_x(r.x + r.width, w);
    let y2 = clip_y(r.y + r.height, h);
    seq![x1, y1, x2, y1, x1, y2, x1, y2, x2, y1, x2, y2]
}

/// Channel `k` of a colour, in the order r, g, b, a.
pub open spec fn channel(c: Rgba, k: int) -> u8 {
    if k == 0 {
        c.r
    } else if k == 1 {
        c.g
    } else if k == 2 {
        c.b
    } else {
        c.a
    }
}

/// Position entry `j` of rectangle `i`.
pub open spec fn position_at(s: Seq<i64>, i: int, j: int) -> int {
    s[12 * i + j] as int
}

/// Channel `k` of vertex `v` of rectangle `i`.
pub open spec fn color_at(s: Seq<u8>, i: int, v: int, k: int) -> u8 {
    s[24 * i + 4 * v + k]
}

/// Flat per-frame vertex data: six vertices per rectangle, two position
/// entries and four colour channels per vertex. Positions are clip-space
/// numerators, x over the canvas width and y over the canvas height;
/// channels run from 0 to 255.
pub struct FrameEncoder {
    pub positions: Vec<i64>,
    pub colors: Vec<u8>,
}

impl FrameEncoder {
    /// The buffers have room for exactly `n` rectangles.
    pub open spec fn sized_for(&self, n: int) -> bool {
        &&& self.positions@.len() == 12 * n
        &&& self.colors@.len() == 24 * n
    }

    /// The buffers hold the frame of `state`: for each rectangle, in order,
    /// its two triangles and its colour on all six vertices.
    pub open spec fn holds_frame(&self, state: AnimationController) -> bool {
        let n = state.rectangles@.len();
        let w = state.canvas_width as int;
        let h = state.canvas_height as int;
        &&& self.sized_for(n as int)
        &&& forall|i: int, j: int|
            0 <= i < n && 0 <= j < 12 ==> #[trigger] position_at(self.positions@, i, j)
                == quad_positions(state.rectangles@[i], w, h)[j]
        &&& forall|i: int, v: int, k: int|
            0 <= i < n && 0 <= v < 6 && 0 <= k < 4 ==> #[trigger] color_at(self.colors@, i, v, k)
                == channel(state.rectangles@[i].color@, k)
    }

    /// Allocates zeroed buffers for `rectangle_count` rectangles.
    pub fn new(rectangle_count: usize) -> (e: FrameEncoder)
        requires
            rectangle_count <= usize::MAX / 24,
        ensures
            e.sized_for(rectangle_count as int),
            forall|i: int| 0 <= i < e.positions@.len() ==> e.positions@[i] == 0,
            forall|i: int| 0 <= i < e.colors@.len() ==> e.colors@[i] == 0,
    {
        let positions: Vec<i64> = vec![0; rectangle_count * 12];
        let colors: Vec<u8> = vec![0; rectangle_count * 24];
        FrameEncoder { positions, colors }
    }

    /// Number of vertices the buffers describe.
    pub fn vertex_count(&self) -> (n: usize)
        ensures
            n == self.positions@.len() / 2,
    {
        self.positions.len() / 2
    }

    /// Overwrites the buffers in place with the frame of `state`, scaled to
    /// its current canvas bounds.
    pub fn encode(&mut self, state: &AnimationController)
        requires
            old(self).sized_for(state.rectangles@.len() as int),
            state.wf(),
        ensures
            final(self).holds_frame(*state),
    {
        self.fill_positions(state);
        self.fill_colors(state);
    }

    /// Advances `controller` one tick, then encodes its new frame.
    pub fn update(&mut self, controller: &mut AnimationController)
        requires
            old(self).sized_for(old(controller).rectangles@.len() as int),
            old(controller).wf(),
        ensures
            final(controller).wf(),
            old(controller).ticks_to(*final(controller)),
            final(self).holds_frame(*final(controller)),
    {
        controller.update();
        self.encode(controller);
    }

    fn fill_positions(&mut self, state: &AnimationController)
        requires
            old(self).sized_for(state.rectangles@.len() as int),
            state.wf(),
        ensures
            final(self).colors@ == old(self).colors@,
            final(self).sized_for(state.rectangles@.len() as int),
            forall|i: int, j: int|
                0 <= i < state.rectangles@.len() && 0 <= j < 12 ==> #[trigger] position_at(
                    final(self).positions@,
                    i,
                    j,
                ) == quad_positions(
                    state.rectangles@[i],
                    state.canvas_width as int,
                    state.canvas_height as int,
                )[j],
    {
        let n = state.rectangles.len();
        let total = self.positions.len();
        let w = state.canvas_width;
        let h = state.canvas_height;
        let mut i: usize = 0;
        while i < n
            invariant
                i <= n,
                n == state.rectangles@.len(),
                w == state.canvas_width,
                h == state.canvas_height,
                state.wf(),
                total == 12 * n,
                self.colors@ == old(self).colors@,
                self.sized_for(n as int),
                forall|a: int, j: int|
                    0 <= a < i && 0 <= j < 12 ==> #[trigger] position_at(self.positions@, a, j)
                        == quad_positions(state.rectangles@[a], w as int, h as int)[j],
            decreases n - i,
        {
            let r = &state.rectangles[i];
            proof {
                assert(r.wf());
            }
            let x1 = 2 * r.x - w;
            let y1 = h - 2 * r.y;
            let x2 = 2 * (r.x + r.width) - w;
            let y2 = h - 2 * (r.y + r.height);
            let base = i * 12;
            let ghost prev = self.positions@;
            // First triangle: top-left, top-right, bottom-left.
            self.positions.set(base, x1);
            self.positions.set(base + 1, y1);
            self.positions.set(base + 2, x2);
            self.positions.set(base + 3, y1);
            self.positions.set(base + 4, x1);
            self.positions.set(base + 5, y2);
            // Second triangle: bottom-left, top-right, bottom-right.
            self.positions.set(base + 6, x1);
            self.positions.set(base + 7, y2);
            self.positions.set(base + 8, x2);
            self.positions.set(base + 9, y1);
            self.positions.set(base + 10, x2);
            self.positions.set(base + 11, y2);
            proof {
                let q = quad_positions(state.rectangles@[i as int], w as int, h as int);
                assert forall|a: int, j: int|
                    0 <= a <= i && 0 <= j < 12 implies #[trigger] position_at(
                        self.positions@,
                        a,
                        j,
                    ) == quad_positions(state.rectangles@[a], w as int, h as int)[j] by {
                    if a == i {
                        assert(position_at(self.positions@, a, j) == q[j]);
                    } else {
                        assert(position_at(self.positions@, a, j) == position_at(prev, a, j));
                    }
                }
            }
            i = i + 1;
        }
    }

    fn fill_colors(&mut self, state: &AnimationController)
        requires
            old(self).sized_for(state.rectangles@.len() as int),
        ensures
            final(self).positions@ == old(self).positions@,
            final(self).sized_for(state.rectangles@.len() as int),
            forall|i: int, v: int, k: int|
                0 <= i < state.rectangles@.len() && 0 <= v < 6 && 0 <= k < 4
                    ==> #[trigger] color_at(final(self).colors@, i, v, k) == channel(
                    state.rectangles@[i].color@,
                    k,
                ),
    {
        let n = state.rectangles.len();
        let total = self.colors.len();
        let mut i: usize = 0;
        while i < n
            invariant
                i <= n,
                n == state.rectangles@.len(),
                total == 24 * n,
                self.positions@ == old(self).positions@,
                self.sized_for(n as int),
                forall|a: int, v: int, k: int|
                    0 <= a < i && 0 <= v < 6 && 0 <= k < 4 ==> #[trigger] color_at(
                        self.colors@,
                        a,
                        v,
                        k,
                    ) == channel(state.rectangles@[a].color@, k),
            decreases n - i,
        {
            let color = state.rectangles[i].color();
            let r = color.r();
            let g = color.g();
            let b = color.b();
            let a = color.a();
            let base = i * 24;
            let mut v: usize = 0;
            while v < 6
                invariant
                    i < n,
                    v <= 6,
                    base == 24 * i,
                    n == state.rectangles@.len(),
                    total == 24 * n,
                    self.positions@ == old(self).positions@,
                    self.sized_for(n as int),
                    color@ == state.rectangles@[i as int].color@,
                    r == color@.r,
                    g == color@.g,
                    b == color@.b,
                    a == color@.a,
                    forall|p: int, u: int, k: int|
                        0 <= p < i && 0 <= u < 6 && 0 <= k < 4 ==> #[trigger] color_at(
                            self.colors@,
                            p,
                            u,
                            k,
                        ) == channel(state.rectangles@[p].color@, k),
                    forall|u: int, k: int|
                        0 <= u < v && 0 <= k < 4 ==> #[trigger] color_at(
                            self.colors@,
                            i as int,
                            u,
                            k,
                        ) == channel(color@, k),
                decreases 6 - v,
            {
                let ghost prev = self.colors@;
                let vertex = base + v * 4;
                self.colors.set(vertex, r);
                self.colors.set(vertex + 1, g);
                self.colors.set(vertex + 2, b);
                self.colors.set(vertex + 3, a);
                proof {
                    assert forall|p: int, u: int, k: int|
                        0 <= p < i && 0 <= u < 6 && 0 <= k < 4 implies #[trigger] color_at(
                            self.colors@,
                            p,
                            u,
                            k,
                        ) == channel(state.rectangles@[p].color@, k) by {
                        assert(color_at(self.colors@, p, u, k) == color_at(prev, p, u, k));
                    }
                    assert forall|u: int, k: int|
                        0 <= u <= v && 0 <= k < 4 implies #[trigger] color_at(
                            self.colors@,
                            i as int,
                            u,
                            k,
                        ) == channel(color@, k) by {
                        if u < v {
                            assert(color_at(self.colors@, i as int, u, k) == color_at(
                                prev,
                                i as int,
                                u,
                                k,
                            ));
                        }
                    }
                }
                v = v + 1;
            }
            i = i + 1;
        }
    }
}

/// Within one encoded rectangle every vertex carries the same colour: the
/// channels of any two of its six vertices agree.
pub proof fn lemma_flat_fill(
    enc: FrameEncoder,
    state: AnimationController,
    i: int,
    v1: int,
    v2: int,
    k: int,
)
    requires
        enc.holds_frame(state),
        0 <= i < state.rectangles@.len(),
        0 <= v1 < 6,
        0 <= v2 < 6,
        0 <= k < 4,
    ensures
        color_at(enc.colors@, i, v1, k) == color_at(enc.colors@, i, v2, k),
{
    assert(color_at(enc.colors@, i, v1, k) == channel(state.rectangles@[i].color@, k));
    assert(color_at(enc.colors@, i, v2, k) == channel(state.rectangles@[i].color@, k));
}

} // verus!
