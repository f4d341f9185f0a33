use vstd::prelude::*;

use crate::config::ConfigError;
use crate::shapes::{can_generate_in, canvas_extent_ok, Rectangle, RectangleDraws};
use crate::{MAX_CANVAS, MAX_SIZE};

verus! {

/// Owns the rectangles and the canvas bounds, and advances them tick by tick.
pub struct AnimationController {
    pub rectangles: Vec<Rectangle>,
    pub canvas_width: i64,
    pub canvas_height: i64,
}

impl AnimationController {
    /// Canvas extents admitted and every rectangle representable.
    pub open spec fn wf(&self) -> bool {
        &&& canvas_extent_ok(self.canvas_width as int)
        &&& canvas_extent_ok(self.canvas_height as int)
        &&& forall|i: int| 0 <= i < self.rectangles@.len() ==> (#[trigger] self.rectangles@[i]).wf()
    }

    /// `next` is `self` after one tick: same bounds, same number of
    /// rectangles, each advanced against the bounds.
    pub open spec fn ticks_to(&self, next: AnimationController) -> bool {
        &&& next.canvas_width == self.canvas_width
        &&& next.canvas_height == self.canvas_height
        &&& next.rectangles@.len() == self.rectangles@.len()
        &&& forall|i: int|
            0 <= i < self.rectangles@.len() ==> (#[trigger] self.rectangles@[i]).steps_to(
                next.rectangles@[i],
                self.canvas_width as int,
                self.canvas_height as int,
            )
    }

    /// Generates `num_rectangles` rectangles, the `i`-th from `draws[i]`, on a
    /// canvas of extent `canvas_width` by `canvas_height`. A canvas that does
    /// not exceed the largest generated size, or exceeds `MAX_CANVAS`, is
    /// refused. A count of zero gives an empty simulation; a configured count
    /// of zero is refused earlier, by `parse_rectangle_count`.
    pub fn new(
        num_rectangles: usize,
        canvas_width: i64,
        canvas_height: i64,
        draws: &Vec<RectangleDraws>,
    ) -> (res: Result<AnimationController, ConfigError>)
        requires
            draws@.len() == num_rectangles,
        ensures
            (canvas_width <= MAX_SIZE || canvas_height <= MAX_SIZE) <==> res
                == Err::<AnimationController, ConfigError>(ConfigError::CanvasTooSmall),
            (canvas_width > MAX_SIZE && canvas_height > MAX_SIZE && (canvas_width > MAX_CANVAS
                || canvas_height > MAX_CANVAS)) <==> res == Err::<AnimationController, ConfigError>(
                ConfigError::CanvasTooLarge),
            res is Ok <==> can_generate_in(canvas_width as int) && can_generate_in(
                canvas_height as int,
            ),
            res matches Ok(c) ==> {
                &&& c.wf()
                &&& c.canvas_width == canvas_width
                &&& c.canvas_height == canvas_height
                &&& c.rectangles@.len() == num_rectangles
                &&& forall|i: int|
                    0 <= i < num_rectangles ==> (#[trigger] c.rectangles@[i]).drawn_from(
                        canvas_width as int,
                        canvas_height as int,
                        draws@[i],
                    )
            },
    {
        if canvas_width <= MAX_SIZE || canvas_height <= MAX_SIZE {
            return Err(ConfigError::CanvasTooSmall);
        }
        if canvas_width > MAX_CANVAS || canvas_height > MAX_CANVAS {
            return Err(ConfigError::CanvasTooLarge);
        }
        let rectangles = Rectangle::generate(num_rectangles, canvas_width, canvas_height, draws);
        Ok(AnimationController { rectangles, canvas_width, canvas_height })
    }

    /// Advances every rectangle one tick, in order, against the current canvas bounds.
    pub fn update(&mut self)
        requires
            old(self).wf(),
        ensures
            final(self).wf(),
            old(self).ticks_to(*final(self)),
    {
        let ghost before = self.rectangles@;
        let width = self.canvas_width;
        let height = self.canvas_height;
        let n = self.rectangles.len();
        let mut i: usize = 0;
        while i < n
            invariant
                i <= n,
                n == before.len(),
                self.canvas_width == width,
                self.canvas_height == height,
                canvas_extent_ok(width as int),
                canvas_extent_ok(height as int),
                self.rectangles@.len() == n,
                forall|k: int| 0 <= k < n ==> (#[trigger] self.rectangles@[k]).wf(),
                forall|k: int|
                    0 <= k < i ==> (#[trigger] before[k]).steps_to(
                        self.rectangles@[k],
                        width as int,
                        height as int,
                    ),
                forall|k: int| i <= k < n ==> before[k] == #[trigger] self.rectangles@[k],
            decreases n - i,
        {
            self.rectangles[i].update(width, height);
            i = i + 1;
        }
    }

    /// The rectangles, in render order.
    pub fn rectangles(&self) -> (r: &[Rectangle])
        ensures
            r@ == self.rectangles@,
    {
        self.rectangles.as_slice()
    }

    /// Replaces the canvas bounds; the rectangles are left where they are.
    pub fn set_canvas_size(&mut self, width: i64, height: i64)
        requires
            old(self).wf(),
            canvas_extent_ok(width as int),
            canvas_extent_ok(height as int),
        ensures
            final(self).wf(),
            final(self).canvas_width == width,
            final(self).canvas_height == height,
            final(self).rectangles@ == old(self).rectangles@,
    {
        self.canvas_width = width;
        self.canvas_height = height;
    }
}

/// A rendering backend: advances the scene one tick and draws it.
pub trait Renderer {
    fn update(&mut self);

    fn render(&self);
}

} // verus!
