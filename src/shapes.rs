use vstd::arithmetic::div_mod::{lemma_div_pos_is_pos, lemma_multiply_divide_lt};
use vstd::prelude::*;
use vstd::string::*;

use crate::{DRAW_RANGE, MAX_CANVAS, MAX_SIZE, MAX_SPEED, MIN_SIZE, POSITION_LIMIT, SIZE_SPAN};

verus! {

/// The value a uniform draw `d` selects in `[lo, lo + span)`.
pub open spec fn scaled_draw(d: u32, lo: int, span: int) -> int {
    lo + (d as int * span) / (DRAW_RANGE as int)
}

/// The colour channel (0 to 255) a uniform draw selects.
pub open spec fn channel_of(d: u32) -> u8 {
    (d / 16777216) as u8
}

/// Lower-case hexadecimal digits.
pub open spec fn hex_digits() -> Seq<char> {
    seq!['0', '1', '2', '3', '4', '5', '6', '7', '8', '9', 'a', 'b', 'c', 'd', 'e', 'f']
}

/// The two hexadecimal digits of one byte, high digit first.
pub open spec fn hex_byte(v: u8) -> Seq<char> {
    seq![hex_digits()[v as int / 16], hex_digits()[v as int % 16]]
}

/// `#rrggbb` for the three channels.
pub open spec fn hex_of(r: u8, g: u8, b: u8) -> Seq<char> {
    seq!['#'] + hex_byte(r) + hex_byte(g) + hex_byte(b)
}

/// The channel values of a colour, in order r, g, b, a.
pub struct Rgba {
    pub r: u8,
    pub g: u8,
    pub b: u8,
    pub a: u8,
}

/// An immutable colour with 8 bits per channel and its cached `#rrggbb` text.
pub struct Color {
    r: u8,
    g: u8,
    b: u8,
    a: u8,
    hex_string: String,
}

impl View for Color {
    type V = Rgba;

    closed spec fn view(&self) -> Rgba {
        Rgba { r: self.r, g: self.g, b: self.b, a: self.a }
    }
}

impl Color {
    #[verifier::type_invariant]
    spec fn hex_cached(&self) -> bool {
        self.hex_string@ == hex_of(self.r, self.g, self.b)
    }

    /// Builds an opaque colour from three uniform draws, one per channel.
    pub fn random(r_draw: u32, g_draw: u32, b_draw: u32) -> (c: Color)
        ensures
            c@ == (Rgba {
                r: channel_of(r_draw),
                g: channel_of(g_draw),
                b: channel_of(b_draw),
                a: 255u8,
            }),
    {
        let r = (r_draw / 16777216) as u8;
        let g = (g_draw / 16777216) as u8;
        let b = (b_draw / 16777216) as u8;
        Color::from_channels(r, g, b, 255)
    }

    /// Builds a colour from its four channels.
    pub fn from_channels(r: u8, g: u8, b: u8, a: u8) -> (c: Color)
        ensures
            c@ == (Rgba { r, g, b, a }),
    {
        let mut hex_string = String::from_str("#");
        proof {
            reveal_strlit("#");
        }
        push_hex_byte(&mut hex_string, r);
        push_hex_byte(&mut hex_string, g);
        push_hex_byte(&mut hex_string, b);
        assert(hex_string@ =~= hex_of(r, g, b));
        Color { r, g, b, a, hex_string }
    }

    pub fn r(&self) -> (v: u8)
        ensures
            v == self@.r,
    {
        self.r
    }

    pub fn g(&self) -> (v: u8)
        ensures
            v == self@.g,
    {
        self.g
    }

    pub fn b(&self) -> (v: u8)
        ensures
            v == self@.b,
    {
        self.b
    }

    pub fn a(&self) -> (v: u8)
        ensures
            v == self@.a,
    {
        self.a
    }

    /// The cached `#rrggbb` text of the colour.
    pub fn to_hex(&self) -> (s: String)
        ensures
            s@ == hex_of(self@.r, self@.g, self@.b),
    {
        proof {
            use_type_invariant(self);
        }
        self.hex_string.clone()
    }
}

impl Clone for Color {
    fn clone(&self) -> (c: Color)
        ensures
            c@ == self@,
    {
        proof {
            use_type_invariant(self);
        }
        Color { r: self.r, g: self.g, b: self.b, a: self.a, hex_string: self.hex_string.clone() }
    }
}

/// Appends the two lower-case hexadecimal digits of `v`.
fn push_hex_byte(s: &mut String, v: u8)
    ensures
        final(s)@ == old(s)@ + hex_byte(v),
{
    let ghost start = s@;
    let digits: &str = "0123456789abcdef";
    proof {
        reveal_strlit("0123456789abcdef");
        assert(digits@ =~= hex_digits());
    }
    let hi = (v / 16) as usize;
    let lo = (v % 16) as usize;
    s.append(digits.substring_ascii(hi, hi + 1));
    s.append(digits.substring_ascii(lo, lo + 1));
    assert(s@ =~= start + hex_byte(v));
}

/// A canvas extent the integer model admits.
pub open spec fn canvas_extent_ok(e: int) -> bool {
    0 < e <= MAX_CANVAS
}

/// A canvas extent large enough to place a rectangle of any generated size.
pub open spec fn can_generate_in(e: int) -> bool {
    MAX_SIZE < e <= MAX_CANVAS
}

/// Velocity along one axis after moving to `pos`: reversed when the box
/// touches or crosses either edge of `[0, bound]`, kept otherwise.
pub open spec fn reflected(pos: int, size: int, v: int, bound: int) -> int {
    if pos <= 0 || pos + size >= bound {
        -v
    } else {
        v
    }
}

/// One axis of a rectangle is representable: positive size, and position,
/// velocity and next position inside the machine bounds.
pub open spec fn axis_ok(pos: int, v: int, size: int) -> bool {
    &&& 0 < size <= MAX_CANVAS
    &&& -MAX_CANVAS <= v <= MAX_CANVAS
    &&& -POSITION_LIMIT <= pos <= POSITION_LIMIT
    &&& -POSITION_LIMIT <= pos + v <= POSITION_LIMIT
}

proof fn lemma_scaled_draw_bounds(d: u32, lo: int, span: int)
    requires
        span > 0,
    ensures
        lo <= scaled_draw(d, lo, span) < lo + span,
{
    let r = DRAW_RANGE as int;
    assert(d as int * span < r * span) by (nonlinear_arith)
        requires
            (d as int) < r,
            span > 0,
    ;
    assert(0 <= d as int * span) by (nonlinear_arith)
        requires
            0 <= d as int,
            span > 0,
    ;
    lemma_div_pos_is_pos(d as int * span, r);
    lemma_multiply_divide_lt(d as int * span, r, span);
}

/// The value in `[lo, lo + span)` selected by the draw `d`.
fn draw_between(d: u32, lo: i64, span: i64) -> (v: i64)
    requires
        0 < span <= MAX_CANVAS,
        -MAX_CANVAS <= lo <= MAX_CANVAS,
    ensures
        v == scaled_draw(d, lo as int, span as int),
{
    proof {
        lemma_scaled_draw_bounds(d, lo as int, span as int);
        assert(d as int * span <= 4294967296 * 1099511627776) by (nonlinear_arith)
            requires
                0 <= d as int <= 4294967296,
                0 < span <= 1099511627776,
        ;
    }
    let offset = (d as i128 * span as i128) / DRAW_RANGE;
    lo + offset as i64
}

/// Uniform draws for one generated rectangle, one per random quantity.
#[derive(Clone, Copy)]
pub struct RectangleDraws {
    pub width: u32,
    pub height: u32,
    pub x: u32,
    pub y: u32,
    pub dx: u32,
    pub dy: u32,
    pub r: u32,
    pub g: u32,
    pub b: u32,
}

/// An axis-aligned box at `(x, y)` (top-left corner) moving by `(dx, dy)` each tick.
#[derive(Clone)]
pub struct Rectangle {
    pub x: i64,
    pub y: i64,
    pub width: i64,
    pub dx: i64,
    pub dy: i64,
    pub height: i64,
    pub color: Color,
}

impl Rectangle {
    /// Both axes are representable.
    pub open spec fn wf(&self) -> bool {
        &&& axis_ok(self.x as int, self.dx as int, self.width as int)
        &&& axis_ok(self.y as int, self.dy as int, self.height as int)
    }

    /// `next` is `self` after one tick on a canvas of extent `cw` by `ch`:
    /// moved by its velocity, each velocity component reflected on edge
    /// contact at the new position, size and colour kept.
    pub open spec fn steps_to(&self, next: Rectangle, cw: int, ch: int) -> bool {
        &&& next.x == self.x + self.dx
        &&& next.y == self.y + self.dy
        &&& next.dx == reflected(self.x + self.dx, self.width as int, self.dx as int, cw)
        &&& next.dy == reflected(self.y + self.dy, self.height as int, self.dy as int, ch)
        &&& next.width == self.width
        &&& next.height == self.height
        &&& next.color@ == self.color@
    }

    /// `self` is the rectangle that the draws `d` select on a canvas of extent `cw` by `ch`.
    pub open spec fn drawn_from(&self, cw: int, ch: int, d: RectangleDraws) -> bool {
        &&& self.width == scaled_draw(d.width, MIN_SIZE as int, SIZE_SPAN as int)
        &&& self.height == scaled_draw(d.height, MIN_SIZE as int, SIZE_SPAN as int)
        &&& self.x == scaled_draw(d.x, 0, cw - self.width)
        &&& self.y == scaled_draw(d.y, 0, ch - self.height)
        &&& self.dx == scaled_draw(d.dx, -MAX_SPEED, 2 * MAX_SPEED)
        &&& self.dy == scaled_draw(d.dy, -MAX_SPEED, 2 * MAX_SPEED)
        &&& self.color@ == (Rgba {
            r: channel_of(d.r),
            g: channel_of(d.g),
            b: channel_of(d.b),
            a: 255u8,
        })
    }

    /// Fully inside the canvas, sizes in `[MIN_SIZE, MAX_SIZE)`, velocity
    /// components in `[-MAX_SPEED, MAX_SPEED)`.
    pub open spec fn within_generation_ranges(&self, cw: int, ch: int) -> bool {
        &&& 0 <= self.x && self.x + self.width <= cw
        &&& 0 <= self.y && self.y + self.height <= ch
        &&& MIN_SIZE <= self.width < MAX_SIZE
        &&& MIN_SIZE <= self.height < MAX_SIZE
        &&& -MAX_SPEED <= self.dx < MAX_SPEED
        &&& -MAX_SPEED <= self.dy < MAX_SPEED
    }

    /// Builds a rectangle from its parts.
    pub fn new(x: i64, y: i64, width: i64, height: i64, dx: i64, dy: i64, color: Color) -> (r:
        Rectangle)
        requires
            axis_ok(x as int, dx as int, width as int),
            axis_ok(y as int, dy as int, height as int),
        ensures
            r.wf(),
            r.x == x,
            r.y == y,
            r.width == width,
            r.height == height,
            r.dx == dx,
            r.dy == dy,
            r.color@ == color@,
    {
        Rectangle { x, y, width, dx, dy, height, color }
    }

    /// Draws a rectangle that starts fully inside a canvas of extent
    /// `canvas_width` by `canvas_height`.
    pub fn random(canvas_width: i64, canvas_height: i64, draws: &RectangleDraws) -> (r: Rectangle)
        requires
            can_generate_in(canvas_width as int),
            can_generate_in(canvas_height as int),
        ensures
            r.drawn_from(canvas_width as int, canvas_height as int, *draws),
            r.within_generation_ranges(canvas_width as int, canvas_height as int),
            r.wf(),
    {
        let width = draw_between(draws.width, MIN_SIZE, SIZE_SPAN);
        let height = draw_between(draws.height, MIN_SIZE, SIZE_SPAN);
        proof {
            lemma_scaled_draw_bounds(draws.width, MIN_SIZE as int, SIZE_SPAN as int);
            lemma_scaled_draw_bounds(draws.height, MIN_SIZE as int, SIZE_SPAN as int);
        }
        let x = draw_between(draws.x, 0, canvas_width - width);
        let y = draw_between(draws.y, 0, canvas_height - height);
        let dx = draw_between(draws.dx, -MAX_SPEED, 2 * MAX_SPEED);
        let dy = draw_between(draws.dy, -MAX_SPEED, 2 * MAX_SPEED);
        let color = Color::random(draws.r, draws.g, draws.b);
        let r = Rectangle { x, y, width, dx, dy, height, color };
        proof {
            lemma_drawn_within_ranges(r, canvas_width as int, canvas_height as int, *draws);
        }
        r
    }

    /// Advances one tick: moves by the velocity, then reverses each velocity
    /// component whose edge is touched or crossed at the new position. The
    /// position is not clamped back inside the canvas.
    pub fn update(&mut self, canvas_width: i64, canvas_height: i64)
        requires
            old(self).wf(),
            canvas_extent_ok(canvas_width as int),
            canvas_extent_ok(canvas_height as int),
        ensures
            final(self).wf(),
            old(self).steps_to(*final(self), canvas_width as int, canvas_height as int),
    {
        self.x = self.x + self.dx;
        self.y = self.y + self.dy;
        if self.x <= 0 || self.x + self.width >= canvas_width {
            self.dx = -self.dx;
        }
        if self.y <= 0 || self.y + self.height >= canvas_height {
            self.dy = -self.dy;
        }
    }

    /// The rectangle's colour.
    pub fn color(&self) -> (c: &Color)
        ensures
            c@ == self.color@,
    {
        &self.color
    }

    /// Draws `count` rectangles, the `i`-th from `draws[i]`, in that order.
    pub fn generate(
        count: usize,
        canvas_width: i64,
        canvas_height: i64,
        draws: &Vec<RectangleDraws>,
    ) -> (rects: Vec<Rectangle>)
        requires
            can_generate_in(canvas_width as int),
            can_generate_in(canvas_height as int),
            draws@.len() == count,
        ensures
            rects@.len() == count,
            forall|i: int|
                0 <= i < count ==> {
                    &&& (#[trigger] rects@[i]).drawn_from(
                        canvas_width as int,
                        canvas_height as int,
                        draws@[i],
                    )
                    &&& rects@[i].within_generation_ranges(
                        canvas_width as int,
                        canvas_height as int,
                    )
                    &&& rects@[i].wf()
                },
    {
        let mut rects: Vec<Rectangle> = Vec::new();
        let mut i: usize = 0;
        while i < count
            invariant
                i <= count,
                draws@.len() == count,
                can_generate_in(canvas_width as int),
                can_generate_in(canvas_height as int),
                rects@.len() == i,
                forall|k: int|
                    0 <= k < i ==> {
                        &&& (#[trigger] rects@[k]).drawn_from(
                            canvas_width as int,
                            canvas_height as int,
                            draws@[k],
                        )
                        &&& rects@[k].within_generation_ranges(
                            canvas_width as int,
                            canvas_height as int,
                        )
                        &&& rects@[k].wf()
                    },
            decreases count - i,
        {
            rects.push(Rectangle::random(canvas_width, canvas_height, &draws[i]));
            i = i + 1;
        }
        rects
    }
}

/// Contact with the far edge is inclusive: a move that lands the right edge
/// exactly on the canvas width reverses the horizontal velocity, and the
/// position is kept as moved.
pub proof fn lemma_edge_contact_reflects(r: Rectangle, next: Rectangle, cw: int, ch: int)
    requires
        r.steps_to(next, cw, ch),
        r.x + r.dx + r.width == cw,
    ensures
        next.dx == -r.dx,
        next.x == r.x + r.dx,
{
}

/// Every rectangle drawn on a canvas large enough for the largest size
/// starts fully inside it, with size in `[MIN_SIZE, MAX_SIZE)` and velocity
/// components in `[-MAX_SPEED, MAX_SPEED)`, whatever the draws were.
pub proof fn lemma_drawn_within_ranges(r: Rectangle, cw: int, ch: int, d: RectangleDraws)
    requires
        can_generate_in(cw),
        can_generate_in(ch),
        r.drawn_from(cw, ch, d),
    ensures
        r.within_generation_ranges(cw, ch),
        r.wf(),
{
    lemma_scaled_draw_bounds(d.width, MIN_SIZE as int, SIZE_SPAN as int);
    lemma_scaled_draw_bounds(d.height, MIN_SIZE as int, SIZE_SPAN as int);
    lemma_scaled_draw_bounds(d.x, 0, cw - r.width);
    lemma_scaled_draw_bounds(d.y, 0, ch - r.height);
    lemma_scaled_draw_bounds(d.dx, -MAX_SPEED, 2 * MAX_SPEED);
    lemma_scaled_draw_bounds(d.dy, -MAX_SPEED, 2 * MAX_SPEED);
}

} // verus!
