//! CPU-side images: RGBA colors, alpha blending over integer arithmetic,
//! and a simple row-major pixel grid with the editing operations the
//! engine's texture pipeline uses (fill, map, flip, blit). Decoding image
//! files and uploading pixels to the GPU happen outside.

use vstd::prelude::*;

verus! {

use vstd::arithmetic::div_mod::{lemma_div_is_ordered, lemma_div_multiples_vanish,
    lemma_div_pos_is_pos};

/// One RGBA color, eight bits per channel.
#[derive(Debug, Clone, Copy, PartialEq, Eq, Structural)]
pub struct Color {
    pub r: u8,
    pub g: u8,
    pub b: u8,
    pub a: u8,
}

/// The denominator of the blend: the blended alpha scaled by 255.
pub open spec fn blend_alpha_num(sa: int, oa: int) -> int {
    255 * oa + sa * (255 - oa)
}

/// One channel of blending `other` over `self`:
/// `(c_self * a_self * (255 - a_other) + 255 * c_other * a_other)`
/// divided by the scaled blended alpha.
pub open spec fn blend_channel(c_self: int, c_other: int, sa: int, oa: int) -> int {
    (c_self * sa * (255 - oa) + 255 * c_other * oa) / blend_alpha_num(sa, oa)
}

/// The exact result of blending `other` over `self`: fully transparent
/// sides pass the other side through, a fully opaque `other` wins, and
/// otherwise every channel follows [`blend_channel`].
pub open spec fn blend_spec(s: Color, o: Color) -> Color {
    if s.a == 0 {
        o
    } else if o.a == 0 {
        s
    } else if o.a == 255 {
        o
    } else {
        Color {
            r: blend_channel(s.r as int, o.r as int, s.a as int, o.a as int) as u8,
            g: blend_channel(s.g as int, o.g as int, s.a as int, o.a as int) as u8,
            b: blend_channel(s.b as int, o.b as int, s.a as int, o.a as int) as u8,
            a: (blend_alpha_num(s.a as int, o.a as int) / 255) as u8,
        }
    }
}

/// The blend numerator never exceeds 255 times its denominator, so every
/// blended channel fits in a byte.
proof fn lemma_blend_channel_in_range(c_self: int, c_other: int, sa: int, oa: int)
    requires
        0 <= c_self <= 255,
        0 <= c_other <= 255,
        1 <= sa <= 255,
        1 <= oa <= 255,
    ensures
        1 <= blend_alpha_num(sa, oa),
        0 <= blend_channel(c_self, c_other, sa, oa) <= 255,
{
    let d = blend_alpha_num(sa, oa);
    let n = c_self * sa * (255 - oa) + 255 * c_other * oa;
    assert(0 <= n <= 255 * d) by (nonlinear_arith)
        requires
            0 <= c_self <= 255,
            0 <= c_other <= 255,
            1 <= sa <= 255,
            1 <= oa <= 255,
            d == 255 * oa + sa * (255 - oa),
            n == c_self * sa * (255 - oa) + 255 * c_other * oa,
    ;
    lemma_div_pos_is_pos(n, d);
    lemma_div_is_ordered(n, 255 * d, d);
    lemma_div_multiples_vanish(255, d);
    assert(d * 255 == 255 * d) by (nonlinear_arith);
}

/// Bounds on the intermediate products of the executable blend, so the
/// arithmetic stays inside `u32`.
proof fn lemma_blend_exec_bounds(c: int, co: int, sa: int, oa: int)
    by (nonlinear_arith)
    requires
        0 <= c <= 255,
        0 <= co <= 255,
        1 <= sa <= 255,
        1 <= oa <= 254,
    ensures
        c * sa <= 65025,
        c * sa * (255 - oa) <= 16581375,
        255 * co <= 65025,
        255 * co * oa <= 16581375,
        255 * oa + sa * (255 - oa) <= 65025,
{
}

impl Color {
    /// Builds a color from its four channels.
    pub fn new(r: u8, g: u8, b: u8, a: u8) -> (c: Self)
        ensures
            c == (Color { r, g, b, a }),
    {
        Color { r, g, b, a }
    }

    /// Blends `other` over `self` by alpha compositing, in exact integer
    /// arithmetic truncated toward zero.
    pub fn blend(self, other: Self) -> (c: Self)
        ensures
            c == blend_spec(self, other),
    {
        if self.a == 0 {
            return other;
        } else if other.a == 0 {
            return self;
        }
        if other.a == 255 {
            return other;
        }
        let sa: u32 = self.a as u32;
        let oa: u32 = other.a as u32;
        proof {
            lemma_blend_exec_bounds(self.r as int, other.r as int, sa as int, oa as int);
            lemma_blend_exec_bounds(self.g as int, other.g as int, sa as int, oa as int);
            lemma_blend_exec_bounds(self.b as int, other.b as int, sa as int, oa as int);
            lemma_blend_channel_in_range(self.r as int, other.r as int, sa as int, oa as int);
            lemma_blend_channel_in_range(self.g as int, other.g as int, sa as int, oa as int);
            lemma_blend_channel_in_range(self.b as int, other.b as int, sa as int, oa as int);
        }
        let d: u32 = 255 * oa + sa * (255 - oa);
        let r = ((self.r as u32) * sa * (255 - oa) + 255 * (other.r as u32) * oa) / d;
        let g = ((self.g as u32) * sa * (255 - oa) + 255 * (other.g as u32) * oa) / d;
        let b = ((self.b as u32) * sa * (255 - oa) + 255 * (other.b as u32) * oa) / d;
        let a = d / 255;
        proof {
            lemma_div_pos_is_pos(d as int, 255);
            lemma_div_is_ordered(d as int, 255int * 255, 255);
        }
        Color { r: r as u8, g: g as u8, b: b as u8, a: a as u8 }
    }
}

/// An outline to draw around an image's opaque pixels.
#[derive(Debug, Clone, Copy, PartialEq, Eq)]
pub struct ImageOutline {
    pub color: [u8; 3],
    pub size: u8,
}

/// Read access to a pixel grid.
pub trait Imageable {
    /// The grid is in a readable state (its buffer matches its size).
    spec fn spec_valid(&self) -> bool;

    /// Width of the grid in pixels.
    spec fn spec_width(&self) -> nat;

    /// Height of the grid in pixels.
    spec fn spec_height(&self) -> nat;

    /// The pixel at a position inside the grid.
    spec fn spec_pixel(&self, x: int, y: int) -> Color;

    /// Width of the grid in pixels.
    fn width(&self) -> (r: usize)
        ensures
            r == self.spec_width(),
    ;

    /// Height of the grid in pixels.
    fn height(&self) -> (r: usize)
        ensures
            r == self.spec_height(),
    ;

    /// The pixel at a position inside the grid.
    fn get_pixel(&self, x: usize, y: usize) -> (r: Color)
        requires
            self.spec_valid(),
            x < self.spec_width(),
            y < self.spec_height(),
        ensures
            r == self.spec_pixel(x as int, y as int),
    ;
}

/// A row-major index stays inside the pixel buffer.
proof fn lemma_index_in_range(x: int, y: int, w: int, h: int)
    by (nonlinear_arith)
    requires
        0 <= x < w,
        0 <= y < h,
    ensures
        0 <= y * w + x < h * w,
{
}

/// Distinct positions have distinct row-major indexes.
proof fn lemma_index_injective(x1: int, y1: int, x2: int, y2: int, w: int)
    by (nonlinear_arith)
    requires
        0 <= x1 < w,
        0 <= x2 < w,
        0 <= y1,
        0 <= y2,
        y1 * w + x1 == y2 * w + x2,
    ensures
        x1 == x2 && y1 == y2,
{
}

/// A CPU-side image: a row-major grid of colors.
#[derive(Debug, Clone)]
pub struct SimpleImage {
    pub colors: Vec<Color>,
    pub width: usize,
    pub height: usize,
}

impl SimpleImage {
    /// The color buffer holds exactly one color per grid position.
    pub open spec fn wf(self) -> bool {
        self.colors@.len() == self.height * self.width
    }

    /// The pixel at a position inside the grid.
    pub open spec fn pixel_spec(self, x: int, y: int) -> Color {
        self.colors@[y * self.width + x]
    }

    /// Builds an image from a row-major color buffer.
    pub fn new(colors: Vec<Color>, width: usize, height: usize) -> (r: Self)
        requires
            colors@.len() == height * width,
        ensures
            r.wf(),
            r.width == width,
            r.height == height,
            r.colors@ == colors@,
    {
        SimpleImage { colors, width, height }
    }

    /// An image of one solid color.
    pub fn filled(color: Color, width: usize, height: usize) -> (r: Self)
        requires
            height * width <= usize::MAX,
        ensures
            r.wf(),
            r.width == width,
            r.height == height,
            forall|x: int, y: int|
                0 <= x < width && 0 <= y < height ==> #[trigger] r.pixel_spec(x, y) == color,
    {
        Self::from_fn(width, height, |i: usize| -> (c: Color)
            ensures
                c == color,
            { color })
    }

    /// Builds an image by calling `f` on each row-major buffer index.
    pub fn from_fn<F: Fn(usize) -> Color>(width: usize, height: usize, f: F) -> (r: Self)
        requires
            height * width <= usize::MAX,
            forall|i: usize| i < height * width ==> #[trigger] call_requires(f, (i,)),
        ensures
            r.wf(),
            r.width == width,
            r.height == height,
            forall|i: int|
                0 <= i < height * width ==> call_ensures(f, (i as usize,), #[trigger] r.colors@[i]),
            forall|x: int, y: int|
                0 <= x < width && 0 <= y < height ==> call_ensures(
                    f,
                    ((y * width + x) as usize,),
                    #[trigger] r.pixel_spec(x, y),
                ),
    {
        let total: usize = height * width;
        let mut colors: Vec<Color> = Vec::new();
        let mut i: usize = 0;
        while i < total
            invariant
                i <= total,
                total == height * width,
                colors@.len() == i,
                forall|j: usize| j < total ==> #[trigger] call_requires(f, (j,)),
                forall|j: int| 0 <= j < i ==> call_ensures(f, (j as usize,), #[trigger] colors@[j]),
            decreases total - i,
        {
            let c = f(i);
            colors.push(c);
            i = i + 1;
        }
        proof {
            assert forall|x: int, y: int| 0 <= x < width && 0 <= y < height implies 0 <= #[trigger] (
            y * width + x) < height * width by {
                lemma_index_in_range(x, y, width as int, height as int);
            }
        }
        SimpleImage { colors, width, height }
    }

    /// The pixel at a position inside the grid.
    pub fn get_pixel(&self, x: usize, y: usize) -> (r: Color)
        requires
            self.wf(),
            x < self.width,
            y < self.height,
        ensures
            r == self.pixel_spec(x as int, y as int),
    {
        let n = self.colors.len();
        proof {
            lemma_index_in_range(x as int, y as int, self.width as int, self.height as int);
        }
        self.colors[y * self.width + x]
    }

    /// Overwrites the pixel at a position inside the grid; every other
    /// pixel keeps its color.
    pub fn set_pixel(&mut self, color: Color, x: usize, y: usize)
        requires
            old(self).wf(),
            x < old(self).width,
            y < old(self).height,
        ensures
            final(self).wf(),
            final(self).width == old(self).width,
            final(self).height == old(self).height,
            final(self).pixel_spec(x as int, y as int) == color,
            forall|i: int, j: int|
                0 <= i < old(self).width && 0 <= j < old(self).height && !(i == x && j == y)
                    ==> #[trigger] final(self).pixel_spec(i, j) == old(self).pixel_spec(i, j),
    {
        let n = self.colors.len();
        proof {
            lemma_index_in_range(x as int, y as int, self.width as int, self.height as int);
        }
        self.colors.set(y * self.width + x, color);
        proof {
            assert forall|i: int, j: int|
                0 <= i < self.width && 0 <= j < self.height && !(i == x && j == y) implies #[trigger] self.pixel_spec(
                i,
                j,
            ) == old(self).pixel_spec(i, j) by {
                lemma_index_in_range(i, j, self.width as int, self.height as int);
                if j * self.width + i == y * self.width + x {
                    lemma_index_injective(i, j, x as int, y as int, self.width as int);
                }
            }
        }
    }

    /// Overwrites the pixel when the position is inside the grid and does
    /// nothing otherwise.
    pub fn maybe_set_pixel(&mut self, color: Color, x: usize, y: usize)
        requires
            old(self).wf(),
        ensures
            final(self).wf(),
            final(self).width == old(self).width,
            final(self).height == old(self).height,
            x < old(self).width && y < old(self).height ==> final(self).pixel_spec(
                x as int,
                y as int,
            ) == color,
            !(x < old(self).width && y < old(self).height) ==> *final(self) == *old(self),
            forall|i: int, j: int|
                0 <= i < old(self).width && 0 <= j < old(self).height && !(i == x && j == y)
                    ==> #[trigger] final(self).pixel_spec(i, j) == old(self).pixel_spec(i, j),
    {
        if x >= self.width || y >= self.height {
            return ;
        }
        self.set_pixel(color, x, y);
    }

    /// Blends `color` over the pixel when the position is inside the grid
    /// and does nothing otherwise.
    pub fn maybe_blend_pixel(&mut self, color: Color, x: usize, y: usize)
        requires
            old(self).wf(),
        ensures
            final(self).wf(),
            final(self).width == old(self).width,
            final(self).height == old(self).height,
            x < old(self).width && y < old(self).height ==> final(self).pixel_spec(
                x as int,
                y as int,
            ) == blend_spec(old(self).pixel_spec(x as int, y as int), color),
            !(x < old(self).width && y < old(self).height) ==> *final(self) == *old(self),
            forall|i: int, j: int|
                0 <= i < old(self).width && 0 <= j < old(self).height && !(i == x && j == y)
                    ==> #[trigger] final(self).pixel_spec(i, j) == old(self).pixel_spec(i, j),
    {
        if x >= self.width || y >= self.height {
            return ;
        }
        let current = self.get_pixel(x, y);
        self.set_pixel(current.blend(color), x, y);
    }

    /// Applies `f` to every pixel in place.
    pub fn map<F: Fn(Color) -> Color>(&mut self, f: F)
        requires
            old(self).wf(),
            forall|c: Color| #[trigger] call_requires(f, (c,)),
        ensures
            final(self).wf(),
            final(self).width == old(self).width,
            final(self).height == old(self).height,
            final(self).colors@.len() == old(self).colors@.len(),
            forall|i: int|
                0 <= i < old(self).colors@.len() ==> call_ensures(
                    f,
                    (old(self).colors@[i],),
                    #[trigger] final(self).colors@[i],
                ),
    {
        let mut i: usize = 0;
        while i < self.colors.len()
            invariant
                i <= self.colors@.len(),
                self.colors@.len() == old(self).colors@.len(),
                self.width == old(self).width,
                self.height == old(self).height,
                forall|c: Color| #[trigger] call_requires(f, (c,)),
                forall|j: int|
                    i <= j < self.colors@.len() ==> #[trigger] self.colors@[j] == old(
                        self,
                    ).colors@[j],
                forall|j: int|
                    0 <= j < i ==> call_ensures(
                        f,
                        (old(self).colors@[j],),
                        #[trigger] self.colors@[j],
                    ),
            decreases self.colors@.len() - i,
        {
            let c = self.colors[i];
            let v = f(c);
            self.colors.set(i, v);
            i = i + 1;
        }
    }

    /// A copy mirrored left-to-right.
    pub fn flipped_horizontal(&self) -> (r: Self)
        requires
            self.wf(),
        ensures
            r.wf(),
            r.width == self.width,
            r.height == self.height,
            forall|x: int, y: int|
                0 <= x < self.width && 0 <= y < self.height ==> #[trigger] r.pixel_spec(x, y)
                    == self.pixel_spec(self.width - x - 1, y),
    {
        let mut colors: Vec<Color> = Vec::new();
        let mut y: usize = 0;
        while y < self.height
            invariant
                self.wf(),
                y <= self.height,
                colors@.len() == y * self.width,
                forall|i: int, j: int|
                    0 <= i < self.width && 0 <= j < y ==> #[trigger] colors@[j * self.width + i]
                        == self.pixel_spec(self.width - i - 1, j),
            decreases self.height - y,
        {
            let mut x: usize = 0;
            while x < self.width
                invariant
                    self.wf(),
                    y < self.height,
                    x <= self.width,
                    colors@.len() == y * self.width + x,
                    forall|i: int, j: int|
                        0 <= i < self.width && 0 <= j < y ==> #[trigger] colors@[j * self.width
                            + i] == self.pixel_spec(self.width - i - 1, j),
                    forall|i: int|
                        0 <= i < x ==> #[trigger] colors@[y * self.width + i] == self.pixel_spec(
                            self.width - i - 1,
                            y as int,
                        ),
                decreases self.width - x,
            {
                proof {
                    lemma_index_in_range(x as int, y as int, self.width as int, self.height as int);
                    assert forall|i: int, j: int| 0 <= i < self.width && 0 <= j < y implies 0
                        <= #[trigger] (j * self.width + i) < y * self.width + x by {
                        lemma_index_in_range(i, j, self.width as int, y as int);
                        assert(j * self.width + i < y * self.width) by (nonlinear_arith)
                            requires
                                0 <= i < self.width,
                                0 <= j < y,
                        ;
                    }
                }
                let c = self.get_pixel(self.width - x - 1, y);
                colors.push(c);
                x = x + 1;
            }
            proof {
                assert((y as int + 1) * self.width == y * self.width + self.width)
                    by (nonlinear_arith);
            }
            y = y + 1;
        }
        SimpleImage { colors, width: self.width, height: self.height }
    }

    /// Copies `other` into this image with its top-left corner at
    /// `(origin_x, origin_y)`; source pixels falling outside the target
    /// are dropped, and pixels outside the target rectangle keep their
    /// colors.
    pub fn blit(&mut self, other: &Self, origin_x: usize, origin_y: usize)
        requires
            old(self).wf(),
            other.wf(),
            origin_x + other.width <= usize::MAX,
            origin_y + other.height <= usize::MAX,
        ensures
            final(self).wf(),
            final(self).width == old(self).width,
            final(self).height == old(self).height,
            forall|dx: int, dy: int|
                0 <= dx < other.width && 0 <= dy < other.height && origin_x + dx < old(self).width
                    && origin_y + dy < old(self).height ==> #[trigger] final(self).pixel_spec(
                    origin_x + dx,
                    origin_y + dy,
                ) == other.pixel_spec(dx, dy),
            forall|tx: int, ty: int|
                0 <= tx < old(self).width && 0 <= ty < old(self).height && !(origin_x <= tx
                    < origin_x + other.width && origin_y <= ty < origin_y + other.height)
                    ==> #[trigger] final(self).pixel_spec(tx, ty) == old(self).pixel_spec(tx, ty),
    {
        let mut dy: usize = 0;
        while dy < other.height
            invariant
                self.wf(),
                other.wf(),
                origin_x + other.width <= usize::MAX,
                origin_y + other.height <= usize::MAX,
                dy <= other.height,
                self.width == old(self).width,
                self.height == old(self).height,
                forall|i: int, j: int|
                    0 <= i < other.width && 0 <= j < dy && origin_x + i < old(self).width && origin_y
                        + j < old(self).height ==> #[trigger] self.pixel_spec(
                        origin_x + i,
                        origin_y + j,
                    ) == other.pixel_spec(i, j),
                forall|tx: int, ty: int|
                    0 <= tx < old(self).width && 0 <= ty < old(self).height && !(origin_x <= tx
                        < origin_x + other.width && origin_y <= ty < origin_y + dy)
                        ==> #[trigger] self.pixel_spec(tx, ty) == old(self).pixel_spec(tx, ty),
            decreases other.height - dy,
        {
            let mut dx: usize = 0;
            while dx < other.width
                invariant
                    self.wf(),
                    other.wf(),
                    origin_x + other.width <= usize::MAX,
                    origin_y + other.height <= usize::MAX,
                    dy < other.height,
                    dx <= other.width,
                    self.width == old(self).width,
                    self.height == old(self).height,
                    forall|i: int, j: int|
                        0 <= i < other.width && 0 <= j < dy && origin_x + i < old(self).width
                            && origin_y + j < old(self).height ==> #[trigger] self.pixel_spec(
                            origin_x + i,
                            origin_y + j,
                        ) == other.pixel_spec(i, j),
                    forall|i: int|
                        0 <= i < dx && origin_x + i < old(self).width && origin_y + dy < old(
                            self,
                        ).height ==> #[trigger] self.pixel_spec(origin_x + i, origin_y + dy)
                            == other.pixel_spec(i, dy as int),
                    forall|tx: int, ty: int|
                        0 <= tx < old(self).width && 0 <= ty < old(self).height && !(origin_x <= tx
                            < origin_x + other.width && origin_y <= ty < origin_y + dy) && !(ty
                            == origin_y + dy && origin_x <= tx < origin_x + dx)
                            ==> #[trigger] self.pixel_spec(tx, ty) == old(self).pixel_spec(tx, ty),
                decreases other.width - dx,
            {
                let c = other.get_pixel(dx, dy);
                self.maybe_set_pixel(c, origin_x + dx, origin_y + dy);
                dx = dx + 1;
            }
            dy = dy + 1;
        }
    }

    /// Blends `other` into this image with its top-left corner at
    /// `(origin_x, origin_y)`: each covered pixel becomes the blend of
    /// its old color under the source pixel; pixels outside the target
    /// rectangle keep their colors.
    pub fn blit_blend(&mut self, other: &Self, origin_x: usize, origin_y: usize)
        requires
            old(self).wf(),
            other.wf(),
            origin_x + other.width <= usize::MAX,
            origin_y + other.height <= usize::MAX,
        ensures
            final(self).wf(),
            final(self).width == old(self).width,
            final(self).height == old(self).height,
            forall|dx: int, dy: int|
                0 <= dx < other.width && 0 <= dy < other.height && origin_x + dx < old(self).width
                    && origin_y + dy < old(self).height ==> #[trigger] final(self).pixel_spec(
                    origin_x + dx,
                    origin_y + dy,
                ) == blend_spec(
                    old(self).pixel_spec(origin_x + dx, origin_y + dy),
                    other.pixel_spec(dx, dy),
                ),
            forall|tx: int, ty: int|
                0 <= tx < old(self).width && 0 <= ty < old(self).height && !(origin_x <= tx
                    < origin_x + other.width && origin_y <= ty < origin_y + other.height)
                    ==> #[trigger] final(self).pixel_spec(tx, ty) == old(self).pixel_spec(tx, ty),
    {
        let mut dy: usize = 0;
        while dy < other.height
            invariant
                self.wf(),
                other.wf(),
                origin_x + other.width <= usize::MAX,
                origin_y + other.height <= usize::MAX,
                dy <= other.height,
                self.width == old(self).width,
                self.height == old(self).height,
                forall|i: int, j: int|
                    0 <= i < other.width && 0 <= j < dy && origin_x + i < old(self).width && origin_y
                        + j < old(self).height ==> #[trigger] self.pixel_spec(
                        origin_x + i,
                        origin_y + j,
                    ) == blend_spec(
                        old(self).pixel_spec(origin_x + i, origin_y + j),
                        other.pixel_spec(i, j),
                    ),
                forall|tx: int, ty: int|
                    0 <= tx < old(self).width && 0 <= ty < old(self).height && !(origin_x <= tx
                        < origin_x + other.width && origin_y <= ty < origin_y + dy)
                        ==> #[trigger] self.pixel_spec(tx, ty) == old(self).pixel_spec(tx, ty),
            decreases other.height - dy,
        {
            let mut dx: usize = 0;
            while dx < other.width
                invariant
                    self.wf(),
                    other.wf(),
                    origin_x + other.width <= usize::MAX,
                    origin_y + other.height <= usize::MAX,
                    dy < other.height,
                    dx <= other.width,
                    self.width == old(self).width,
                    self.height == old(self).height,
                    forall|i: int, j: int|
                        0 <= i < other.width && 0 <= j < dy && origin_x + i < old(self).width
                            && origin_y + j < old(self).height ==> #[trigger] self.pixel_spec(
                            origin_x + i,
                            origin_y + j,
                        ) == blend_spec(
                            old(self).pixel_spec(origin_x + i, origin_y + j),
                            other.pixel_spec(i, j),
                        ),
                    forall|i: int|
                        0 <= i < dx && origin_x + i < old(self).width && origin_y + dy < old(
                            self,
                        ).height ==> #[trigger] self.pixel_spec(origin_x + i, origin_y + dy)
                            == blend_spec(
                            old(self).pixel_spec(origin_x + i, origin_y + dy),
                            other.pixel_spec(i, dy as int),
                        ),
                    forall|tx: int, ty: int|
                        0 <= tx < old(self).width && 0 <= ty < old(self).height && !(origin_x <= tx
                            < origin_x + other.width && origin_y <= ty < origin_y + dy) && !(ty
                            == origin_y + dy && origin_x <= tx < origin_x + dx)
                            ==> #[trigger] self.pixel_spec(tx, ty) == old(self).pixel_spec(tx, ty),
                decreases other.width - dx,
            {
                let c = other.get_pixel(dx, dy);
                self.maybe_blend_pixel(c, origin_x + dx, origin_y + dy);
                dx = dx + 1;
            }
            dy = dy + 1;
        }
    }
}

impl Imageable for SimpleImage {
    open spec fn spec_valid(&self) -> bool {
        self.wf()
    }

    open spec fn spec_width(&self) -> nat {
        self.width as nat
    }

    open spec fn spec_height(&self) -> nat {
        self.height as nat
    }

    open spec fn spec_pixel(&self, x: int, y: int) -> Color {
        self.pixel_spec(x, y)
    }

    fn width(&self) -> usize {
        self.width
    }

    fn height(&self) -> usize {
        self.height
    }

    fn get_pixel(&self, x: usize, y: usize) -> Color {
        SimpleImage::get_pixel(self, x, y)
    }
}

/// A decoded RGBA image as raw bytes, four per pixel, row-major.
#[derive(Debug, Clone)]
pub struct RgbaImage {
    pub data: Vec<u8>,
    pub width: u32,
    pub height: u32,
}

impl RgbaImage {
    /// Wraps raw RGBA bytes with their dimensions.
    pub fn new(data: Vec<u8>, width: u32, height: u32) -> (r: Self)
        ensures
            r.data@ == data@,
            r.width == width,
            r.height == height,
    {
        RgbaImage { data, width, height }
    }
}

} // verus!
