//! The pixel surface: an addressable two-dimensional color buffer, decoupled
//! from any display technology. The grid engine paints aliveness into it each
//! frame; a presentation layer copies it to a screen.

use vstd::prelude::*;

verus! {

/// A color, as the four channel values of one pixel.
#[derive(Clone, Copy, PartialEq, Eq, Structural, Debug)]
pub struct Color {
    pub r: u8,
    pub g: u8,
    pub b: u8,
    pub a: u8,
}

/// The fixed color of a live cell: white.
pub open spec fn live_color() -> Color {
    Color { r: 255, g: 255, b: 255, a: 255 }
}

/// The fixed color of a dead cell: black.
pub open spec fn dead_color() -> Color {
    Color { r: 0, g: 0, b: 0, a: 255 }
}

/// The color a cell of the given aliveness is painted with.
pub open spec fn alive_color(alive: bool) -> Color {
    if alive {
        live_color()
    } else {
        dead_color()
    }
}

/// A row-major index `y * w + x` stays below `w * h` for in-range coordinates.
proof fn lemma_row_major_in_range(x: int, y: int, w: int, h: int)
    by (nonlinear_arith)
    requires
        0 <= x < w,
        0 <= y < h,
    ensures
        0 <= y * w + x < w * h,
{
}

/// Row-major indexing is injective: distinct in-range coordinates give
/// distinct indices.
proof fn lemma_row_major_injective(x1: int, y1: int, x2: int, y2: int, w: int, h: int)
    by (nonlinear_arith)
    requires
        0 <= x1 < w,
        0 <= y1 < h,
        0 <= x2 < w,
        0 <= y2 < h,
        y1 * w + x1 == y2 * w + x2,
    ensures
        x1 == x2 && y1 == y2,
{
}

/// The pixel surface: a `width` by `height` color buffer stored row-major.
/// A surface created with a non-positive dimension has no addressable
/// pixels: every read is absent and every write is ignored.
pub struct Framebuffer {
    data: Vec<Color>,
    width: i32,
    height: i32,
}

impl Framebuffer {
    /// Width of the surface, as it was given at creation.
    pub closed spec fn spec_width(self) -> int {
        self.width as int
    }

    /// Height of the surface, as it was given at creation.
    pub closed spec fn spec_height(self) -> int {
        self.height as int
    }

    /// Whether `(x, y)` addresses a pixel of this surface.
    pub open spec fn in_bounds(self, x: int, y: int) -> bool {
        0 <= x < self.spec_width() && 0 <= y < self.spec_height()
    }

    /// The buffer holds exactly one color per addressable pixel.
    pub closed spec fn wf(self) -> bool {
        if self.width > 0 && self.height > 0 {
            self.data@.len() == self.spec_width() * self.spec_height()
        } else {
            self.data@.len() == 0
        }
    }

    /// The color stored at `(x, y)`, for an in-bounds coordinate.
    pub closed spec fn pix(self, x: int, y: int) -> Color
        recommends
            self.wf(),
            self.in_bounds(x, y),
    {
        self.data@[y * self.spec_width() + x]
    }

    /// The stored color when `(x, y)` is in bounds, and the absent signal
    /// otherwise: what a read of the surface yields.
    pub open spec fn spec_get(self, x: int, y: int) -> Option<Color>
        recommends
            self.wf(),
    {
        if self.in_bounds(x, y) {
            Some(self.pix(x, y))
        } else {
            None
        }
    }

    /// `post` is `pre` with the pixel at `(x, y)` set to `color`: an
    /// out-of-bounds coordinate leaves the surface unchanged, an in-bounds
    /// one changes that pixel and no other.
    pub open spec fn sets_pixel(pre: Framebuffer, post: Framebuffer, x: int, y: int, color: Color) -> bool {
        &&& post.spec_width() == pre.spec_width()
        &&& post.spec_height() == pre.spec_height()
        &&& if pre.in_bounds(x, y) {
            forall|i: int, j: int|
                post.in_bounds(i, j) ==> #[trigger] post.pix(i, j) == if i == x && j == y {
                    color
                } else {
                    pre.pix(i, j)
                }
        } else {
            post == pre
        }
    }

    /// Allocates a `width` by `height` surface filled with the background
    /// color. A non-positive dimension is clamped to an empty surface rather
    /// than rejected: the given dimensions are kept, but no pixel is
    /// addressable.
    pub fn new(width: i32, height: i32, bg_color: Color) -> (fb: Framebuffer)
        requires
            width as int * height as int <= usize::MAX as int,
        ensures
            fb.wf(),
            fb.spec_width() == width as int,
            fb.spec_height() == height as int,
            forall|i: int, j: int| fb.in_bounds(i, j) ==> #[trigger] fb.pix(i, j) == bg_color,
    {
        let mut data: Vec<Color> = Vec::new();
        if width > 0 && height > 0 {
            let total: usize = (width as usize) * (height as usize);
            assert(total == width as int * height as int) by {
                lemma_row_major_in_range(width as int - 1, height as int - 1, width as int, height as int);
            }
            let mut k: usize = 0;
            while k < total
                invariant
                    k == data@.len(),
                    k <= total,
                    forall|m: int| 0 <= m < data@.len() ==> data@[m] == bg_color,
                decreases total - k,
            {
                data.push(bg_color);
                k = k + 1;
            }
        }
        let fb = Framebuffer { data, width, height };
        assert forall|i: int, j: int| fb.in_bounds(i, j) implies #[trigger] fb.pix(i, j) == bg_color by {
            lemma_row_major_in_range(i, j, width as int, height as int);
        }
        fb
    }

    /// Writes `color` at `(x, y)`. An out-of-bounds coordinate is a reported,
    /// non-fatal condition: the surface is left unchanged.
    pub fn set_pixel(&mut self, x: i32, y: i32, color: Color)
        requires
            old(self).wf(),
        ensures
            final(self).wf(),
            Framebuffer::sets_pixel(*old(self), *final(self), x as int, y as int, color),
    {
        if x >= 0 && x < self.width && y >= 0 && y < self.height {
            let len: usize = self.data.len();
            proof {
                lemma_row_major_in_range(x as int, y as int, self.width as int, self.height as int);
            }
            assert((y as int) * (self.width as int) + (x as int) < len as int);
            let idx: usize = (y as usize) * (self.width as usize) + (x as usize);
            self.data.set(idx, color);
            assert forall|i: int, j: int| self.in_bounds(i, j) implies #[trigger] self.pix(i, j)
                == if i == x as int && j == y as int {
                color
            } else {
                old(self).pix(i, j)
            } by {
                lemma_row_major_in_range(i, j, self.width as int, self.height as int);
                if j * self.spec_width() + i == idx as int {
                    lemma_row_major_injective(
                        i,
                        j,
                        x as int,
                        y as int,
                        self.width as int,
                        self.height as int,
                    );
                }
            }
        }
    }

    /// Reads the color stored at `(x, y)`, or `None` when the coordinate is
    /// out of bounds; an in-range read never falls back to a default color.
    pub fn get_pixel(&mut self, x: i32, y: i32) -> (r: Option<Color>)
        requires
            old(self).wf(),
        ensures
            *final(self) == *old(self),
            r == old(self).spec_get(x as int, y as int),
    {
        if x < 0 || x >= self.width || y < 0 || y >= self.height {
            return None;
        }
        let len: usize = self.data.len();
        proof {
            lemma_row_major_in_range(x as int, y as int, self.width as int, self.height as int);
        }
        assert((y as int) * (self.width as int) + (x as int) < len as int);
        let idx: usize = (y as usize) * (self.width as usize) + (x as usize);
        Some(self.data[idx])
    }

    /// The color a cell of the given aliveness is painted with: white for a
    /// live cell, black for a dead one.
    pub fn get_color(&self, alive: bool) -> (c: Color)
        ensures
            c == alive_color(alive),
    {
        if alive {
            Color { r: 255, g: 255, b: 255, a: 255 }
        } else {
            Color { r: 0, g: 0, b: 0, a: 255 }
        }
    }
}

/// Reading a pixel right after writing one: a `get` at the coordinate of an
/// in-bounds `set` yields exactly the written color, every other pixel reads
/// as before, and a `get` at an out-of-bounds coordinate yields the absent
/// signal, never a default color.
pub proof fn lemma_pixel_roundtrip(pre: Framebuffer, post: Framebuffer, x: int, y: int, c: Color)
    requires
        pre.wf(),
        post.wf(),
        Framebuffer::sets_pixel(pre, post, x, y, c),
    ensures
        pre.in_bounds(x, y) ==> post.spec_get(x, y) == Some(c),
        !pre.in_bounds(x, y) ==> post.spec_get(x, y) == None::<Color>,
        forall|i: int, j: int|
            post.in_bounds(i, j) && (i != x || j != y) ==> #[trigger] post.spec_get(i, j)
                == pre.spec_get(i, j),
{
}

} // verus!
