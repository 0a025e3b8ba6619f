use vstd::prelude::*;

use crate::color::{composite_over, opaque_black, Color};
use crate::grid::{lemma_row_major_in_range, lemma_row_major_injective};

verus! {

/// The packed form of one pixel: r, g and b folded into one integer as
/// `r * 65536 + g * 256 + b`, with the alpha channel dropped.
pub open spec fn packed(c: Color) -> u32 {
    (c.r * 65536 + c.g * 256 + c.b) as u32
}

/// A dense, row-major 2D grid of colors with bounds-checked compositing
/// writes. Its dimensions are fixed at construction.
pub struct Buffer {
    pub width: usize,
    pub height: usize,
    pub pixels: Vec<Color>,
}

impl Buffer {
    /// The buffer holds exactly one color per cell, and both dimensions fit
    /// the signed 32-bit coordinate space that `set` addresses cells with.
    pub open spec fn wf(&self) -> bool {
        &&& self.pixels@.len() == self.width * self.height
        &&& self.width <= i32::MAX
        &&& self.height <= i32::MAX
    }

    /// The color of cell `(x, y)`.
    pub open spec fn cell(&self, x: int, y: int) -> Color {
        self.pixels@[y * self.width + x]
    }

    /// Whether `(x, y)` lies inside the buffer.
    pub open spec fn in_bounds(&self, x: int, y: int) -> bool {
        0 <= x < self.width && 0 <= y < self.height
    }

    /// Allocates a `width * height` buffer with every cell opaque black.
    pub fn new(width: usize, height: usize) -> (buf: Buffer)
        requires
            width * height <= usize::MAX,
            width <= i32::MAX,
            height <= i32::MAX,
        ensures
            buf.wf(),
            buf.width == width,
            buf.height == height,
            forall|x: int, y: int| buf.in_bounds(x, y) ==> buf.cell(x, y) == opaque_black(),
    {
        let n: usize = width * height;
        let mut pixels: Vec<Color> = Vec::new();
        let mut i: usize = 0;
        while i < n
            invariant
                i <= n,
                pixels@.len() == i,
                forall|j: int| 0 <= j < i ==> pixels@[j] == opaque_black(),
            decreases n - i,
        {
            pixels.push(Color::rgb(0, 0, 0));
            i = i + 1;
        }
        let buf = Buffer { width, height, pixels };
        proof {
            assert forall|x: int, y: int| buf.in_bounds(x, y) implies buf.cell(x, y)
                == opaque_black() by {
                lemma_row_major_in_range(x, y, width as int, height as int);
            }
        }
        buf
    }

    /// Composites `color` over the cell at `(x, y)`. A coordinate outside the
    /// buffer is silently discarded: the buffer is left exactly as it was, and
    /// nothing fails.
    pub fn set(&mut self, x: i32, y: i32, color: &Color)
        requires
            old(self).wf(),
        ensures
            final(self).wf(),
            final(self).width == old(self).width,
            final(self).height == old(self).height,
            forall|gx: int, gy: int|
                old(self).in_bounds(gx, gy) ==> final(self).cell(gx, gy) == (if gx == x && gy == y {
                    composite_over(old(self).cell(gx, gy), *color)
                } else {
                    old(self).cell(gx, gy)
                }),
            !old(self).in_bounds(x as int, y as int) ==> *final(self) == *old(self),
    {
        if x < 0 || y < 0 {
            return ;
        }
        let xu: usize = x as usize;
        let yu: usize = y as usize;
        if xu >= self.width || yu >= self.height {
            return ;
        }
        proof {
            assert(self.pixels.len() == self.width * self.height);
            lemma_row_major_in_range(xu as int, yu as int, self.width as int, self.height as int);
        }
        let idx: usize = yu * self.width + xu;
        let mut c: Color = self.pixels[idx];
        c.add_layer_above(*color);
        self.pixels[idx] = c;
        proof {
            assert forall|gx: int, gy: int| self.in_bounds(gx, gy) implies self.cell(gx, gy) == (
            if gx == x && gy == y {
                composite_over(old(self).cell(gx, gy), *color)
            } else {
                old(self).cell(gx, gy)
            }) by {
                lemma_row_major_in_range(gx, gy, self.width as int, self.height as int);
                if !(gx == x && gy == y) {
                    lemma_row_major_injective(gx, gy, xu as int, yu as int, self.width as int);
                }
            }
        }
    }

    /// The color at `(x, y)`. The caller is trusted to stay inside the buffer,
    /// unlike with `set`.
    pub fn get(&self, x: usize, y: usize) -> (c: &Color)
        requires
            self.wf(),
            x < self.width,
            y < self.height,
        ensures
            *c == self.cell(x as int, y as int),
    {
        proof {
            assert(self.pixels.len() == self.width * self.height);
            lemma_row_major_in_range(x as int, y as int, self.width as int, self.height as int);
        }
        &self.pixels[y * self.width + x]
    }

    /// Packs every pixel into one integer, row-major, for a display sink: the
    /// cell at `(x, y)` becomes entry `y * width + x` of the result.
    pub fn to_u32_buf(&mut self) -> (out: Vec<u32>)
        ensures
            *final(self) == *old(self),
            out@.len() == old(self).pixels@.len(),
            forall|i: int| 0 <= i < out@.len() ==> out@[i] == packed(old(self).pixels@[i]),
    {
        let ghost b0 = *self;
        let n: usize = self.pixels.len();
        let mut out: Vec<u32> = Vec::new();
        let mut i: usize = 0;
        while i < n
            invariant
                *self == b0,
                n == self.pixels@.len(),
                i <= n,
                out@.len() == i,
                forall|j: int| 0 <= j < i ==> out@[j] == packed(self.pixels@[j]),
            decreases n - i,
        {
            let c: Color = self.pixels[i];
            out.push(c.r as u32 * 65536 + c.g as u32 * 256 + c.b as u32);
            i = i + 1;
        }
        out
    }
}

} // verus!
