use vstd::prelude::*;

use crate::color::Color;
use crate::grid::lemma_row_major_in_range;

verus! {

/// A read-only, dense, row-major grid of colors. The host decodes a file into
/// plain channel values and hands them here; sprites then share the image by
/// reference and never change it.
pub struct Image {
    pub width: usize,
    pub height: usize,
    pub pixels: Vec<Color>,
}

impl Image {
    /// The image holds exactly one color per cell, and both dimensions fit the
    /// signed 32-bit coordinate space that drawing works in.
    pub open spec fn wf(&self) -> bool {
        &&& self.pixels@.len() == self.width * self.height
        &&& self.width <= i32::MAX
        &&& self.height <= i32::MAX
    }

    /// The color of cell `(x, y)`.
    pub open spec fn cell(&self, x: int, y: int) -> Color {
        self.pixels@[y * self.width + x]
    }

    /// Builds an image from its dimensions and its row-major pixels.
    pub fn new(width: usize, height: usize, pixels: Vec<Color>) -> (img: Image)
        requires
            pixels@.len() == width * height,
            width <= i32::MAX,
            height <= i32::MAX,
        ensures
            img.wf(),
            img.width == width,
            img.height == height,
            img.pixels@ == pixels@,
    {
        Image { width, height, pixels }
    }

    /// The color at `(x, y)`. The caller is trusted to stay inside the image.
    pub fn get(&self, x: usize, y: usize) -> (c: &Color)
        requires
            self.wf(),
            x < self.width,
            y < self.height,
        ensures
            *c == self.cell(x as int, y as int),
    {
        proof {
            assert(self.pixels.len() == self.width * self.height);
            lemma_row_major_in_range(x as int, y as int, self.width as int, self.height as int);
        }
        &self.pixels[y * self.width + x]
    }
}

} // verus!
