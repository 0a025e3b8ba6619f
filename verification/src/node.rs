use vstd::prelude::*;

use crate::buffer::Buffer;
use crate::color::{composite_over, Color};
use crate::image::Image;

verus! {

/// A drawable shape. Each variant says through `covers` which cells it
/// touches and through `paint` which color it composites there; `draw`
/// composites that color exactly once over every covered cell that lies
/// inside the buffer and leaves every other cell unchanged.
pub trait Node: Sized {
    /// What drawing needs of the shape itself, beyond a well-formed buffer:
    /// only that its coordinate arithmetic stays inside 32-bit range.
    spec fn draw_req(&self) -> bool;

    /// Whether the shape touches the cell at `(x, y)`.
    spec fn covers(&self, x: int, y: int) -> bool;

    /// The color the shape composites over the cell at `(x, y)`.
    spec fn paint(&self, x: int, y: int) -> Color;

    /// Composites the shape onto the buffer: every covered in-bounds cell
    /// receives one compositing step; covered cells outside the buffer are
    /// silently discarded; everything else stays as it was.
    fn draw(&self, buf: &mut Buffer)
        requires
            old(buf).wf(),
            self.draw_req(),
        ensures
            final(buf).wf(),
            final(buf).width == old(buf).width,
            final(buf).height == old(buf).height,
            forall|x: int, y: int|
                old(buf).in_bounds(x, y) ==> final(buf).cell(x, y) == (if self.covers(x, y) {
                    composite_over(old(buf).cell(x, y), self.paint(x, y))
                } else {
                    old(buf).cell(x, y)
                }),
    ;
}

/// The signal that a shape does not support changing its size.
#[derive(Debug, Clone, Copy, PartialEq, Eq, Structural)]
pub struct SizeError;

/// A shape whose position can be read and moved freely.
pub trait Position: Sized {
    /// The shape's x coordinate.
    spec fn pos_x(&self) -> i32;

    /// The shape's y coordinate.
    spec fn pos_y(&self) -> i32;

    /// The shape with its x coordinate replaced and nothing else changed.
    spec fn moved_x(&self, x: i32) -> Self;

    /// The shape with its y coordinate replaced and nothing else changed.
    spec fn moved_y(&self, y: i32) -> Self;

    fn get_x(&self) -> (r: i32)
        ensures
            r == self.pos_x(),
    ;

    fn get_y(&self) -> (r: i32)
        ensures
            r == self.pos_y(),
    ;

    fn set_x(&mut self, x: i32)
        ensures
            *final(self) == old(self).moved_x(x),
            final(self).pos_x() == x,
            final(self).pos_y() == old(self).pos_y(),
    ;

    fn set_y(&mut self, y: i32)
        ensures
            *final(self) == old(self).moved_y(y),
            final(self).pos_y() == y,
            final(self).pos_x() == old(self).pos_x(),
    ;
}

/// A shape whose size can be read, and changed where the shape allows it: a
/// shape that does not (`resizable` is false) reports `SizeError` and stays
/// exactly as it was, rather than silently succeeding.
pub trait Size: Sized {
    /// The shape's width.
    spec fn size_width(&self) -> i32;

    /// The shape's height.
    spec fn size_height(&self) -> i32;

    /// Whether the shape supports changing its size at all.
    spec fn resizable(&self) -> bool;

    /// The shape with its width replaced and nothing else changed.
    spec fn resized_width(&self, width: i32) -> Self;

    /// The shape with its height replaced and nothing else changed.
    spec fn resized_height(&self, height: i32) -> Self;

    fn get_width(&self) -> (r: i32)
        ensures
            r == self.size_width(),
    ;

    fn get_height(&self) -> (r: i32)
        ensures
            r == self.size_height(),
    ;

    fn set_width(&mut self, width: i32) -> (r: Result<(), SizeError>)
        ensures
            old(self).resizable() ==> r == Ok::<(), SizeError>(()) && *final(self) == old(
                self,
            ).resized_width(width) && final(self).size_width() == width,
            !old(self).resizable() ==> r == Err::<(), SizeError>(SizeError) && *final(self) == *old(
                self,
            ),
    ;

    fn set_height(&mut self, height: i32) -> (r: Result<(), SizeError>)
        ensures
            old(self).resizable() ==> r == Ok::<(), SizeError>(()) && *final(self) == old(
                self,
            ).resized_height(height) && final(self).size_height() == height,
            !old(self).resizable() ==> r == Err::<(), SizeError>(SizeError) && *final(self) == *old(
                self,
            ),
    ;
}

/// Fills the whole buffer: composites its color over every cell.
pub struct Fill {
    pub color: Color,
}

impl Fill {
    /// Builds a fill from its color.
    pub fn new(color: Color) -> (f: Fill)
        ensures
            f.color == color,
    {
        Fill { color }
    }
}

impl Node for Fill {
    open spec fn draw_req(&self) -> bool {
        true
    }

    open spec fn covers(&self, x: int, y: int) -> bool {
        true
    }

    open spec fn paint(&self, x: int, y: int) -> Color {
        self.color
    }

    fn draw(&self, buf: &mut Buffer) {
        let ghost b0 = *buf;
        let w: usize = buf.width;
        let h: usize = buf.height;
        let mut x: usize = 0;
        while x < w
            invariant
                buf.wf(),
                buf.width == b0.width,
                buf.height == b0.height,
                w == b0.width,
                h == b0.height,
                x <= w,
                forall|gx: int, gy: int|
                    b0.in_bounds(gx, gy) ==> buf.cell(gx, gy) == (if gx < x {
                        composite_over(b0.cell(gx, gy), self.color)
                    } else {
                        b0.cell(gx, gy)
                    }),
            decreases w - x,
        {
            let mut y: usize = 0;
            while y < h
                invariant
                    buf.wf(),
                    buf.width == b0.width,
                    buf.height == b0.height,
                    w == b0.width,
                    h == b0.height,
                    x < w,
                    y <= h,
                    forall|gx: int, gy: int|
                        b0.in_bounds(gx, gy) ==> buf.cell(gx, gy) == (if gx < x || (gx == x && gy
                            < y) {
                            composite_over(b0.cell(gx, gy), self.color)
                        } else {
                            b0.cell(gx, gy)
                        }),
                decreases h - y,
            {
                buf.set(x as i32, y as i32, &self.color);
                y = y + 1;
            }
            x = x + 1;
        }
    }
}

/// A single dot: composites its color over the one cell at `(x, y)`.
pub struct Pixel {
    pub x: i32,
    pub y: i32,
    pub color: Color,
}

impl Pixel {
    /// Builds a pixel from its position and color.
    pub fn new(x: i32, y: i32, color: Color) -> (p: Pixel)
        ensures
            p.x == x,
            p.y == y,
            p.color == color,
    {
        Pixel { x, y, color }
    }
}

impl Node for Pixel {
    open spec fn draw_req(&self) -> bool {
        true
    }

    open spec fn covers(&self, x: int, y: int) -> bool {
        x == self.x && y == self.y
    }

    open spec fn paint(&self, x: int, y: int) -> Color {
        self.color
    }

    fn draw(&self, buf: &mut Buffer) {
        buf.set(self.x, self.y, &self.color);
    }
}

/// An axis-aligned rectangle: composites its color over every cell of the
/// half-open region `[x, x + width) x [y, y + height)`. A zero or negative
/// width or height covers nothing.
pub struct Rect {
    pub x: i32,
    pub y: i32,
    pub width: i32,
    pub height: i32,
    pub color: Color,
}

impl Rect {
    /// Builds a rectangle from its position, size and color.
    pub fn new(x: i32, y: i32, width: i32, height: i32, color: Color) -> (rect: Rect)
        ensures
            rect.x == x,
            rect.y == y,
            rect.width == width,
            rect.height == height,
            rect.color == color,
    {
        Rect { x, y, width, height, color }
    }
}

impl Node for Rect {
    open spec fn draw_req(&self) -> bool {
        &&& i32::MIN <= self.x + self.width <= i32::MAX
        &&& i32::MIN <= self.y + self.height <= i32::MAX
    }

    open spec fn covers(&self, x: int, y: int) -> bool {
        self.x <= x < self.x + self.width && self.y <= y < self.y + self.height
    }

    open spec fn paint(&self, x: int, y: int) -> Color {
        self.color
    }

    fn draw(&self, buf: &mut Buffer) {
        let ghost b0 = *buf;
        let x_end: i32 = self.x + self.width;
        let y_end: i32 = self.y + self.height;
        let mut cx: i32 = self.x;
        while cx < x_end
            invariant
                buf.wf(),
                buf.width == b0.width,
                buf.height == b0.height,
                x_end == self.x + self.width,
                y_end == self.y + self.height,
                self.x <= cx,
                cx <= x_end || cx == self.x,
                forall|gx: int, gy: int|
                    b0.in_bounds(gx, gy) ==> buf.cell(gx, gy) == (if self.covers(gx, gy) && gx
                        < cx {
                        composite_over(b0.cell(gx, gy), self.color)
                    } else {
                        b0.cell(gx, gy)
                    }),
            decreases x_end - cx,
        {
            let mut cy: i32 = self.y;
            while cy < y_end
                invariant
                    buf.wf(),
                    buf.width == b0.width,
                    buf.height == b0.height,
                    x_end == self.x + self.width,
                    y_end == self.y + self.height,
                    self.x <= cx < x_end,
                    self.y <= cy,
                    cy <= y_end || cy == self.y,
                    forall|gx: int, gy: int|
                        b0.in_bounds(gx, gy) ==> buf.cell(gx, gy) == (if self.covers(gx, gy) && (gx
                            < cx || (gx == cx && gy < cy)) {
                            composite_over(b0.cell(gx, gy), self.color)
                        } else {
                            b0.cell(gx, gy)
                        }),
                decreases y_end - cy,
            {
                buf.set(cx, cy, &self.color);
                cy = cy + 1;
            }
            cx = cx + 1;
        }
    }
}

impl Position for Rect {
    open spec fn pos_x(&self) -> i32 {
        self.x
    }

    open spec fn pos_y(&self) -> i32 {
        self.y
    }

    open spec fn moved_x(&self, x: i32) -> Rect {
        Rect { x, ..*self }
    }

    open spec fn moved_y(&self, y: i32) -> Rect {
        Rect { y, ..*self }
    }

    fn get_x(&self) -> i32 {
        self.x
    }

    fn get_y(&self) -> i32 {
        self.y
    }

    fn set_x(&mut self, x: i32) {
        self.x = x;
    }

    fn set_y(&mut self, y: i32) {
        self.y = y;
    }
}

impl Size for Rect {
    open spec fn size_width(&self) -> i32 {
        self.width
    }

    open spec fn size_height(&self) -> i32 {
        self.height
    }

    open spec fn resizable(&self) -> bool {
        true
    }

    open spec fn resized_width(&self, width: i32) -> Rect {
        Rect { width, ..*self }
    }

    open spec fn resized_height(&self, height: i32) -> Rect {
        Rect { height, ..*self }
    }

    fn get_width(&self) -> i32 {
        self.width
    }

    fn get_height(&self) -> i32 {
        self.height
    }

    fn set_width(&mut self, width: i32) -> Result<(), SizeError> {
        self.width = width;
        Ok(())
    }

    fn set_height(&mut self, height: i32) -> Result<(), SizeError> {
        self.height = height;
        Ok(())
    }
}

/// A placed image: composites the image's pixel `(sx, sy)` over the buffer
/// cell `(x + sx, y + sy)` for every pixel of the image. The image is shared
/// by reference and never changed; the sprite's apparent size is the image's
/// and cannot be set.
pub struct Sprite<'a> {
    pub x: i32,
    pub y: i32,
    pub image: &'a Image,
}

impl<'a> Sprite<'a> {
    /// Builds a sprite from its position and the image it shows.
    pub fn new(x: i32, y: i32, image: &Image) -> (s: Sprite)
        ensures
            s.x == x,
            s.y == y,
            s.image == image,
    {
        Sprite { x, y, image }
    }
}

impl<'a> Node for Sprite<'a> {
    open spec fn draw_req(&self) -> bool {
        &&& self.image.wf()
        &&& self.x + self.image.width <= i32::MAX + 1
        &&& self.y + self.image.height <= i32::MAX + 1
    }

    open spec fn covers(&self, x: int, y: int) -> bool {
        self.x <= x < self.x + self.image.width && self.y <= y < self.y + self.image.height
    }

    open spec fn paint(&self, x: int, y: int) -> Color {
        self.image.cell(x - self.x, y - self.y)
    }

    fn draw(&self, buf: &mut Buffer) {
        let ghost b0 = *buf;
        let w: usize = self.image.width;
        let h: usize = self.image.height;
        let mut sx: usize = 0;
        while sx < w
            invariant
                buf.wf(),
                buf.width == b0.width,
                buf.height == b0.height,
                self.image.wf(),
                self.x + w <= i32::MAX + 1,
                self.y + h <= i32::MAX + 1,
                w == self.image.width,
                h == self.image.height,
                sx <= w,
                forall|gx: int, gy: int|
                    b0.in_bounds(gx, gy) ==> buf.cell(gx, gy) == (if self.covers(gx, gy) && gx
                        - self.x < sx {
                        composite_over(b0.cell(gx, gy), self.paint(gx, gy))
                    } else {
                        b0.cell(gx, gy)
                    }),
            decreases w - sx,
        {
            let mut sy: usize = 0;
            while sy < h
                invariant
                    buf.wf(),
                    buf.width == b0.width,
                    buf.height == b0.height,
                    self.image.wf(),
                    self.x + w <= i32::MAX + 1,
                    self.y + h <= i32::MAX + 1,
                    w == self.image.width,
                    h == self.image.height,
                    sx < w,
                    sy <= h,
                    forall|gx: int, gy: int|
                        b0.in_bounds(gx, gy) ==> buf.cell(gx, gy) == (if self.covers(gx, gy) && (gx
                            - self.x < sx || (gx - self.x == sx && gy - self.y < sy)) {
                            composite_over(b0.cell(gx, gy), self.paint(gx, gy))
                        } else {
                            b0.cell(gx, gy)
                        }),
                decreases h - sy,
            {
                let screen_x: i32 = sx as i32 + self.x;
                let screen_y: i32 = sy as i32 + self.y;
                let color: &Color = self.image.get(sx, sy);
                buf.set(screen_x, screen_y, color);
                sy = sy + 1;
            }
            sx = sx + 1;
        }
    }
}

impl<'a> Position for Sprite<'a> {
    open spec fn pos_x(&self) -> i32 {
        self.x
    }

    open spec fn pos_y(&self) -> i32 {
        self.y
    }

    open spec fn moved_x(&self, x: i32) -> Sprite<'a> {
        Sprite { x, ..*self }
    }

    open spec fn moved_y(&self, y: i32) -> Sprite<'a> {
        Sprite { y, ..*self }
    }

    fn get_x(&self) -> i32 {
        self.x
    }

    fn get_y(&self) -> i32 {
        self.y
    }

    fn set_x(&mut self, x: i32) {
        self.x = x;
    }

    fn set_y(&mut self, y: i32) {
        self.y = y;
    }
}

impl<'a> Size for Sprite<'a> {
    open spec fn size_width(&self) -> i32 {
        self.image.width as i32
    }

    open spec fn size_height(&self) -> i32 {
        self.image.height as i32
    }

    open spec fn resizable(&self) -> bool {
        false
    }

    open spec fn resized_width(&self, width: i32) -> Sprite<'a> {
        *self
    }

    open spec fn resized_height(&self, height: i32) -> Sprite<'a> {
        *self
    }

    fn get_width(&self) -> i32 {
        self.image.width as i32
    }

    fn get_height(&self) -> i32 {
        self.image.height as i32
    }

    fn set_width(&mut self, width: i32) -> Result<(), SizeError> {
        Err(SizeError)
    }

    fn set_height(&mut self, height: i32) -> Result<(), SizeError> {
        Err(SizeError)
    }
}

} // verus!
