//! The rectangle a flush covers, with inclusive corner coordinates.

use vstd::prelude::*;

verus! {

/// A rectangle of pixels given by its inclusive corners, in the renderer's
/// sixteen-bit coordinates.
///
/// The renderer hands over areas with `x1 <= x2` and `y1 <= y2`. An area whose
/// corners are the other way round on either axis covers no pixel.
#[derive(Clone, Copy, Debug, PartialEq, Eq, Structural)]
pub struct Area {
    pub x1: i16,
    pub y1: i16,
    pub x2: i16,
    pub y2: i16,
}

impl Area {
    /// Whether the corners are in order on both axes.
    pub open spec fn ordered(self) -> bool {
        self.x1 <= self.x2 && self.y1 <= self.y2
    }

    /// Number of pixels in one row of the area.
    pub open spec fn spec_width(self) -> int {
        if self.ordered() {
            self.x2 - self.x1 + 1
        } else {
            0
        }
    }

    /// Number of rows of the area.
    pub open spec fn spec_height(self) -> int {
        if self.ordered() {
            self.y2 - self.y1 + 1
        } else {
            0
        }
    }

    /// Number of pixels the area covers.
    pub open spec fn spec_pixel_count(self) -> int {
        self.spec_width() * self.spec_height()
    }

    /// Whether the pixel at (`x`, `y`) lies in the area.
    pub open spec fn spec_contains(self, x: int, y: int) -> bool {
        self.x1 <= x <= self.x2 && self.y1 <= y <= self.y2
    }

    /// Place of the pixel at (`x`, `y`) in a packed row-major buffer of the
    /// area: the width times the row index, plus the column index.
    pub open spec fn spec_offset(self, x: int, y: int) -> int {
        self.spec_width() * (y - self.y1) + (x - self.x1)
    }

    /// Column of the pixel that stands at `offset` in a packed buffer.
    pub open spec fn spec_x_at(self, offset: int) -> int {
        self.x1 + offset % self.spec_width()
    }

    /// Row of the pixel that stands at `offset` in a packed buffer.
    pub open spec fn spec_y_at(self, offset: int) -> int {
        self.y1 + offset / self.spec_width()
    }

    /// The pixel count is never negative, is zero exactly for an area without
    /// ordered corners, and is at most 2^32.
    pub proof fn lemma_pixel_count_bounds(self)
        ensures
            0 <= self.spec_width() <= 65536,
            0 <= self.spec_height() <= 65536,
            0 <= self.spec_pixel_count() <= 0x1_0000_0000,
            self.spec_pixel_count() == 0 <==> !self.ordered(),
    {
        let w = self.spec_width();
        let h = self.spec_height();
        assert(0 <= w * h <= 0x1_0000_0000 && (w * h == 0 <==> (w == 0 || h == 0)))
            by (nonlinear_arith)
            requires
                0 <= w <= 65536,
                0 <= h <= 65536,
        ;
    }

    /// Every pixel of the area has an offset below the pixel count, and the
    /// offset leads back to the pixel.
    pub proof fn lemma_offset_in_buffer(self, x: int, y: int)
        requires
            self.spec_contains(x, y),
        ensures
            0 <= self.spec_offset(x, y) < self.spec_pixel_count(),
            self.spec_x_at(self.spec_offset(x, y)) == x,
            self.spec_y_at(self.spec_offset(x, y)) == y,
    {
        let w = self.spec_width();
        let h = self.spec_height();
        let row = y - self.y1;
        let col = x - self.x1;
        assert(0 <= w * row + col < w * h) by (nonlinear_arith)
            requires
                0 <= row < h,
                0 <= col < w,
        ;
        vstd::arithmetic::div_mod::lemma_fundamental_div_mod_converse(w * row + col, w, row, col);
    }

    /// Every offset below the pixel count is the offset of exactly the pixel
    /// that `spec_x_at` and `spec_y_at` name, and that pixel lies in the area.
    pub proof fn lemma_pixel_at_offset(self, offset: int)
        requires
            0 <= offset < self.spec_pixel_count(),
        ensures
            self.spec_contains(self.spec_x_at(offset), self.spec_y_at(offset)),
            self.spec_offset(self.spec_x_at(offset), self.spec_y_at(offset)) == offset,
    {
        let w = self.spec_width();
        let h = self.spec_height();
        self.lemma_pixel_count_bounds();
        assert(w > 0) by (nonlinear_arith)
            requires
                0 <= offset < w * h,
                0 <= w,
        ;
        vstd::arithmetic::div_mod::lemma_fundamental_div_mod(offset, w);
        vstd::arithmetic::div_mod::lemma_mod_bound(offset, w);
        let q = offset / w;
        let r = offset % w;
        assert(0 <= q < h) by (nonlinear_arith)
            requires
                0 <= offset < w * h,
                offset == w * q + r,
                0 <= r < w,
        ;
    }

    /// An area from its inclusive corners.
    pub fn new(x1: i16, y1: i16, x2: i16, y2: i16) -> (area: Area)
        ensures
            area == (Area { x1, y1, x2, y2 }),
    {
        Area { x1, y1, x2, y2 }
    }

    /// Whether the corners are in order on both axes, so that the area covers
    /// at least one pixel.
    pub fn is_ordered(&self) -> (ordered: bool)
        ensures
            ordered == self.ordered(),
    {
        self.x1 <= self.x2 && self.y1 <= self.y2
    }

    /// Number of pixels in one row.
    pub fn width(&self) -> (width: u32)
        ensures
            width == self.spec_width(),
    {
        if self.is_ordered() {
            (self.x2 as i32 - self.x1 as i32 + 1) as u32
        } else {
            0
        }
    }

    /// Number of rows.
    pub fn height(&self) -> (height: u32)
        ensures
            height == self.spec_height(),
    {
        if self.is_ordered() {
            (self.y2 as i32 - self.y1 as i32 + 1) as u32
        } else {
            0
        }
    }

    /// Number of pixels covered, which is the number of colors a packed buffer
    /// for this area holds.
    pub fn pixel_count(&self) -> (count: u64)
        ensures
            count == self.spec_pixel_count(),
    {
        proof {
            self.lemma_pixel_count_bounds();
        }
        self.width() as u64 * self.height() as u64
    }

    /// Whether the pixel at (`x`, `y`) lies in the area.
    pub fn contains(&self, x: i16, y: i16) -> (inside: bool)
        ensures
            inside == self.spec_contains(x as int, y as int),
    {
        self.x1 <= x && x <= self.x2 && self.y1 <= y && y <= self.y2
    }

    /// Place of the pixel at (`x`, `y`) in a packed row-major buffer of the
    /// area, or `None` for a pixel outside the area.
    pub fn offset_of(&self, x: i16, y: i16) -> (offset: Option<u64>)
        ensures
            offset.is_some() == self.spec_contains(x as int, y as int),
            offset matches Some(k) ==> k == self.spec_offset(x as int, y as int),
    {
        if self.contains(x, y) {
            proof {
                self.lemma_pixel_count_bounds();
                self.lemma_offset_in_buffer(x as int, y as int);
            }
            let row: u64 = (y as i32 - self.y1 as i32) as u64;
            let col: u64 = (x as i32 - self.x1 as i32) as u64;
            let width: u64 = self.width() as u64;
            assert(width * row + col < self.spec_pixel_count());
            Some(width * row + col)
        } else {
            None
        }
    }
}

} // verus!
