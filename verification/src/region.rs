//! One flush: an area and the packed colors of its pixels, and the pixel
//! writes that carry it to a drawing surface.

use vstd::prelude::*;
use crate::area::Area;
use crate::color::Color;

verus! {

/// One pixel to be written to the drawing surface.
#[derive(Clone, Copy, Debug, PartialEq, Eq, Structural)]
pub struct PixelWrite {
    pub x: i32,
    pub y: i32,
    pub color: Color,
}

/// What a flush region stands for: its area and the native words of its
/// pixels, row by row.
pub struct RegionModel {
    pub area: Area,
    pub colors: Seq<u16>,
}

impl RegionModel {
    /// The buffer holds exactly one color for each pixel of the area.
    pub open spec fn well_formed(self) -> bool {
        self.colors.len() == self.area.spec_pixel_count()
    }

    /// The write for the color that stands at `offset` in the buffer.
    pub open spec fn pixel_at(self, offset: int) -> PixelWrite {
        PixelWrite {
            x: self.area.spec_x_at(offset) as i32,
            y: self.area.spec_y_at(offset) as i32,
            color: Color { raw: self.colors[offset] },
        }
    }

    /// The writes of the whole region, in buffer order: row by row from the
    /// top, each row from the left.
    pub open spec fn pixel_writes(self) -> Seq<PixelWrite> {
        Seq::new(self.colors.len(), |offset: int| self.pixel_at(offset))
    }
}

/// The native words of a sequence of pixel writes, in order.
pub open spec fn packed_colors(writes: Seq<PixelWrite>) -> Seq<u16> {
    Seq::new(writes.len(), |k: int| writes[k].color.raw)
}

/// Decoding a packed buffer into pixel writes and encoding the writes again
/// gives back the buffer, word for word.
pub proof fn lemma_decode_encode(region: RegionModel)
    ensures
        packed_colors(region.pixel_writes()) == region.colors,
{
    assert(packed_colors(region.pixel_writes()) =~= region.colors);
}

/// The writes of a region visit every pixel of its area exactly once, in
/// row-major order: there are as many writes as pixels, the write at a
/// pixel's offset goes to that pixel with the color that stands there in the
/// buffer, and every write goes to a pixel of the area, the one whose offset
/// is the write's place.
pub proof fn lemma_writes_cover_area(region: RegionModel)
    requires
        region.well_formed(),
    ensures
        region.pixel_writes().len() == region.area.spec_pixel_count(),
        forall|x: int, y: int| #[trigger]
            region.area.spec_contains(x, y) ==> region.pixel_writes()[region.area.spec_offset(
                x,
                y,
            )] == (PixelWrite {
                x: x as i32,
                y: y as i32,
                color: Color { raw: region.colors[region.area.spec_offset(x, y)] },
            }),
        forall|k: int|
            0 <= k < region.pixel_writes().len() ==> region.area.spec_contains(
                (#[trigger] region.pixel_writes()[k]).x as int,
                region.pixel_writes()[k].y as int,
            ) && region.area.spec_offset(
                region.pixel_writes()[k].x as int,
                region.pixel_writes()[k].y as int,
            ) == k,
{
    let area = region.area;
    assert forall|x: int, y: int| #[trigger] area.spec_contains(x, y) implies region.pixel_writes()[area.spec_offset(
        x,
        y,
    )] == (PixelWrite {
        x: x as i32,
        y: y as i32,
        color: Color { raw: region.colors[area.spec_offset(x, y)] },
    }) by {
        area.lemma_offset_in_buffer(x, y);
    }
    assert forall|k: int| 0 <= k < region.pixel_writes().len() implies area.spec_contains(
        (#[trigger] region.pixel_writes()[k]).x as int,
        region.pixel_writes()[k].y as int,
    ) && area.spec_offset(
        region.pixel_writes()[k].x as int,
        region.pixel_writes()[k].y as int,
    ) == k by {
        area.lemma_pixel_at_offset(k);
    }
}

/// A flush as the renderer hands it over: an area and a packed buffer with
/// one native color for each of its pixels.
#[derive(Debug)]
pub struct FlushRegion {
    area: Area,
    colors: Vec<u16>,
}

impl View for FlushRegion {
    type V = RegionModel;

    closed spec fn view(&self) -> RegionModel {
        RegionModel { area: self.area, colors: self.colors@ }
    }
}

impl FlushRegion {
    #[verifier::type_invariant]
    spec fn inv(self) -> bool {
        self@.well_formed()
    }

    /// Pairs an area with its packed colors. The two go together exactly when
    /// the buffer holds one color for each pixel of the area.
    pub fn new(area: Area, colors: Vec<u16>) -> (region: Option<FlushRegion>)
        ensures
            region.is_some() == (colors@.len() == area.spec_pixel_count()),
            region matches Some(r) ==> r@ == (RegionModel { area, colors: colors@ })
                && r@.well_formed(),
    {
        if colors.len() as u64 == area.pixel_count() {
            Some(FlushRegion { area, colors })
        } else {
            None
        }
    }

    /// The area the flush covers.
    pub fn area(&self) -> (area: Area)
        ensures
            area == self@.area,
    {
        self.area
    }

    /// The packed native colors of the area, row by row.
    pub fn colors(&self) -> (colors: &Vec<u16>)
        ensures
            colors@ == self@.colors,
    {
        &self.colors
    }

    /// Decodes the region into the pixel writes for the drawing surface, in
    /// row-major order.
    pub fn pixel_writes(&self) -> (writes: Vec<PixelWrite>)
        ensures
            writes@ == self@.pixel_writes(),
            self@.well_formed(),
    {
        proof {
            use_type_invariant(self);
            self.area.lemma_pixel_count_bounds();
        }
        let width: u32 = self.area.width();
        let height: u32 = self.area.height();
        let len: usize = self.colors.len();
        let x1: i32 = self.area.x1 as i32;
        let y1: i32 = self.area.y1 as i32;
        let mut writes: Vec<PixelWrite> = Vec::new();
        let mut row: u32 = 0;
        while row < height
            invariant
                self@.well_formed(),
                len == self.colors@.len(),
                width == self.area.spec_width(),
                height == self.area.spec_height(),
                x1 == self.area.x1,
                y1 == self.area.y1,
                row <= height,
                writes@.len() == width * row,
                forall|k: int| 0 <= k < writes@.len() ==> writes@[k] == self@.pixel_at(k),
            decreases height - row,
        {
            let mut col: u32 = 0;
            while col < width
                invariant
                    self@.well_formed(),
                    len == self.colors@.len(),
                    width == self.area.spec_width(),
                    height == self.area.spec_height(),
                    x1 == self.area.x1,
                    y1 == self.area.y1,
                    row < height,
                    col <= width,
                    writes@.len() == width * row + col,
                    forall|k: int| 0 <= k < writes@.len() ==> writes@[k] == self@.pixel_at(k),
                decreases width - col,
            {
                proof {
                    self.area.lemma_offset_in_buffer(x1 + col, y1 + row);
                    assert(self.area.spec_offset(x1 + col, y1 + row) == width * row + col);
                    assert(0 <= width * row) by (nonlinear_arith)
                        requires
                            0 <= width,
                            0 <= row,
                    ;
                }
                let offset: usize = width as usize * row as usize + col as usize;
                let color = Color::from_raw(self.colors[offset]);
                writes.push(PixelWrite { x: x1 + col as i32, y: y1 + row as i32, color });
                col += 1;
            }
            row += 1;
            assert(width * (row - 1) + width == width * row) by (nonlinear_arith);
        }
        assert(writes@.len() == self.colors@.len()) by (nonlinear_arith)
            requires
                writes@.len() == width * row,
                row == height,
                self.colors@.len() == width * height,
        ;
        assert(writes@ =~= self@.pixel_writes());
        writes
    }
}

/// Encodes pixel writes as the packed native words of their colors, in order.
pub fn pack_colors(writes: &[PixelWrite]) -> (colors: Vec<u16>)
    ensures
        colors@ == packed_colors(writes@),
{
    let mut colors: Vec<u16> = Vec::new();
    let mut k: usize = 0;
    while k < writes.len()
        invariant
            k <= writes@.len(),
            colors@.len() == k,
            forall|i: int| 0 <= i < k ==> colors@[i] == writes@[i].color.raw,
        decreases writes@.len() - k,
    {
        colors.push(writes[k].color.raw());
        k += 1;
    }
    assert(colors@ =~= packed_colors(writes@));
    colors
}

} // verus!
