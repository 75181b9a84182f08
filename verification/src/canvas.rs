//! The canvas: a grid of colours, row by row.

use vstd::prelude::*;
use crate::color::Color;

verus! {

/// A grid of `width` by `height` colours, stored row by row from the top.
#[derive(Debug)]
pub struct Canvas {
    width: u32,
    height: u32,
    pixels: Vec<Color>,
}

/// Whether a canvas of this size can be held in memory as four bytes for
/// each pixel.
pub open spec fn fits_in_memory(width: u32, height: u32) -> bool {
    4 * (width * height) <= usize::MAX
}

/// The byte of `color` that stands at place `channel` of its four:
/// red, green, blue, alpha.
pub open spec fn channel_of(color: Color, channel: int) -> u8 {
    if channel == 0 {
        color.red
    } else if channel == 1 {
        color.green
    } else if channel == 2 {
        color.blue
    } else {
        color.alpha
    }
}

/// The pixels as bytes: four for each pixel, in the order red, green, blue,
/// alpha.
pub open spec fn rgba_bytes(pixels: Seq<Color>) -> Seq<u8> {
    Seq::new(4 * pixels.len(), |i: int| channel_of(pixels[i / 4], i % 4))
}

impl Canvas {
    /// The number of columns.
    pub closed spec fn columns(&self) -> nat {
        self.width as nat
    }

    /// The number of rows.
    pub closed spec fn rows(&self) -> nat {
        self.height as nat
    }

    /// The colours, row by row.
    pub closed spec fn pixels(&self) -> Seq<Color> {
        self.pixels@
    }

    /// A canvas holds exactly one colour for each place of its grid, and is
    /// of a size that fits in memory.
    #[verifier::type_invariant]
    spec fn well_formed(&self) -> bool {
        &&& self.pixels@.len() == self.width * self.height
        &&& fits_in_memory(self.width, self.height)
    }

    /// Whether this canvas is `width` by `height` and of `color` all over.
    pub open spec fn is_filled_with(&self, width: u32, height: u32, color: Color) -> bool {
        &&& self.columns() == width
        &&& self.rows() == height
        &&& self.pixels() == Seq::new((width * height) as nat, |i: int| color)
    }

    /// Whether a canvas of this size can be built.
    pub fn fits(width: u32, height: u32) -> (answer: bool)
        ensures
            answer == fits_in_memory(width, height),
    {
        let area: u64 = area_of(width, height);
        let limit: u128 = usize::MAX as u128;
        (area as u128) * 4 <= limit
    }

    /// A canvas of `width` by `height`, of `color` all over.
    pub fn filled(width: u32, height: u32, color: Color) -> (canvas: Canvas)
        requires
            fits_in_memory(width, height),
        ensures
            canvas.is_filled_with(width, height, color),
    {
        let area: u64 = area_of(width, height);
        let total: usize = area as usize;
        let mut pixels: Vec<Color> = Vec::new();
        let mut i: usize = 0;
        while i < total
            invariant
                i <= total,
                pixels@ == Seq::new(i as nat, |k: int| color),
            decreases total - i,
        {
            pixels.push(color);
            i += 1;
            assert(pixels@ =~= Seq::new(i as nat, |k: int| color));
        }
        Canvas { width, height, pixels }
    }

    /// The number of columns.
    pub fn width(&self) -> (width: u32)
        ensures
            width == self.columns(),
    {
        self.width
    }

    /// The number of rows.
    pub fn height(&self) -> (height: u32)
        ensures
            height == self.rows(),
    {
        self.height
    }

    /// The colour in column `x` of row `y`.
    pub fn pixel(&self, x: u32, y: u32) -> (color: Color)
        requires
            x < self.columns(),
            y < self.rows(),
        ensures
            color == self.pixels()[y * self.columns() + x],
    {
        proof {
            use_type_invariant(self);
            lemma_place_in_grid(x as int, y as int, self.width as int, self.height as int);
        }
        let row: u64 = area_of(y, self.width);
        let at: u64 = row + x as u64;
        self.pixels[at as usize]
    }

    /// The canvas as bytes, four for each pixel, row by row: the layout of an
    /// image of 8-bit red, green, blue and alpha.
    pub fn to_rgba_bytes(&self) -> (bytes: Vec<u8>)
        ensures
            bytes@ == rgba_bytes(self.pixels()),
            bytes@.len() == 4 * (self.columns() * self.rows()),
    {
        proof {
            use_type_invariant(self);
        }
        let mut bytes: Vec<u8> = Vec::new();
        let mut i: usize = 0;
        while i < self.pixels.len()
            invariant
                i <= self.pixels@.len(),
                4 * self.pixels@.len() <= usize::MAX,
                bytes@ == rgba_bytes(self.pixels@.take(i as int)),
            decreases self.pixels@.len() - i,
        {
            let color = self.pixels[i];
            let ghost before = bytes@;
            bytes.push(color.red);
            bytes.push(color.green);
            bytes.push(color.blue);
            bytes.push(color.alpha);
            i += 1;
            assert(bytes@ =~= rgba_bytes(self.pixels@.take(i as int))) by {
                let old_pixels = self.pixels@.take(i as int - 1);
                let new_pixels = self.pixels@.take(i as int);
                assert(before == rgba_bytes(old_pixels));
                assert(bytes@.len() == 4 * i);
                assert forall|k: int| 0 <= k < 4 * i implies bytes@[k] == rgba_bytes(new_pixels)[k] by {
                    if k < 4 * (i - 1) {
                        assert(bytes@[k] == before[k]);
                        assert(new_pixels[k / 4] == old_pixels[k / 4]);
                    } else {
                        assert(k / 4 == i - 1);
                        assert(new_pixels[k / 4] == color);
                    }
                }
            }
        }
        assert(self.pixels@.take(i as int) =~= self.pixels@);
        bytes
    }
}

/// The product of two 32-bit numbers.
fn area_of(width: u32, height: u32) -> (area: u64)
    ensures
        area == width * height,
{
    assert(width * height <= 0xffff_ffff * 0xffff_ffff) by (nonlinear_arith)
        requires
            width <= 0xffff_ffff,
            height <= 0xffff_ffff,
    ;
    (width as u64) * (height as u64)
}

/// The place of column `x` in row `y` lies within a grid of `width` by
/// `height`.
proof fn lemma_place_in_grid(x: int, y: int, width: int, height: int)
    requires
        0 <= x < width,
        0 <= y < height,
    ensures
        0 <= y * width + x < width * height,
        0 <= y * width,
{
    assert(y * width + x < width * height) by (nonlinear_arith)
        requires
            0 <= x < width,
            0 <= y < height,
    ;
    assert(0 <= y * width) by (nonlinear_arith)
        requires
            0 <= y,
            0 <= width,
    ;
}

/// Two canvases of one size and one colour all over hold the same pixels and
/// give the same bytes.
pub proof fn lemma_filled_canvas_is_determined(
    a: Canvas,
    b: Canvas,
    width: u32,
    height: u32,
    color: Color,
)
    requires
        a.is_filled_with(width, height, color),
        b.is_filled_with(width, height, color),
    ensures
        a.columns() == b.columns(),
        a.rows() == b.rows(),
        a.pixels() == b.pixels(),
        rgba_bytes(a.pixels()) == rgba_bytes(b.pixels()),
{
}

/// A canvas without columns holds no pixel, and fits in memory whatever its
/// height.
pub proof fn lemma_canvas_without_columns(canvas: Canvas, height: u32, color: Color)
    ensures
        fits_in_memory(0, height),
        canvas.is_filled_with(0, height, color) ==> canvas.pixels().len() == 0 && rgba_bytes(
            canvas.pixels(),
        ).len() == 0,
{
}

} // verus!
