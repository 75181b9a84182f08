//! The geometry of the rendered line: from the boxes of the laid-out glyphs
//! to the canvas that the text is drawn on. Laying the glyphs out, drawing
//! them and writing the image file are the caller's part.

use vstd::prelude::*;
use vstd::string::*;
use crate::canvas::{fits_in_memory, Canvas};
use crate::config::RenderConfig;

verus! {

/// A font of the `rusttype` crate, ready for layout. Nothing of its inside is
/// known here.
#[verifier::external_type_specification]
#[verifier::external_body]
pub struct ExFont<'a>(rusttype::Font<'a>);

/// Why the text could not be rendered.
#[derive(Debug)]
pub enum RenderError {
    /// The bytes do not describe a font face that can be loaded.
    FontParse,
    /// The image could not be written to its path.
    Io { detail: String },
}

/// The smallest rectangle of pixels that encloses the visible strokes of one
/// glyph. `max_x` and `max_y` lie just outside the rectangle.
#[derive(Clone, Copy, Debug, PartialEq, Eq, Structural)]
pub struct PixelBox {
    pub min_x: i32,
    pub min_y: i32,
    pub max_x: i32,
    pub max_y: i32,
}

/// Whether `bytes` describe a font face that `rusttype` can load.
pub uninterp spec fn is_loadable_font(bytes: Seq<u8>) -> bool;

/// A signed coordinate as an unsigned extent: itself where it is not
/// negative, and wrapped round by 2^32 where it is.
pub open spec fn as_extent(coordinate: i32) -> u32 {
    if coordinate >= 0 {
        coordinate as u32
    } else {
        (coordinate + 0x1_0000_0000) as u32
    }
}

/// The width of the canvas for a line of glyphs: the right edge of the box of
/// the last glyph, and 0 where there is no glyph or the last one has no box.
pub open spec fn width_of(layout: Seq<Option<PixelBox>>) -> u32 {
    if layout.len() == 0 {
        0
    } else {
        match layout.last() {
            Some(glyph_box) => as_extent(glyph_box.max_x),
            None => 0,
        }
    }
}

/// The size of the canvas, width then height: the width that the layout
/// gives, and the font size as the height.
pub open spec fn size_of(font_size: u32, layout: Seq<Option<PixelBox>>) -> (u32, u32) {
    (width_of(layout), font_size)
}

impl RenderError {
    /// The text that describes this error to the user.
    pub open spec fn message_of(self) -> Seq<char> {
        match self {
            RenderError::FontParse => "Error loading font"@,
            RenderError::Io { detail } => detail@,
        }
    }

    /// The text that describes this error to the user.
    pub fn message(&self) -> (text: String)
        ensures
            text@ == self.message_of(),
    {
        match self {
            RenderError::FontParse => String::from_str("Error loading font"),
            RenderError::Io { detail } => detail.clone(),
        }
    }

    /// The error for an image file that could not be written.
    pub fn io(detail: String) -> (error: RenderError)
        ensures
            error == (RenderError::Io { detail }),
    {
        RenderError::Io { detail }
    }
}

/// Calls `rusttype::Font::try_from_vec`.
///
/// Trusted: whether a font comes back depends on the bytes alone;
/// [`is_loadable_font`] names it.
#[verifier::external_body]
fn try_font_from_vec(bytes: Vec<u8>) -> (font: Option<rusttype::Font<'static>>)
    ensures
        font is Some <==> is_loadable_font(bytes@),
{
    rusttype::Font::try_from_vec(bytes)
}

/// Loads the font that the text is laid out and drawn with.
///
/// Fails with [`RenderError::FontParse`] exactly where the bytes do not
/// describe a font face that can be loaded.
pub fn load_font(bytes: Vec<u8>) -> (result: Result<rusttype::Font<'static>, RenderError>)
    ensures
        result is Ok <==> is_loadable_font(bytes@),
        result matches Err(error) ==> error == RenderError::FontParse,
{
    match try_font_from_vec(bytes) {
        Some(font) => Ok(font),
        None => Err(RenderError::FontParse),
    }
}

/// Converts a coordinate to an extent as a cast to an unsigned number does.
fn to_extent(coordinate: i32) -> (extent: u32)
    ensures
        extent == as_extent(coordinate),
{
    if coordinate >= 0 {
        coordinate as u32
    } else {
        (coordinate as i64 + 0x1_0000_0000) as u32
    }
}

/// The width of the canvas for a laid-out line, one entry for each glyph in
/// the order of the text, with the glyph's box where it has one.
pub fn canvas_width(layout: &Vec<Option<PixelBox>>) -> (width: u32)
    ensures
        width == width_of(layout@),
{
    let n = layout.len();
    if n == 0 {
        return 0;
    }
    match layout[n - 1] {
        Some(glyph_box) => to_extent(glyph_box.max_x),
        None => 0,
    }
}

/// The size of the canvas for a laid-out line at a font size, width then
/// height.
pub fn canvas_size(font_size: u32, layout: &Vec<Option<PixelBox>>) -> (size: (u32, u32))
    ensures
        size == size_of(font_size, layout@),
{
    (canvas_width(layout), font_size)
}

/// The canvas for a laid-out line: as wide as the layout asks, as high as the
/// configured font size, and of the configured background colour all over,
/// before any glyph is drawn on it.
pub fn blank_canvas(config: &RenderConfig, layout: &Vec<Option<PixelBox>>) -> (canvas: Canvas)
    requires
        fits_in_memory(width_of(layout@), config.font_size),
    ensures
        canvas.is_filled_with(width_of(layout@), config.font_size, config.background_color),
{
    let (width, height) = canvas_size(config.font_size, layout);
    Canvas::filled(width, height, config.background_color)
}

/// The canvas for a laid-out line, or `None` where a canvas of that size
/// cannot be held in memory.
pub fn try_blank_canvas(config: &RenderConfig, layout: &Vec<Option<PixelBox>>) -> (canvas: Option<
    Canvas,
>)
    ensures
        canvas is Some <==> fits_in_memory(width_of(layout@), config.font_size),
        canvas matches Some(c) ==> c.is_filled_with(
            width_of(layout@),
            config.font_size,
            config.background_color,
        ),
{
    let (width, height) = canvas_size(config.font_size, layout);
    if Canvas::fits(width, height) {
        Some(Canvas::filled(width, height, config.background_color))
    } else {
        None
    }
}

/// A line without glyphs gets a canvas without columns and as high as the
/// font size, and such a canvas can always be built.
pub proof fn lemma_empty_line_has_no_width(font_size: u32)
    ensures
        size_of(font_size, Seq::<Option<PixelBox>>::empty()) == (0u32, font_size),
        fits_in_memory(width_of(Seq::<Option<PixelBox>>::empty()), font_size),
{
}

/// The height of the canvas is the font size, whatever the layout; the width
/// depends on the last glyph alone.
pub proof fn lemma_size_follows_last_glyph(
    font_size: u32,
    layout: Seq<Option<PixelBox>>,
    other: Seq<Option<PixelBox>>,
)
    requires
        layout.len() > 0,
        other.len() > 0,
        layout.last() == other.last(),
    ensures
        size_of(font_size, layout).1 == font_size,
        size_of(font_size, layout) == size_of(font_size, other),
{
}

/// A last glyph whose box ends right of the origin gives that edge as the
/// width.
pub proof fn lemma_width_is_right_edge(layout: Seq<Option<PixelBox>>, glyph_box: PixelBox)
    requires
        layout.len() > 0,
        layout.last() == Some(glyph_box),
        glyph_box.max_x >= 0,
    ensures
        width_of(layout) == glyph_box.max_x,
{
}

} // verus!
