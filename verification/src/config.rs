//! What one run renders: the address, the font, the size, the colours and the
//! file to write.

use vstd::prelude::*;
use vstd::string::*;
use crate::color::{parse_hex_color_string, parsed, Color, ColorFormatError};
use crate::text::lowercase_of;

verus! {

/// The font size used where none is given, in pixels.
pub const DEFAULT_FONT_SIZE: u32 = 16;

/// The alpha of a colour that is given without one: opaque.
pub const DEFAULT_ALPHA: u8 = 255;

/// The settings of one run. They are fixed when the run starts and only read
/// after that.
#[derive(Debug)]
pub struct RenderConfig {
    /// The address to render.
    pub email: String,
    /// The name of the font, as the user gave it.
    pub font: String,
    /// The path of the image file to write.
    pub output_file: String,
    /// The font size in pixels, which is also the height of the image.
    pub font_size: u32,
    /// The colour of the text.
    pub font_color: Color,
    /// The colour of the canvas where no glyph covers it.
    pub background_color: Color,
}

/// The name of the font used where none is given.
pub open spec fn default_font() -> Seq<char> {
    "inconsolata"@
}

/// The path of the image file where none is given.
pub open spec fn default_output_file() -> Seq<char> {
    "email.png"@
}

/// The colour of the text where none is given: opaque black.
pub open spec fn default_font_color() -> Color {
    Color { red: 0, green: 0, blue: 0, alpha: 255 }
}

/// The colour of the background where none is given: transparent black.
pub open spec fn default_background_color() -> Color {
    Color { red: 0, green: 0, blue: 0, alpha: 0 }
}

/// The colour that a setting stands for: the one that its text parses to,
/// opaque where the text names no alpha, or `fallback` where no text is given.
pub open spec fn chosen_color(given: Option<Seq<char>>, fallback: Color) -> Result<
    Color,
    ColorFormatError,
> {
    match given {
        Some(text) => parsed(lowercase_of(text), DEFAULT_ALPHA),
        None => Ok(fallback),
    }
}

/// The text of a setting, or `fallback` where none is given.
pub open spec fn chosen_text(given: Option<String>, fallback: Seq<char>) -> Seq<char> {
    match given {
        Some(text) => text@,
        None => fallback,
    }
}

/// The text of an optional setting, as a sequence of characters.
pub open spec fn text_of(given: Option<&str>) -> Option<Seq<char>> {
    match given {
        Some(text) => Some(text@),
        None => None,
    }
}

/// Resolves a colour setting: parses the text where one is given, and takes
/// `fallback` where none is.
pub fn resolve_color(given: Option<&str>, fallback: Color) -> (result: Result<
    Color,
    ColorFormatError,
>)
    ensures
        result == chosen_color(text_of(given), fallback),
{
    match given {
        Some(text) => parse_hex_color_string(text, DEFAULT_ALPHA),
        None => Ok(fallback),
    }
}

fn text_or(given: Option<String>, fallback: &str) -> (text: String)
    ensures
        text@ == chosen_text(given, fallback@),
{
    match given {
        Some(text) => text,
        None => String::from_str(fallback),
    }
}

impl RenderConfig {
    /// Whether this configuration is what the given settings stand for, each
    /// absent one replaced by its default.
    pub open spec fn reflects(
        &self,
        email: String,
        font: Option<String>,
        font_size: Option<u32>,
        output_file: Option<String>,
        text_color: Option<Seq<char>>,
        background_color: Option<Seq<char>>,
    ) -> bool {
        &&& self.email@ == email@
        &&& self.font@ == chosen_text(font, default_font())
        &&& self.output_file@ == chosen_text(output_file, default_output_file())
        &&& self.font_size == match font_size {
            Some(size) => size,
            None => DEFAULT_FONT_SIZE,
        }
        &&& Ok::<Color, ColorFormatError>(self.font_color) == chosen_color(
            text_color,
            default_font_color(),
        )
        &&& Ok::<Color, ColorFormatError>(self.background_color) == chosen_color(
            background_color,
            default_background_color(),
        )
    }

    /// Builds the configuration of a run from the settings that were given.
    ///
    /// Both colours are parsed here, before anything else is done with the
    /// configuration. The call fails exactly where a colour that was given
    /// does not parse.
    pub fn from_options(
        email: String,
        font: Option<String>,
        font_size: Option<u32>,
        output_file: Option<String>,
        text_color: Option<&str>,
        background_color: Option<&str>,
    ) -> (result: Result<RenderConfig, ColorFormatError>)
        ensures
            match result {
                Ok(config) => config.reflects(
                    email,
                    font,
                    font_size,
                    output_file,
                    text_of(text_color),
                    text_of(background_color),
                ),
                Err(_) => chosen_color(text_of(text_color), default_font_color()) is Err
                    || chosen_color(text_of(background_color), default_background_color()) is Err,
            },
    {
        let font_color = match resolve_color(
            text_color,
            Color { red: 0, green: 0, blue: 0, alpha: 255 },
        ) {
            Ok(color) => color,
            Err(error) => {
                return Err(error);
            },
        };
        let background = match resolve_color(
            background_color,
            Color { red: 0, green: 0, blue: 0, alpha: 0 },
        ) {
            Ok(color) => color,
            Err(error) => {
                return Err(error);
            },
        };
        let size = match font_size {
            Some(size) => size,
            None => DEFAULT_FONT_SIZE,
        };
        Ok(
            RenderConfig {
                email,
                font: text_or(font, "inconsolata"),
                output_file: text_or(output_file, "email.png"),
                font_size: size,
                font_color,
                background_color: background,
            },
        )
    }
}

} // verus!
