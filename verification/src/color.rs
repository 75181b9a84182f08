//! Colours and their textual form `#rrggbb` or `#rrggbbaa`.

use vstd::prelude::*;
use vstd::string::*;
use crate::text::{lowercase_of, to_lowercase};

verus! {

/// A colour of four 8-bit channels.
#[derive(Clone, Copy, Debug, PartialEq, Eq, Structural)]
pub struct Color {
    pub red: u8,
    pub green: u8,
    pub blue: u8,
    pub alpha: u8,
}

/// The text given for a colour does not have the shape of one.
#[derive(Clone, Copy, Debug, PartialEq, Eq, Structural)]
pub struct ColorFormatError;

/// Whether `c` may stand in a channel group: a lower-case ASCII letter or a
/// decimal digit.
pub open spec fn is_group_char(c: char) -> bool {
    (0x61 <= c as u32 <= 0x7a) || (0x30 <= c as u32 <= 0x39)
}

/// The value of `c` as a hexadecimal digit, where it is one.
pub open spec fn hex_digit(c: char) -> Option<int> {
    if 0x30 <= c as u32 <= 0x39 {
        Some(c as u32 - 0x30)
    } else if 0x61 <= c as u32 <= 0x66 {
        Some(c as u32 - 0x61 + 10)
    } else {
        None
    }
}

/// The byte that a group of two characters stands for: its value as a
/// two-digit hexadecimal number, and 0 where it is not such a number.
pub open spec fn group_value(high: char, low: char) -> int {
    match (hex_digit(high), hex_digit(low)) {
        (Some(h), Some(l)) => 16 * h + l,
        _ => 0,
    }
}

/// Whether `text` has the shape of a colour: `#`, then three or four groups
/// of two group characters each, and nothing else.
pub open spec fn has_color_shape(text: Seq<char>) -> bool {
    &&& (text.len() == 7 || text.len() == 9)
    &&& text[0] == '#'
    &&& forall|i: int| 1 <= i < text.len() ==> is_group_char(#[trigger] text[i])
}

/// The colour that a text of the right shape stands for. The alpha channel is
/// `default_fill` where the text has no fourth group.
pub open spec fn color_of(text: Seq<char>, default_fill: u8) -> Color {
    Color {
        red: group_value(text[1], text[2]) as u8,
        green: group_value(text[3], text[4]) as u8,
        blue: group_value(text[5], text[6]) as u8,
        alpha: if text.len() == 9 {
            group_value(text[7], text[8]) as u8
        } else {
            default_fill
        },
    }
}

/// What parsing a lower-cased text gives.
pub open spec fn parsed(text: Seq<char>, default_fill: u8) -> Result<Color, ColorFormatError> {
    if has_color_shape(text) {
        Ok(color_of(text, default_fill))
    } else {
        Err(ColorFormatError)
    }
}

impl Color {
    /// Builds a colour from its four channels.
    pub fn new(red: u8, green: u8, blue: u8, alpha: u8) -> (c: Color)
        ensures
            c == (Color { red, green, blue, alpha }),
    {
        Color { red, green, blue, alpha }
    }
}

impl ColorFormatError {
    /// The text shown to the user for this error.
    pub fn message(&self) -> (text: String)
        ensures
            text@ == "Incorrect color format"@,
    {
        String::from_str("Incorrect color format")
    }
}

fn group_char(c: char) -> (b: bool)
    ensures
        b == is_group_char(c),
{
    let v: u32 = c as u32;
    (0x61 <= v && v <= 0x7a) || (0x30 <= v && v <= 0x39)
}

fn digit_value(c: char) -> (d: Option<u8>)
    ensures
        match d {
            Some(v) => hex_digit(c) == Some(v as int),
            None => hex_digit(c) is None,
        },
{
    let v: u32 = c as u32;
    if 0x30 <= v && v <= 0x39 {
        Some((v - 0x30) as u8)
    } else if 0x61 <= v && v <= 0x66 {
        Some((v - 0x61 + 10) as u8)
    } else {
        None
    }
}

/// Decodes one group of two characters: its hexadecimal value, or 0 where
/// either character is no hexadecimal digit.
pub fn decode_group(high: char, low: char) -> (byte: u8)
    ensures
        byte == group_value(high, low),
{
    match (digit_value(high), digit_value(low)) {
        (Some(h), Some(l)) => 16 * h + l,
        _ => 0,
    }
}

/// Parses a colour from a text that is already in lower case.
///
/// Succeeds exactly on the texts of the right shape, and then returns the
/// colour that [`color_of`] gives.
pub fn parse_lowered(lowered: &str, default_fill: u8) -> (result: Result<Color, ColorFormatError>)
    ensures
        result == parsed(lowered@, default_fill),
{
    let n: usize = lowered.unicode_len();
    if n != 7 && n != 9 {
        return Err(ColorFormatError);
    }
    if lowered.get_char(0) != '#' {
        return Err(ColorFormatError);
    }
    let mut i: usize = 1;
    while i < n
        invariant
            1 <= i <= n,
            n == lowered@.len(),
            forall|j: int| 1 <= j < i ==> is_group_char(#[trigger] lowered@[j]),
        decreases n - i,
    {
        if !group_char(lowered.get_char(i)) {
            return Err(ColorFormatError);
        }
        i += 1;
    }
    let red = decode_group(lowered.get_char(1), lowered.get_char(2));
    let green = decode_group(lowered.get_char(3), lowered.get_char(4));
    let blue = decode_group(lowered.get_char(5), lowered.get_char(6));
    let alpha = if n == 9 {
        decode_group(lowered.get_char(7), lowered.get_char(8))
    } else {
        default_fill
    };
    Ok(Color { red, green, blue, alpha })
}

/// Parses a colour from its textual form, in either case.
///
/// The text is lower-cased first; the result is that of [`parse_lowered`] on
/// the lower-cased text.
pub fn parse_hex_color_string(hex: &str, default_fill: u8) -> (result: Result<
    Color,
    ColorFormatError,
>)
    ensures
        result == parsed(lowercase_of(hex@), default_fill),
{
    let lowered = to_lowercase(hex);
    parse_lowered(lowered.as_str(), default_fill)
}

/// Whether `text` is `#` followed by six or eight hexadecimal digits.
pub open spec fn is_hex_text(text: Seq<char>) -> bool {
    &&& (text.len() == 7 || text.len() == 9)
    &&& text[0] == '#'
    &&& forall|i: int| 1 <= i < text.len() ==> hex_digit(#[trigger] text[i]) is Some
}

/// The number that the two hexadecimal digits at `at` and `at + 1` spell.
pub open spec fn hex_pair(text: Seq<char>, at: int) -> int {
    16 * hex_digit(text[at])->0 + hex_digit(text[at + 1])->0
}

/// Every text of `#` and six or eight hexadecimal digits parses, and each
/// channel is the byte that its group spells; without a fourth group the
/// alpha channel is `default_fill`.
pub proof fn lemma_hex_text_parses_to_its_bytes(text: Seq<char>, default_fill: u8)
    requires
        is_hex_text(text),
    ensures
        parsed(text, default_fill) matches Ok(color) && color.red == hex_pair(text, 1)
            && color.green == hex_pair(text, 3) && color.blue == hex_pair(text, 5) && color.alpha
            == (if text.len() == 9 {
            hex_pair(text, 7)
        } else {
            default_fill as int
        }),
{
    assert forall|i: int| 1 <= i < text.len() implies is_group_char(#[trigger] text[i]) by {
        assert(hex_digit(text[i]) is Some);
    }
    assert(hex_digit(text[1]) is Some && hex_digit(text[2]) is Some);
    assert(hex_digit(text[3]) is Some && hex_digit(text[4]) is Some);
    assert(hex_digit(text[5]) is Some && hex_digit(text[6]) is Some);
    if text.len() == 9 {
        assert(hex_digit(text[7]) is Some && hex_digit(text[8]) is Some);
    }
}

/// A group that is no hexadecimal number stands for 0, whatever else it holds.
pub proof fn lemma_bad_group_is_zero(high: char, low: char)
    requires
        hex_digit(high) is None || hex_digit(low) is None,
    ensures
        group_value(high, low) == 0,
{
}

/// Whether a text parses does not depend on the fill; with a fourth group
/// present the colour does not either.
pub proof fn lemma_fill_reaches_absent_alpha_only(text: Seq<char>, fill_a: u8, fill_b: u8)
    ensures
        parsed(text, fill_a) is Ok <==> parsed(text, fill_b) is Ok,
        text.len() == 9 ==> parsed(text, fill_a) == parsed(text, fill_b),
        parsed(text, fill_a) matches Ok(a) ==> parsed(text, fill_b) matches Ok(b) && a.red == b.red
            && a.green == b.green && a.blue == b.blue,
{
}

} // verus!
