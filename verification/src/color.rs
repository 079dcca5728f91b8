//! Colours, as four bytes in the sRGB space, and their hexadecimal notation.

use vstd::prelude::*;
use bevy::color::{ColorToPacked, HexColorError, Srgba};
use crate::replace::Replaceable;

verus! {

/// A colour in the sRGB space, one byte per channel; an `alpha` of 255 is
/// opaque.
#[derive(Clone, Copy, Debug, PartialEq, Eq, Structural)]
pub struct Color {
    pub red: u8,
    pub green: u8,
    pub blue: u8,
    pub alpha: u8,
}

impl Color {
    /// Opaque white.
    pub open spec fn white() -> Color {
        Color { red: 255, green: 255, blue: 255, alpha: 255 }
    }

    /// Fully transparent.
    pub open spec fn none() -> Color {
        Color { red: 0, green: 0, blue: 0, alpha: 0 }
    }

    /// The opaque colour with the three given channels.
    pub open spec fn opaque(red: u8, green: u8, blue: u8) -> Color {
        Color { red, green, blue, alpha: 255 }
    }

    /// Opaque red.
    pub open spec fn red() -> Color {
        Color { red: 255, green: 0, blue: 0, alpha: 255 }
    }

    /// What a parse has come to: its colour, or nothing where the text was
    /// refused.
    pub fn from_parsed(parsed: Result<Color, HexColorError>) -> (r: Option<Color>)
        ensures
            r == (match parsed {
                Ok(color) => Some(color),
                Err(_) => None,
            }),
    {
        match parsed {
            Ok(color) => Some(color),
            Err(_) => None,
        }
    }

    /// Reads a colour from any text. A text in hexadecimal notation, that is
    /// `1e1e22`, `1e1e22ff` or the short forms `fff` and `ffff`, each with or
    /// without a leading `#`, gives its colour. Any other text gives nothing.
    pub fn parse_hex(text: &str) -> (r: Option<Color>)
        ensures
            r == (if is_hex_color(text@) {
                Some(hex_color(text@))
            } else {
                None
            }),
    {
        Color::from_parsed(srgba_hex(text))
    }

    /// Reads a colour that is known to be in hexadecimal notation, as the
    /// literals of the style sheet are.
    pub(crate) fn literal(text: &str) -> (r: Color)
        requires
            is_hex_color(text@),
        ensures
            r == hex_color(text@),
    {
        match Color::parse_hex(text) {
            Some(color) => color,
            None => Color { red: 255, green: 255, blue: 255, alpha: 255 },
        }
    }
}

impl Default for Color {
    fn default() -> (r: Color)
        ensures
            r == Color::white(),
    {
        Color { red: 255, green: 255, blue: 255, alpha: 255 }
    }
}

impl Replaceable for Color {
    open spec fn unset() -> Color {
        Color::white()
    }

    fn is_unset(&self) -> (b: bool) {
        self.red == 255 && self.green == 255 && self.blue == 255 && self.alpha == 255
    }
}

/// The value of one hexadecimal digit, in either case.
pub open spec fn hex_digit(c: char) -> Option<u8> {
    if '0' <= c <= '9' {
        Some((c as u32 - '0' as u32) as u8)
    } else if 'a' <= c <= 'f' {
        Some((c as u32 - 'a' as u32 + 10) as u8)
    } else if 'A' <= c <= 'F' {
        Some((c as u32 - 'A' as u32 + 10) as u8)
    } else {
        None
    }
}

/// The byte that two hexadecimal digits write, the high one first.
pub open spec fn hex_byte(high: char, low: char) -> u8 {
    (hex_digit(high).unwrap() * 16 + hex_digit(low).unwrap()) as u8
}

/// The digits that are read in `text`. One leading `#` is dropped. The
/// digits are then read as one number, and a number may carry a `+` before
/// its digits: such a `+` counts as the digit zero.
pub open spec fn hex_digits(text: Seq<char>) -> Seq<char> {
    let bare = if text.len() > 0 && text[0] == '#' {
        text.subrange(1, text.len() as int)
    } else {
        text
    };
    if bare.len() > 0 && bare[0] == '+' {
        bare.update(0, '0')
    } else {
        bare
    }
}

/// Whether `text` is a colour in hexadecimal notation: three, four, six or
/// eight hexadecimal digits, with or without a leading `#`.
pub open spec fn is_hex_color(text: Seq<char>) -> bool {
    let digits = hex_digits(text);
    &&& digits.len() == 3 || digits.len() == 4 || digits.len() == 6 || digits.len() == 8
    &&& forall|i: int| 0 <= i < digits.len() ==> hex_digit(#[trigger] digits[i]) is Some
}

/// The colour that a text in hexadecimal notation writes. Six digits are
/// red, green and blue, two digits each; eight add the alpha; of three or
/// four digits each stands for itself twice. Without alpha the colour is
/// opaque.
pub open spec fn hex_color(text: Seq<char>) -> Color {
    let d = hex_digits(text);
    if d.len() == 3 {
        Color::opaque(hex_byte(d[0], d[0]), hex_byte(d[1], d[1]), hex_byte(d[2], d[2]))
    } else if d.len() == 4 {
        Color {
            red: hex_byte(d[0], d[0]),
            green: hex_byte(d[1], d[1]),
            blue: hex_byte(d[2], d[2]),
            alpha: hex_byte(d[3], d[3]),
        }
    } else if d.len() == 6 {
        Color::opaque(hex_byte(d[0], d[1]), hex_byte(d[2], d[3]), hex_byte(d[4], d[5]))
    } else {
        Color {
            red: hex_byte(d[0], d[1]),
            green: hex_byte(d[2], d[3]),
            blue: hex_byte(d[4], d[5]),
            alpha: hex_byte(d[6], d[7]),
        }
    }
}

#[verifier::external_type_specification]
#[verifier::external_body]
pub struct ExHexColorError(HexColorError);

/// Parses with `Srgba::hex` of bevy's colour crate and reads the channels
/// back as bytes with `to_u8_array`. The contract claims:
/// - three, four, six or eight hexadecimal digits, with or without one
///   leading `#`, give `Ok`, and the channels are the bytes that the digits
///   write, as [`hex_color`] says;
/// - the parser reads the digits with `from_str_radix` of the standard
///   library, which takes a `+` before the digits, so that a `+` in the
///   place of the first digit reads as a zero there;
/// - every other text gives `Err`: one of another length, or with any other
///   character in it;
/// - turning a byte into the parser's fraction of 255 and back gives the
///   byte again.
#[verifier::external_body]
fn srgba_hex(text: &str) -> (r: Result<Color, HexColorError>)
    ensures
        is_hex_color(text@) ==> r is Ok && r->Ok_0 == hex_color(text@),
        !is_hex_color(text@) ==> r is Err,
{
    match Srgba::hex(text) {
        Ok(parsed) => {
            let bytes = parsed.to_u8_array();
            Ok(Color { red: bytes[0], green: bytes[1], blue: bytes[2], alpha: bytes[3] })
        },
        Err(error) => Err(error),
    }
}

} // verus!
