//! What the library says to a console and hears from it: colours, keys,
//! and the characters and texts to draw. The console itself is not here.

use vstd::prelude::*;
use crate::util::ScreenPos;

verus! {

/// A colour, by its red, green and blue parts.
#[derive(Clone, Copy, PartialEq, Eq, Debug, Structural)]
pub struct Color {
    pub r: u8,
    pub g: u8,
    pub b: u8,
}

impl Color {
    /// White: all of red, green and blue.
    pub open spec fn spec_white() -> Color {
        Color { r: 255, g: 255, b: 255 }
    }

    /// Black: none of red, green and blue.
    pub open spec fn spec_black() -> Color {
        Color { r: 0, g: 0, b: 0 }
    }

    /// White.
    #[verifier::when_used_as_spec(spec_white)]
    pub fn white() -> (c: Color)
        ensures
            c == Color::spec_white(),
    {
        Color { r: 255, g: 255, b: 255 }
    }

    /// Black.
    #[verifier::when_used_as_spec(spec_black)]
    pub fn black() -> (c: Color)
        ensures
            c == Color::spec_black(),
    {
        Color { r: 0, g: 0, b: 0 }
    }
}

/// To which side of its position a text is set.
#[derive(Clone, Copy, PartialEq, Eq, Debug, Structural)]
pub enum TextAlignment {
    Left,
    Right,
    Center,
}

/// The keys that mean something to the game. Every other key is `Other`.
#[derive(Clone, Copy, PartialEq, Eq, Debug, Structural)]
pub enum KeyCode {
    Up,
    Down,
    Left,
    Right,
    NumPad1,
    NumPad2,
    NumPad3,
    NumPad4,
    NumPad6,
    NumPad7,
    NumPad8,
    NumPad9,
    Enter,
    Other,
}

/// A character to draw on a cell of the screen, in two colours.
#[derive(Clone, Copy, PartialEq, Eq, Debug, Structural)]
pub struct Glyph {
    pub position: ScreenPos,
    pub symbol: char,
    pub fg: Color,
    pub bg: Color,
}

/// A character to draw over a cell of the screen, whose background stays.
#[derive(Clone, Copy, PartialEq, Eq, Debug, Structural)]
pub struct Marker {
    pub position: ScreenPos,
    pub symbol: char,
    pub fg: Color,
}

/// A text to print at a position of the screen.
#[derive(Clone, Copy, Debug)]
pub struct Label<'a> {
    pub position: ScreenPos,
    pub alignment: TextAlignment,
    pub text: &'a str,
}

} // verus!
