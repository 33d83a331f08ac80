//! Colors of the text modes.
use vstd::prelude::*;

verus! {

/// The 16 colors of the text modes and of the planar graphics mode.
#[derive(Clone, Copy, Debug, PartialEq, Eq, Structural)]
pub enum Color16Bit {
    Black,
    Blue,
    Green,
    Cyan,
    Red,
    Magenta,
    Brown,
    LightGrey,
    DarkGrey,
    LightBlue,
    LightGreen,
    LightCyan,
    LightRed,
    Pink,
    Yellow,
    White,
}

impl Color16Bit {
    /// The color's 4-bit index.
    pub open spec fn spec_index(self) -> u8 {
        match self {
            Color16Bit::Black => 0,
            Color16Bit::Blue => 1,
            Color16Bit::Green => 2,
            Color16Bit::Cyan => 3,
            Color16Bit::Red => 4,
            Color16Bit::Magenta => 5,
            Color16Bit::Brown => 6,
            Color16Bit::LightGrey => 7,
            Color16Bit::DarkGrey => 8,
            Color16Bit::LightBlue => 9,
            Color16Bit::LightGreen => 10,
            Color16Bit::LightCyan => 11,
            Color16Bit::LightRed => 12,
            Color16Bit::Pink => 13,
            Color16Bit::Yellow => 14,
            Color16Bit::White => 15,
        }
    }

    /// The color's 4-bit index.
    #[verifier::when_used_as_spec(spec_index)]
    pub fn index(self) -> (r: u8)
        ensures
            r == self.spec_index(),
            r < 16,
    {
        match self {
            Color16Bit::Black => 0,
            Color16Bit::Blue => 1,
            Color16Bit::Green => 2,
            Color16Bit::Cyan => 3,
            Color16Bit::Red => 4,
            Color16Bit::Magenta => 5,
            Color16Bit::Brown => 6,
            Color16Bit::LightGrey => 7,
            Color16Bit::DarkGrey => 8,
            Color16Bit::LightBlue => 9,
            Color16Bit::LightGreen => 10,
            Color16Bit::LightCyan => 11,
            Color16Bit::LightRed => 12,
            Color16Bit::Pink => 13,
            Color16Bit::Yellow => 14,
            Color16Bit::White => 15,
        }
    }
}

/// The attribute byte of a text cell: background in the high four bits,
/// foreground in the low four.
#[derive(Clone, Copy, Debug, PartialEq, Eq, Structural)]
pub struct TextModeColor {
    pub value: u8,
}

impl TextModeColor {
    /// The attribute with `foreground` on `background`.
    pub fn new(foreground: Color16Bit, background: Color16Bit) -> (r: TextModeColor)
        ensures
            r.value == background.spec_index() * 16 + foreground.spec_index(),
    {
        let fg = foreground.index();
        let bg = background.index();
        TextModeColor { value: bg * 16 + fg }
    }
}

} // verus!
