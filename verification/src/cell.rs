//! The cell model: one on-screen character position, a glyph code from
//! the device's 256-glyph code page paired with a colour byte.

use vstd::prelude::*;

use crate::colour::ColourCode;

verus! {

/// One on-screen character position: an 8-bit glyph code (interpreted
/// against the device's fixed code page, not as general text) and the
/// colour byte it is shown with. The device stores a cell as two
/// consecutive bytes, glyph first, colour second.
#[derive(Debug, Clone, Copy, PartialEq, Eq, Structural)]
pub struct ScreenChar {
    pub ascii_character: u8,
    pub colour_code: ColourCode,
}

impl ScreenChar {
    /// Builds a cell from a glyph code and a colour byte.
    pub fn new(ascii_character: u8, colour_code: ColourCode) -> (r: ScreenChar)
        ensures
            r == (ScreenChar { ascii_character, colour_code }),
    {
        ScreenChar { ascii_character, colour_code }
    }

    /// The two bytes of this cell in the order the device expects:
    /// the glyph code first, the colour byte second.
    pub fn to_bytes(self) -> (b: (u8, u8))
        ensures
            b.0 == self.ascii_character,
            b.1 == self.colour_code.0,
    {
        (self.ascii_character, self.colour_code.0)
    }
}

} // verus!
