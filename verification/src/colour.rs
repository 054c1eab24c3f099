//! The colour model of the text-mode device: sixteen named colours and
//! the single byte that packs a foreground/background pair.

use vstd::prelude::*;

verus! {

/// The sixteen colours the text-mode device can display. Each has a
/// fixed device code in `0..16`, so a code always fits in four bits.
#[derive(Debug, Clone, Copy, PartialEq, Eq, Structural)]
pub enum Colour {
    Black,
    Blue,
    Green,
    Cyan,
    Red,
    Magenta,
    Brown,
    LightGray,
    DarkGray,
    LightBlue,
    LightGreen,
    LightCyan,
    LightRed,
    Pink,
    Yellow,
    White,
}

impl Colour {
    /// The device code of this colour.
    pub open spec fn spec_code(self) -> u8 {
        match self {
            Colour::Black => 0,
            Colour::Blue => 1,
            Colour::Green => 2,
            Colour::Cyan => 3,
            Colour::Red => 4,
            Colour::Magenta => 5,
            Colour::Brown => 6,
            Colour::LightGray => 7,
            Colour::DarkGray => 8,
            Colour::LightBlue => 9,
            Colour::LightGreen => 10,
            Colour::LightCyan => 11,
            Colour::LightRed => 12,
            Colour::Pink => 13,
            Colour::Yellow => 14,
            Colour::White => 15,
        }
    }

    /// Returns the device code of this colour.
    #[verifier::when_used_as_spec(spec_code)]
    pub fn code(self) -> (c: u8)
        ensures
            c == self.spec_code(),
            c < 16,
    {
        match self {
            Colour::Black => 0,
            Colour::Blue => 1,
            Colour::Green => 2,
            Colour::Cyan => 3,
            Colour::Red => 4,
            Colour::Magenta => 5,
            Colour::Brown => 6,
            Colour::LightGray => 7,
            Colour::DarkGray => 8,
            Colour::LightBlue => 9,
            Colour::LightGreen => 10,
            Colour::LightCyan => 11,
            Colour::LightRed => 12,
            Colour::Pink => 13,
            Colour::Yellow => 14,
            Colour::White => 15,
        }
    }
}

/// A foreground/background pair packed into the byte the device
/// expects: bits 0-3 hold the foreground code, bits 4-7 the background
/// code.
#[derive(Debug, Clone, Copy, PartialEq, Eq, Structural)]
pub struct ColourCode(pub u8);

impl ColourCode {
    /// The packed byte for a foreground/background pair.
    pub open spec fn spec_new(foreground: Colour, background: Colour) -> u8 {
        (background.spec_code() << 4) | foreground.spec_code()
    }

    /// Packs a foreground/background pair into one byte: the low nibble
    /// is the foreground code, the high nibble the background code.
    pub fn new(foreground: Colour, background: Colour) -> (r: ColourCode)
        ensures
            r.0 == ColourCode::spec_new(foreground, background),
            r.0 & 0x0F == foreground.spec_code(),
            r.0 >> 4 == background.spec_code(),
    {
        let f = foreground.code();
        let b = background.code();
        proof {
            assert(f < 16 && b < 16 ==> ((b << 4) | f) & 0x0F == f && ((b << 4) | f) >> 4 == b)
                by (bit_vector);
        }
        ColourCode((b << 4) | f)
    }
}

/// Law: the colour encoding round-trips. For every foreground and
/// background pair, the packed byte's low nibble is the foreground code
/// and its high nibble is the background code.
pub proof fn lemma_colour_code_round_trip(foreground: Colour, background: Colour)
    ensures
        ColourCode::spec_new(foreground, background) & 0x0F == foreground.spec_code(),
        ColourCode::spec_new(foreground, background) >> 4 == background.spec_code(),
{
    let f = foreground.spec_code();
    let b = background.spec_code();
    assert(f < 16 && b < 16 ==> ((b << 4) | f) & 0x0F == f && ((b << 4) | f) >> 4 == b)
        by (bit_vector);
}

} // verus!
