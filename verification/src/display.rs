//! Display colors in the 16-bit 5-6-5 layout.

use vstd::prelude::*;

verus! {

/// The 5-6-5 encoding of an 8-bit-per-channel color.
pub open spec fn rgb565(r: u8, g: u8, b: u8) -> int {
    (r / 8) as u16 * 2048 + (g / 4) as u16 * 32 + (b / 8) as u16
}

/// A display color, packed as 5 bits red, 6 green, 5 blue.
#[derive(Clone, Copy, PartialEq, Eq, Structural, Debug)]
pub struct Color(pub u16);

impl Color {
    /// Packs 8-bit channels into a color.
    pub fn rgb(r: u8, g: u8, b: u8) -> (c: Color)
        ensures
            c.0 == rgb565(r, g, b),
    {
        Color((r / 8) as u16 * 2048 + (g / 4) as u16 * 32 + (b / 8) as u16)
    }

    pub fn black() -> (c: Color)
        ensures
            c.0 == 0,
    {
        Color(0)
    }

    pub fn white() -> (c: Color)
        ensures
            c.0 == rgb565(255, 255, 255),
    {
        Color::rgb(255, 255, 255)
    }
}

} // verus!
