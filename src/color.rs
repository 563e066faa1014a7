use vstd::prelude::*;

verus! {

/// An opaque colour as three 8-bit channels.
#[derive(Clone, Copy, Debug, PartialEq, Eq, Structural)]
pub struct Rgb {
    pub r: u8,
    pub g: u8,
    pub b: u8,
}

impl Rgb {
    /// Builds a colour from its red, green and blue channels.
    pub fn new(r: u8, g: u8, b: u8) -> (c: Rgb)
        ensures
            c == (Rgb { r, g, b }),
    {
        Rgb { r, g, b }
    }

    /// A grey with all three channels at `level`.
    pub fn gray(level: u8) -> (c: Rgb)
        ensures
            c == (Rgb { r: level, g: level, b: level }),
    {
        Rgb { r: level, g: level, b: level }
    }

    /// Builds a colour from a `[red, green, blue]` triple.
    pub fn from_array(rgb: [u8; 3]) -> (c: Rgb)
        ensures
            c == (Rgb { r: rgb@[0], g: rgb@[1], b: rgb@[2] }),
    {
        Rgb { r: rgb[0], g: rgb[1], b: rgb[2] }
    }
}

} // verus!
