use vstd::prelude::*;

verus! {

/// A pixel at the serialization boundary: three 8-bit colour channels.
///
/// Colour composition happens upstream in an unconstrained floating range;
/// a value of this type is the saturated result of scaling each channel to
/// `0..=255`, and is what the PPM encoder writes out, one byte per channel.
#[derive(Clone, Copy, Debug, PartialEq, Eq, Structural)]
pub struct Rgb {
    pub r: u8,
    pub g: u8,
    pub b: u8,
}

impl Rgb {
    pub fn new(r: u8, g: u8, b: u8) -> (pixel: Rgb)
        ensures
            pixel == (Rgb { r, g, b }),
    {
        Rgb { r, g, b }
    }

    /// The three channels in (red, green, blue) order.
    pub fn to_tuple(&self) -> (channels: (u8, u8, u8))
        ensures
            channels == (self.r, self.g, self.b),
    {
        (self.r, self.g, self.b)
    }
}

impl Default for Rgb {
    /// Black: every channel zero.
    fn default() -> (pixel: Rgb)
        ensures
            pixel == (Rgb { r: 0, g: 0, b: 0 }),
    {
        Rgb { r: 0, g: 0, b: 0 }
    }
}

} // verus!
