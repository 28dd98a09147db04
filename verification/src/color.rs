use vstd::prelude::*;

verus! {

/// A four-channel color, carried as the raw IEEE 754 single-precision
/// bit patterns of its red, green, blue and alpha components.
///
/// The verified core stores and validates these bits; the component
/// arithmetic (blending, HSV construction, gamma conversion) is floating
/// point and is performed by the surrounding program.
#[derive(Clone, Copy, PartialEq, Eq, Structural, Debug)]
pub struct Color {
    pub r: u32,
    pub g: u32,
    pub b: u32,
    pub a: u32,
}

impl Color {
    pub fn new(r: u32, g: u32, b: u32, a: u32) -> (c: Color)
        ensures
            c == (Color { r, g, b, a }),
    {
        Color { r, g, b, a }
    }
}

/// The HSV construction at zero saturation: a gray whose red, green and
/// blue channels all hold the value, whatever the hue was. The channel
/// bits are copied, never computed, so the equality of the three color
/// channels holds exactly.
pub fn hsv_gray(v: u32, a: u32) -> (c: Color)
    ensures
        c.r == v,
        c.g == v,
        c.b == v,
        c.a == a,
        c.r == c.g && c.g == c.b,
{
    Color { r: v, g: v, b: v, a }
}

/// One finished output pixel: four 16-bit channels, red, green, blue,
/// alpha, in display order.
#[derive(Clone, Copy, PartialEq, Eq, Structural, Debug)]
pub struct Px {
    pub r: u16,
    pub g: u16,
    pub b: u16,
    pub a: u16,
}

impl Px {
    pub fn new(r: u16, g: u16, b: u16, a: u16) -> (p: Px)
        ensures
            p == (Px { r, g, b, a }),
    {
        Px { r, g, b, a }
    }

    /// The channels as an ordered quadruple.
    pub open spec fn spec_channels(self) -> (u16, u16, u16, u16) {
        (self.r, self.g, self.b, self.a)
    }

    pub fn channels(self) -> (t: (u16, u16, u16, u16))
        ensures
            t == self.spec_channels(),
    {
        (self.r, self.g, self.b, self.a)
    }
}

} // verus!
