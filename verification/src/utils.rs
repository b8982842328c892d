//! A small RGBA colour value used by the pattern-table and palette views.

use vstd::prelude::*;

verus! {

/// One RGBA colour.
#[derive(Clone, Copy, Debug, PartialEq, Eq, Structural)]
pub struct Color {
    pub r: u8,
    pub g: u8,
    pub b: u8,
    pub a: u8,
}

impl Color {
    /// Pack four channel values into a colour.
    pub fn new(r: u8, g: u8, b: u8, a: u8) -> (c: Color)
        ensures
            c == (Color { r, g, b, a }),
    {
        Color { r, g, b, a }
    }

    /// The colour as the four bytes of an RGBA texel.
    pub fn to_rgba(&self) -> (o: [u8; 4])
        ensures
            o@ == seq![self.r, self.g, self.b, self.a],
    {
        let o = [self.r, self.g, self.b, self.a];
        proof {
            assert(o@ =~= seq![self.r, self.g, self.b, self.a]);
        }
        o
    }

    /// The colour an RGBA texel denotes.
    pub fn from_rgba(rgba: [u8; 4]) -> (c: Color)
        ensures
            c == (Color { r: rgba@[0], g: rgba@[1], b: rgba@[2], a: rgba@[3] }),
    {
        Color { r: rgba[0], g: rgba[1], b: rgba[2], a: rgba[3] }
    }
}

} // verus!
