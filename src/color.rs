use vstd::prelude::*;

verus! {

/// An RGB colour with 8-bit channels.
#[derive(Clone, Copy, Debug, PartialEq, Eq, Structural)]
pub struct Color {
    pub r: u8,
    pub g: u8,
    pub b: u8,
}

/// The colour with the given channels, as a mathematical value.
pub open spec fn rgb(r: u8, g: u8, b: u8) -> Color {
    Color { r, g, b }
}

impl Color {
    /// The colour with channels `r`, `g`, `b`.
    pub fn new(r: u8, g: u8, b: u8) -> (c: Color)
        ensures
            c == rgb(r, g, b),
    {
        Color { r, g, b }
    }
}

} // verus!
