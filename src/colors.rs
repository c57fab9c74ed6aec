use vstd::prelude::*;

verus! {

/// A stroke color: red, green and blue intensities in thousandths,
/// so that 1000 stands for full intensity.
#[derive(Clone, Copy, Debug, PartialEq, Eq, Structural)]
pub struct Color(pub u16, pub u16, pub u16);

/// Full intensity of a channel.
pub const FULL: u16 = 1000;

impl Color {
    /// The preset red.
    pub fn red() -> (c: Color)
        ensures
            c == Color(850, 100, 50),
    {
        Color(850, 100, 50)
    }

    /// The preset green.
    pub fn green() -> (c: Color)
        ensures
            c == Color(200, 930, 400),
    {
        Color(200, 930, 400)
    }

    /// The preset blue.
    pub fn blue() -> (c: Color)
        ensures
            c == Color(0, 280, 730),
    {
        Color(0, 280, 730)
    }
}

} // verus!
