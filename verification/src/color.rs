//! The fixed color palette of the keypad.

use vstd::prelude::*;

verus! {

/// A 24-bit RGB color.
#[derive(Copy, Clone, Debug, PartialEq, Eq, Hash, Structural)]
pub struct Rgb {
    pub r: u8,
    pub g: u8,
    pub b: u8,
}

/// The gray outline color of both the panel and every button.
pub open spec fn stroke_color() -> Rgb {
    Rgb { r: 64, g: 64, b: 64 }
}

/// The fill color of a released button: white.
pub open spec fn released_fill() -> Rgb {
    Rgb { r: 255, g: 255, b: 255 }
}

/// The fill color of a depressed button: gray.
pub open spec fn depressed_fill() -> Rgb {
    Rgb { r: 128, g: 128, b: 128 }
}

/// The color a button's fill takes for a given depression state.
pub open spec fn button_fill(depressed: bool) -> Rgb {
    if depressed {
        depressed_fill()
    } else {
        released_fill()
    }
}

/// The label text color: black.
pub open spec fn text_color() -> Rgb {
    Rgb { r: 0, g: 0, b: 0 }
}

/// The keypad panel's background fill: black.
pub open spec fn panel_fill() -> Rgb {
    Rgb { r: 0, g: 0, b: 0 }
}

impl Rgb {
    /// Builds a color from its three channels.
    pub fn new(r: u8, g: u8, b: u8) -> (c: Rgb)
        ensures
            c == (Rgb { r, g, b }),
    {
        Rgb { r, g, b }
    }
}

/// Picks the fill color for a button in the given depression state.
pub fn fill_for(depressed: bool) -> (c: Rgb)
    ensures
        c == button_fill(depressed),
{
    if depressed {
        Rgb { r: 128, g: 128, b: 128 }
    } else {
        Rgb { r: 255, g: 255, b: 255 }
    }
}

} // verus!
