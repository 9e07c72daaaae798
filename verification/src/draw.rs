//! The display list: plain drawing commands the core emits.
//!
//! The core never touches a display itself. Rendering a widget produces a
//! sequence of these commands, in paint order (later commands paint over
//! earlier ones); the embedding program replays them onto a real drawing
//! surface.

use vstd::prelude::*;
use crate::color::Rgb;
use crate::geometry::{Point, Rect};

verus! {

/// One drawing primitive, in screen coordinates.
#[derive(Copy, Clone, Debug, PartialEq, Eq, Structural)]
pub enum DrawCommand {
    /// A filled rectangle with a stroked outline.
    FilledRect { bounds: Rect, fill: Rgb, stroke: Rgb, stroke_width: u32 },
    /// One glyph of the fixed label font, drawn over an opaque background.
    Label { top_left: Point, glyph: char, color: Rgb, background: Rgb },
}

} // verus!
