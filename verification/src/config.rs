//! Compiled-in geometry configuration.
//!
//! All geometry is fixed at compile time: the display size, the button
//! size derived from the display width, and the keypad panel that holds
//! four rows of three buttons.

use vstd::prelude::*;
use crate::viewable::ViewGroupId;

verus! {

/// Display width in pixels.
pub const DISP_WIDTH: u32 = 720;

/// Display height in pixels.
pub const DISP_HEIGHT: u32 = 1440;

/// The fixed margin subtracted from a third of the display width to get
/// the button width.
pub const BTN_MARGIN: u32 = 8;

/// Button width: a third of the display width minus the fixed margin.
pub const BTN_WIDTH: u32 = DISP_WIDTH / 3 - BTN_MARGIN;

/// Button height: a quarter of the display width.
pub const BTN_HEIGHT: u32 = DISP_WIDTH / 4;

/// Width of the keypad panel.
pub const KEYPAD_WIDTH: u32 = DISP_WIDTH - 2;

/// Height of the keypad panel: four button rows, stacked tight.
pub const KEYPAD_HEIGHT: u32 = BTN_HEIGHT * 4;

/// Outer margin between the keypad panel and the bottom display edge.
pub const OUTER_MARGIN: u32 = 4;

/// Stroke width of the rectangle outlines, both panel and buttons.
pub const STROKE_WIDTH: u32 = 4;

/// Width of one glyph cell of the fixed label font.
pub const GLYPH_WIDTH: u32 = 24;

/// Height of one glyph cell of the fixed label font.
pub const GLYPH_HEIGHT: u32 = 32;

/// The view group that the dialer's widgets belong to.
pub const DIALER_VGID: ViewGroupId = 0;

} // verus!
