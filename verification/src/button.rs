//! A single pressable keypad button.

use vstd::prelude::*;
use crate::color::{button_fill, stroke_color, text_color};
use crate::config::{GLYPH_HEIGHT, GLYPH_WIDTH, STROKE_WIDTH};
use crate::draw::DrawCommand;
use crate::geometry::{Point, Rect, Size};
use crate::key::Key;

verus! {

/// A pressable widget: a key and its current depression state.
#[derive(Copy, Clone, Debug, PartialEq, Eq, Hash, Structural)]
pub struct Button {
    /// The symbol this button stands for; fixed after construction.
    pub key: Key,
    /// Whether the button is currently being pressed.
    pub depressed: bool,
}

/// A button placed at a concrete screen rectangle, ready to draw.
#[derive(Copy, Clone, Debug, PartialEq, Eq, Hash, Structural)]
pub struct ButtonView {
    /// The symbol of the underlying button.
    pub key: Key,
    /// The depression state of the underlying button.
    pub depressed: bool,
    /// The absolute screen rectangle the button occupies.
    pub bounds: Rect,
}

impl Button {
    /// Constructs a released button for the given key.
    pub fn new(key: Key) -> (b: Button)
        ensures
            b == (Button { key, depressed: false }),
    {
        Button { key, depressed: false }
    }

    /// The symbol this button stands for.
    pub fn key(&self) -> (k: Key)
        ensures
            k == self.key,
    {
        self.key
    }

    /// Overwrites the depression state; the key is untouched.
    pub fn set_depressed(&mut self, depressed: bool)
        ensures
            *final(self) == (Button { key: old(self).key, depressed }),
    {
        self.depressed = depressed;
    }

    /// Places the button at a screen position with the given size.
    pub fn view(&self, position: Point, size: Size) -> (v: ButtonView)
        ensures
            v == (ButtonView {
                key: self.key,
                depressed: self.depressed,
                bounds: Rect {
                    x: position.x,
                    y: position.y,
                    width: size.width,
                    height: size.height,
                },
            }),
    {
        ButtonView { key: self.key, depressed: self.depressed, bounds: Rect::with_size(position, size) }
    }
}

impl ButtonView {
    /// Whether the view's rectangle lies on screen and is large enough to
    /// center one glyph of the label font inside it.
    pub open spec fn fits(self) -> bool {
        &&& GLYPH_WIDTH <= self.bounds.width
        &&& GLYPH_HEIGHT <= self.bounds.height
        &&& self.bounds.right() <= i32::MAX
        &&& self.bounds.bottom() <= i32::MAX
    }

    /// Where the label glyph's cell starts: centered in the bounds.
    pub open spec fn label_origin(self) -> Point {
        Point {
            x: (self.bounds.x + (self.bounds.width - GLYPH_WIDTH) / 2) as i32,
            y: (self.bounds.y + (self.bounds.height - GLYPH_HEIGHT) / 2) as i32,
        }
    }

    /// The filled, stroked rectangle of the button; its fill color shows
    /// the depression state.
    pub open spec fn rect_command(self) -> DrawCommand {
        DrawCommand::FilledRect {
            bounds: self.bounds,
            fill: button_fill(self.depressed),
            stroke: stroke_color(),
            stroke_width: STROKE_WIDTH,
        }
    }

    /// The button's label glyph, centered in its rectangle.
    pub open spec fn label_command(self) -> DrawCommand {
        DrawCommand::Label {
            top_left: self.label_origin(),
            glyph: self.key.glyph(),
            color: text_color(),
            background: button_fill(self.depressed),
        }
    }

    /// Moves the view by an offset, consuming it.
    pub fn translate(self, by: Point) -> (v: ButtonView)
        requires
            i32::MIN <= self.bounds.x + by.x <= i32::MAX,
            i32::MIN <= self.bounds.y + by.y <= i32::MAX,
        ensures
            v == (ButtonView { bounds: self.bounds.translate_spec(by), ..self }),
    {
        let mut v = self;
        v.translate_mut(by);
        v
    }

    /// Moves the view by an offset, in place.
    pub fn translate_mut(&mut self, by: Point)
        requires
            i32::MIN <= old(self).bounds.x + by.x <= i32::MAX,
            i32::MIN <= old(self).bounds.y + by.y <= i32::MAX,
        ensures
            *final(self) == (ButtonView { bounds: old(self).bounds.translate_spec(by), ..*old(self) }),
    {
        self.bounds = self.bounds.translate(by);
    }

    /// The absolute screen rectangle the button occupies.
    pub fn bounds(&self) -> (r: Rect)
        ensures
            r == self.bounds,
    {
        self.bounds
    }

    /// Renders the button: its rectangle, then its centered label.
    ///
    /// Rendering reads the button state and never changes it; the result
    /// is exactly the two commands, in paint order.
    pub fn draw(&self) -> (cmds: Vec<DrawCommand>)
        requires
            self.fits(),
        ensures
            cmds@.len() == 2,
            cmds@[0] == self.rect_command(),
            cmds@[1] == self.label_command(),
    {
        let fill = crate::color::fill_for(self.depressed);
        let stroke = crate::color::Rgb::new(64, 64, 64);
        let text = crate::color::Rgb::new(0, 0, 0);
        let dx = (self.bounds.width - GLYPH_WIDTH) / 2;
        let dy = (self.bounds.height - GLYPH_HEIGHT) / 2;
        let top_left = Point { x: self.bounds.x + dx as i32, y: self.bounds.y + dy as i32 };
        let mut cmds: Vec<DrawCommand> = Vec::new();
        cmds.push(DrawCommand::FilledRect {
            bounds: self.bounds,
            fill,
            stroke,
            stroke_width: STROKE_WIDTH,
        });
        cmds.push(DrawCommand::Label {
            top_left,
            glyph: self.key.glyph_char(),
            color: text,
            background: fill,
        });
        cmds
    }
}

} // verus!
