//! The keypad: twelve buttons in a fixed 3 x 4 grid.

use vstd::prelude::*;
use crate::button::{Button, ButtonView};
use crate::color::{panel_fill, stroke_color};
use crate::config::{
    BTN_HEIGHT, BTN_MARGIN, BTN_WIDTH, DIALER_VGID, DISP_HEIGHT, DISP_WIDTH, KEYPAD_HEIGHT,
    KEYPAD_WIDTH, OUTER_MARGIN, STROKE_WIDTH,
};
use crate::draw::DrawCommand;
use crate::events::{first_hit, resolved, resolve, TouchEvent};
use crate::geometry::{aligned_bounds, Point, Rect, Size};
use crate::key::Key;
use crate::viewable::{ViewGroupId, Viewable};

verus! {

/// The key at position `i` of the canonical phone layout order:
/// `1 2 3 / 4 5 6 / 7 8 9 / * 0 #`, rows top to bottom.
pub open spec fn key_at(i: int) -> Key {
    if i == 0 {
        Key::One
    } else if i == 1 {
        Key::Two
    } else if i == 2 {
        Key::Three
    } else if i == 3 {
        Key::Four
    } else if i == 4 {
        Key::Five
    } else if i == 5 {
        Key::Six
    } else if i == 6 {
        Key::Seven
    } else if i == 7 {
        Key::Eight
    } else if i == 8 {
        Key::Nine
    } else if i == 9 {
        Key::Asterisk
    } else if i == 10 {
        Key::Zero
    } else {
        Key::Pound
    }
}

/// How a button sequence changes when one key's depression state is
/// overwritten: every button whose key matches takes the new state, every
/// other button is untouched.
pub open spec fn depressed_updated(
    before: Seq<Button>,
    after: Seq<Button>,
    key: Key,
    depressed: bool,
) -> bool {
    &&& after.len() == before.len()
    &&& forall|i: int|
        0 <= i < before.len() ==> #[trigger] after[i] == (if before[i].key == key {
            Button { key: before[i].key, depressed }
        } else {
            before[i]
        })
}

/// Twelve buttons, one per key, in canonical phone layout order.
pub struct Keypad {
    /// The buttons, in canonical order; mutate them only through
    /// [`Keypad::set_depressed`] so that the ordering invariant holds.
    pub buttons: Vec<Button>,
}

/// The keypad placed at a concrete screen rectangle, ready to lay out
/// its buttons and draw.
pub struct KeypadView {
    /// The button states the view was taken from, in canonical order.
    pub buttons: Vec<Button>,
    /// The absolute screen rectangle of the keypad panel.
    pub bounds: Rect,
}

impl Keypad {
    /// The structural invariant: exactly twelve buttons, the key at each
    /// position fixed by the canonical layout order.
    pub open spec fn wf(self) -> bool {
        &&& self.buttons@.len() == 12
        &&& forall|i: int| 0 <= i < 12 ==> (#[trigger] self.buttons@[i]).key == key_at(i)
    }

    /// Whether the button for `key` is currently depressed.
    pub open spec fn key_depressed(self, key: Key) -> bool {
        exists|i: int|
            0 <= i < self.buttons@.len() && (#[trigger] self.buttons@[i]).key == key
                && self.buttons@[i].depressed
    }

    /// Constructs the keypad: all twelve buttons in canonical order, all
    /// released.
    pub fn new() -> (kp: Keypad)
        ensures
            kp.wf(),
            forall|i: int| 0 <= i < 12 ==> !(#[trigger] kp.buttons@[i]).depressed,
    {
        let mut buttons: Vec<Button> = Vec::new();
        buttons.push(Button::new(Key::One));
        buttons.push(Button::new(Key::Two));
        buttons.push(Button::new(Key::Three));
        buttons.push(Button::new(Key::Four));
        buttons.push(Button::new(Key::Five));
        buttons.push(Button::new(Key::Six));
        buttons.push(Button::new(Key::Seven));
        buttons.push(Button::new(Key::Eight));
        buttons.push(Button::new(Key::Nine));
        buttons.push(Button::new(Key::Asterisk));
        buttons.push(Button::new(Key::Zero));
        buttons.push(Button::new(Key::Pound));
        proof {
            assert(buttons@ =~= seq![
                Button { key: Key::One, depressed: false },
                Button { key: Key::Two, depressed: false },
                Button { key: Key::Three, depressed: false },
                Button { key: Key::Four, depressed: false },
                Button { key: Key::Five, depressed: false },
                Button { key: Key::Six, depressed: false },
                Button { key: Key::Seven, depressed: false },
                Button { key: Key::Eight, depressed: false },
                Button { key: Key::Nine, depressed: false },
                Button { key: Key::Asterisk, depressed: false },
                Button { key: Key::Zero, depressed: false },
                Button { key: Key::Pound, depressed: false },
            ]);
        }
        Keypad { buttons }
    }

    /// Overwrites the depression state of the button whose key matches.
    ///
    /// A linear scan: buttons with any other key are untouched, and if no
    /// button matched the keypad is unchanged. Under [`Keypad::wf`]
    /// exactly one button matches.
    pub fn set_depressed(&mut self, key: Key, depressed: bool)
        ensures
            depressed_updated(old(self).buttons@, final(self).buttons@, key, depressed),
            old(self).wf() ==> final(self).wf(),
    {
        let n = self.buttons.len();
        let mut i: usize = 0;
        while i < n
            invariant
                n == self.buttons@.len(),
                n == old(self).buttons@.len(),
                i <= n,
                forall|j: int|
                    0 <= j < i ==> #[trigger] self.buttons@[j] == (
                    if old(self).buttons@[j].key == key {
                        Button { key: old(self).buttons@[j].key, depressed }
                    } else {
                        old(self).buttons@[j]
                    }),
                forall|j: int| i <= j < n ==> #[trigger] self.buttons@[j] == old(self).buttons@[j],
            decreases n - i,
        {
            if self.buttons[i].key() == key {
                self.buttons[i].set_depressed(depressed);
            }
            i = i + 1;
        }
    }

    /// Whether the button for `key` is currently depressed, as a value.
    pub fn is_depressed(&self, key: Key) -> (r: bool)
        ensures
            r == self.key_depressed(key),
    {
        let n = self.buttons.len();
        let mut i: usize = 0;
        while i < n
            invariant
                n == self.buttons@.len(),
                i <= n,
                forall|j: int|
                    0 <= j < i ==> !((#[trigger] self.buttons@[j]).key == key
                        && self.buttons@[j].depressed),
            decreases n - i,
        {
            let b = self.buttons[i];
            if b.key() == key && b.depressed {
                return true;
            }
            i = i + 1;
        }
        false
    }

    /// Routes one touch event through a frame's registry of placed
    /// button views: the button under the coordinate, if any, takes the
    /// event's depression state (pressed on press, released on release);
    /// every other button, and the whole keypad on a miss, is untouched.
    pub fn handle_touch_event(&mut self, event: TouchEvent, views: &Vec<ButtonView>)
        ensures
            match resolved(views@, event.point()) {
                Some(key) => depressed_updated(
                    old(self).buttons@,
                    final(self).buttons@,
                    key,
                    event.is_press(),
                ),
                None => final(self).buttons@ == old(self).buttons@,
            },
            old(self).wf() ==> final(self).wf(),
    {
        let pressed = match event {
            TouchEvent::Press(_) => true,
            TouchEvent::Release(_) => false,
        };
        match resolve(views, event.coordinate()) {
            Some(key) => self.set_depressed(key, pressed),
            None => {},
        }
    }
}

impl Viewable for Keypad {
    type ViewType = KeypadView;

    /// The keypad's widgets all belong to the dialer view group.
    fn view_group_id(&self) -> (id: Option<ViewGroupId>)
        ensures
            id == Some(DIALER_VGID),
    {
        Some(DIALER_VGID)
    }

    /// Produces the keypad's view at its configured geometry: the panel
    /// rectangle at the origin, carrying the current button states.
    fn view(&self) -> (v: KeypadView)
        ensures
            v.buttons@ == self.buttons@,
            v.bounds == (Rect { x: 0, y: 0, width: KEYPAD_WIDTH, height: KEYPAD_HEIGHT }),
    {
        let mut buttons: Vec<Button> = Vec::new();
        let n = self.buttons.len();
        let mut i: usize = 0;
        while i < n
            invariant
                n == self.buttons@.len(),
                i <= n,
                buttons@.len() == i,
                forall|j: int| 0 <= j < i ==> #[trigger] buttons@[j] == self.buttons@[j],
            decreases n - i,
        {
            buttons.push(self.buttons[i]);
            i = i + 1;
        }
        proof {
            assert(buttons@ =~= self.buttons@);
        }
        let bounds = Rect::with_size(
            Point::zero(),
            Size { width: KEYPAD_WIDTH, height: KEYPAD_HEIGHT },
        );
        KeypadView { buttons, bounds }
    }
}

impl KeypadView {
    /// The view carries exactly twelve buttons.
    pub open spec fn wf(self) -> bool {
        self.buttons@.len() == 12
    }

    /// Whether the panel rectangle lies on screen and is large enough to
    /// hold the 3 x 4 button block.
    pub open spec fn fits(self) -> bool {
        &&& 3 * BTN_WIDTH <= self.bounds.width
        &&& 4 * BTN_HEIGHT <= self.bounds.height
        &&& self.bounds.right() <= i32::MAX
        &&& self.bounds.bottom() <= i32::MAX
    }

    /// Left edge of the button block: the block is centered horizontally
    /// in the panel.
    pub open spec fn block_x(self) -> int {
        self.bounds.x + (self.bounds.width - 3 * BTN_WIDTH) / 2
    }

    /// Top edge of the button block: the block is centered vertically in
    /// the panel.
    pub open spec fn block_y(self) -> int {
        self.bounds.y + (self.bounds.height - 4 * BTN_HEIGHT) / 2
    }

    /// The screen rectangle of the button at position `i`: row `i / 3`,
    /// column `i % 3`, rows stacked tight below each other and the three
    /// buttons of a row tiling it left to right with no gap.
    pub open spec fn cell(self, i: int) -> Rect {
        Rect {
            x: (self.block_x() + (i % 3) * BTN_WIDTH) as i32,
            y: (self.block_y() + (i / 3) * BTN_HEIGHT) as i32,
            width: BTN_WIDTH,
            height: BTN_HEIGHT,
        }
    }

    /// The button view at position `i`: the button's current state,
    /// placed at its cell.
    pub open spec fn button_view_spec(self, i: int) -> ButtonView {
        ButtonView {
            key: self.buttons@[i].key,
            depressed: self.buttons@[i].depressed,
            bounds: self.cell(i),
        }
    }

    /// The panel background: a filled, stroked rectangle over the whole
    /// view bounds.
    pub open spec fn panel_command(self) -> DrawCommand {
        DrawCommand::FilledRect {
            bounds: self.bounds,
            fill: panel_fill(),
            stroke: stroke_color(),
            stroke_width: STROKE_WIDTH,
        }
    }

    /// The cell coordinates written without the casts, and the fact that
    /// every cell lies within the panel bounds.
    pub proof fn lemma_cell_geometry(self, i: int)
        requires
            self.fits(),
            0 <= i < 12,
        ensures
            self.cell(i).x == self.block_x() + (i % 3) * BTN_WIDTH,
            self.cell(i).y == self.block_y() + (i / 3) * BTN_HEIGHT,
            self.cell(i).width == BTN_WIDTH,
            self.cell(i).height == BTN_HEIGHT,
            self.bounds.x <= self.cell(i).x,
            self.cell(i).right() <= self.bounds.right(),
            self.bounds.y <= self.cell(i).y,
            self.cell(i).bottom() <= self.bounds.bottom(),
    {
        let w = self.bounds.width as int;
        let h = self.bounds.height as int;
        assert(0 <= (w - 3 * BTN_WIDTH) / 2 && (w - 3 * BTN_WIDTH) / 2 <= w - 3 * BTN_WIDTH);
        assert(0 <= (h - 4 * BTN_HEIGHT) / 2 && (h - 4 * BTN_HEIGHT) / 2 <= h - 4 * BTN_HEIGHT);
        let c = i % 3;
        let r = i / 3;
        assert(0 <= c <= 2 && 0 <= r <= 3);
        assert(0 <= c * BTN_WIDTH <= 2 * BTN_WIDTH) by (nonlinear_arith)
            requires
                0 <= c <= 2,
        ;
        assert(0 <= r * BTN_HEIGHT <= 3 * BTN_HEIGHT) by (nonlinear_arith)
            requires
                0 <= r <= 3,
        ;
    }

    /// Lays the twelve buttons out over the panel: the flat list of
    /// placed button views, in canonical order. One frame's rendering
    /// and its touch resolution both work from this list.
    pub fn view_group(&self) -> (views: Vec<ButtonView>)
        requires
            self.wf(),
            self.fits(),
        ensures
            views@.len() == 12,
            forall|i: int| 0 <= i < 12 ==> #[trigger] views@[i] == self.button_view_spec(i),
    {
        let dx = (self.bounds.width - 3 * BTN_WIDTH) / 2;
        let dy = (self.bounds.height - 4 * BTN_HEIGHT) / 2;
        proof {
            assert(dx <= self.bounds.width - 3 * BTN_WIDTH);
            assert(dy <= self.bounds.height - 4 * BTN_HEIGHT);
        }
        let ox: i32 = self.bounds.x + dx as i32;
        let oy: i32 = self.bounds.y + dy as i32;
        let mut views: Vec<ButtonView> = Vec::new();
        let mut i: usize = 0;
        while i < 12
            invariant
                self.wf(),
                self.fits(),
                ox as int == self.block_x(),
                oy as int == self.block_y(),
                i <= 12,
                views@.len() == i,
                forall|j: int| 0 <= j < i ==> #[trigger] views@[j] == self.button_view_spec(j),
            decreases 12 - i,
        {
            let col = i % 3;
            let row = i / 3;
            proof {
                self.lemma_cell_geometry(i as int);
                assert(col * BTN_WIDTH <= 2 * BTN_WIDTH) by (nonlinear_arith)
                    requires
                        0 <= col <= 2,
                ;
                assert(row * BTN_HEIGHT <= 3 * BTN_HEIGHT) by (nonlinear_arith)
                    requires
                        0 <= row <= 3,
                ;
            }
            let x: i32 = ox + (col as u32 * BTN_WIDTH) as i32;
            let y: i32 = oy + (row as u32 * BTN_HEIGHT) as i32;
            let b = self.buttons[i];
            views.push(ButtonView {
                key: b.key,
                depressed: b.depressed,
                bounds: Rect { x, y, width: BTN_WIDTH, height: BTN_HEIGHT },
            });
            i = i + 1;
        }
        views
    }

    /// Renders the keypad: the panel background first, then each button's
    /// rectangle and label in canonical order.
    ///
    /// Rendering reads the button states and never changes them; the
    /// result is exactly the panel command followed by the two commands
    /// of each button.
    pub fn draw(&self) -> (cmds: Vec<DrawCommand>)
        requires
            self.wf(),
            self.fits(),
        ensures
            cmds@.len() == 25,
            cmds@[0] == self.panel_command(),
            forall|i: int| #![trigger self.button_view_spec(i)]
                0 <= i < 12 ==> cmds@[1 + 2 * i] == self.button_view_spec(i).rect_command()
                    && cmds@[2 + 2 * i] == self.button_view_spec(i).label_command(),
    {
        let mut cmds: Vec<DrawCommand> = Vec::new();
        cmds.push(DrawCommand::FilledRect {
            bounds: self.bounds,
            fill: crate::color::Rgb::new(0, 0, 0),
            stroke: crate::color::Rgb::new(64, 64, 64),
            stroke_width: STROKE_WIDTH,
        });
        let views = self.view_group();
        let mut i: usize = 0;
        while i < 12
            invariant
                self.wf(),
                self.fits(),
                views@.len() == 12,
                forall|j: int| 0 <= j < 12 ==> #[trigger] views@[j] == self.button_view_spec(j),
                i <= 12,
                cmds@.len() == 1 + 2 * i,
                cmds@[0] == self.panel_command(),
                forall|j: int| #![trigger self.button_view_spec(j)]
                    0 <= j < i ==> cmds@[1 + 2 * j] == self.button_view_spec(j).rect_command()
                        && cmds@[2 + 2 * j] == self.button_view_spec(j).label_command(),
            decreases 12 - i,
        {
            let v = views[i];
            proof {
                self.lemma_cell_geometry(i as int);
                assert(v.fits());
            }
            let two = v.draw();
            cmds.push(two[0]);
            cmds.push(two[1]);
            i = i + 1;
        }
        cmds
    }

    /// Centers the view horizontally in `area` and anchors it to the
    /// bottom edge, leaving `margin` pixels between view and edge.
    pub fn align_bottom_center(self, area: Rect, margin: u32) -> (v: KeypadView)
        requires
            self.bounds.width <= area.width,
            margin + self.bounds.height <= area.height,
            area.right() <= i32::MAX,
            area.bottom() <= i32::MAX,
        ensures
            v.buttons@ == self.buttons@,
            v.bounds == aligned_bounds(self.bounds, area, margin),
    {
        let dx = (area.width - self.bounds.width) / 2;
        proof {
            assert(dx <= area.width - self.bounds.width);
        }
        let x: i32 = area.x + dx as i32;
        let y64: i64 = area.y as i64 + area.height as i64 - margin as i64
            - self.bounds.height as i64;
        proof {
            assert(area.y <= y64 <= area.bottom());
        }
        let y: i32 = y64 as i32;
        KeypadView {
            buttons: self.buttons,
            bounds: Rect { x, y, width: self.bounds.width, height: self.bounds.height },
        }
    }

    /// Moves the view by an offset, consuming it.
    pub fn translate(self, by: Point) -> (v: KeypadView)
        requires
            i32::MIN <= self.bounds.x + by.x <= i32::MAX,
            i32::MIN <= self.bounds.y + by.y <= i32::MAX,
        ensures
            v.buttons@ == self.buttons@,
            v.bounds == self.bounds.translate_spec(by),
    {
        let mut v = self;
        v.translate_mut(by);
        v
    }

    /// Moves the view by an offset, in place.
    pub fn translate_mut(&mut self, by: Point)
        requires
            i32::MIN <= old(self).bounds.x + by.x <= i32::MAX,
            i32::MIN <= old(self).bounds.y + by.y <= i32::MAX,
        ensures
            final(self).buttons@ == old(self).buttons@,
            final(self).bounds == old(self).bounds.translate_spec(by),
    {
        self.bounds = self.bounds.translate(by);
    }

    /// The absolute screen rectangle of the keypad panel.
    pub fn bounds(&self) -> (r: Rect)
        ensures
            r == self.bounds,
    {
        self.bounds
    }
}

/// Every key appears on exactly one button of a well-formed keypad:
/// some position holds it, and no two positions share a key.
pub proof fn lemma_one_button_per_key(kp: Keypad, key: Key)
    requires
        kp.wf(),
    ensures
        exists|i: int| 0 <= i < 12 && (#[trigger] kp.buttons@[i]).key == key,
        forall|i: int, j: int|
            0 <= i < 12 && 0 <= j < 12 && (#[trigger] kp.buttons@[i]).key == (
            #[trigger] kp.buttons@[j]).key ==> i == j,
{
    match key {
        Key::One => assert(kp.buttons@[0].key == key),
        Key::Two => assert(kp.buttons@[1].key == key),
        Key::Three => assert(kp.buttons@[2].key == key),
        Key::Four => assert(kp.buttons@[3].key == key),
        Key::Five => assert(kp.buttons@[4].key == key),
        Key::Six => assert(kp.buttons@[5].key == key),
        Key::Seven => assert(kp.buttons@[6].key == key),
        Key::Eight => assert(kp.buttons@[7].key == key),
        Key::Nine => assert(kp.buttons@[8].key == key),
        Key::Asterisk => assert(kp.buttons@[9].key == key),
        Key::Zero => assert(kp.buttons@[10].key == key),
        Key::Pound => assert(kp.buttons@[11].key == key),
    }
    assert forall|i: int, j: int|
        0 <= i < 12 && 0 <= j < 12 && (kp.buttons@[i]).key == (kp.buttons@[j]).key implies i
        == j by {
        assert(kp.buttons@[i].key == key_at(i));
        assert(kp.buttons@[j].key == key_at(j));
    }
}

/// Pressing a key and then releasing it returns every button to its
/// state before, provided the key's buttons started released.
pub proof fn lemma_press_release_round_trip(
    s0: Seq<Button>,
    s1: Seq<Button>,
    s2: Seq<Button>,
    key: Key,
)
    requires
        depressed_updated(s0, s1, key, true),
        depressed_updated(s1, s2, key, false),
        forall|i: int| 0 <= i < s0.len() && (#[trigger] s0[i]).key == key ==> !s0[i].depressed,
    ensures
        s2 == s0,
{
    assert(s2 =~= s0);
}

/// Writing the same depression state twice is idempotent: the second
/// write changes nothing.
pub proof fn lemma_set_depressed_idempotent(
    s0: Seq<Button>,
    s1: Seq<Button>,
    s2: Seq<Button>,
    key: Key,
    depressed: bool,
)
    requires
        depressed_updated(s0, s1, key, depressed),
        depressed_updated(s1, s2, key, depressed),
    ensures
        s2 == s1,
{
    assert(s2 =~= s1);
}

/// Each button of a laid-out keypad view is a third of the configured
/// display width minus the fixed margin wide, and the three buttons of
/// a row tile it exactly: adjacent cells share an edge, the first cell
/// starts at the block's left edge, the last ends at its right edge.
pub proof fn lemma_row_tiling(v: KeypadView, row: int, col: int)
    requires
        v.fits(),
        0 <= row < 4,
        0 <= col < 3,
    ensures
        v.cell(3 * row + col).width == BTN_WIDTH,
        BTN_WIDTH == DISP_WIDTH / 3 - BTN_MARGIN,
        v.cell(3 * row).x == v.block_x(),
        v.cell(3 * row + 2).right() == v.block_x() + 3 * BTN_WIDTH,
        col < 2 ==> v.cell(3 * row + col).right() == v.cell(3 * row + col + 1).x,
{
    assert((3 * row) % 3 == 0 && (3 * row) / 3 == row && (3 * row + 1) % 3 == 1 && (3 * row + 1)
        / 3 == row && (3 * row + 2) % 3 == 2 && (3 * row + 2) / 3 == row) by (nonlinear_arith)
        requires
            0 <= row,
    ;
    v.lemma_cell_geometry(3 * row + col);
    v.lemma_cell_geometry(3 * row);
    v.lemma_cell_geometry(3 * row + 2);
    if col < 2 {
        v.lemma_cell_geometry(3 * row + col + 1);
    }
}

/// The four rows of a laid-out keypad view stack vertically with no
/// gap: each cell ends exactly where the cell below it begins.
pub proof fn lemma_column_stacking(v: KeypadView, i: int)
    requires
        v.fits(),
        0 <= i < 9,
    ensures
        v.cell(i).bottom() == v.cell(i + 3).y,
        v.cell(i).x == v.cell(i + 3).x,
{
    v.lemma_cell_geometry(i);
    v.lemma_cell_geometry(i + 3);
    assert((i + 3) % 3 == i % 3 && (i + 3) / 3 == i / 3 + 1) by (nonlinear_arith)
        requires
            0 <= i,
    ;
    assert((i / 3 + 1) * BTN_HEIGHT == (i / 3) * BTN_HEIGHT + BTN_HEIGHT) by (nonlinear_arith);
}

/// At the configured display geometry — the keypad panel centered
/// horizontally and anchored to the bottom edge with the outer margin —
/// the button block is exactly centered: the margins left and right of
/// it are equal, its top row starts at the block's top, and its bottom
/// row ends the outer margin above the display's bottom edge.
pub proof fn lemma_display_anchoring(v: KeypadView)
    requires
        v.bounds == aligned_bounds(
            Rect { x: 0, y: 0, width: KEYPAD_WIDTH, height: KEYPAD_HEIGHT },
            Rect { x: 0, y: 0, width: DISP_WIDTH, height: DISP_HEIGHT },
            OUTER_MARGIN,
        ),
    ensures
        v.fits(),
        v.block_x() - 0 == DISP_WIDTH - (v.block_x() + 3 * BTN_WIDTH),
        v.cell(0).y == v.block_y(),
        v.cell(9).bottom() == DISP_HEIGHT - OUTER_MARGIN,
{
    assert(v.bounds.x == 1 && v.bounds.y == 716 && v.bounds.width == 718 && v.bounds.height
        == 720);
    v.lemma_cell_geometry(0);
    v.lemma_cell_geometry(9);
}

/// Distinct button cells of one layout never overlap: no screen
/// coordinate lies inside two of them.
pub proof fn lemma_cells_no_overlap(v: KeypadView, i: int, j: int, p: Point)
    requires
        v.fits(),
        0 <= i < 12,
        0 <= j < 12,
        i != j,
        v.cell(i).contains_spec(p),
    ensures
        !v.cell(j).contains_spec(p),
{
    v.lemma_cell_geometry(i);
    v.lemma_cell_geometry(j);
    let ci = i % 3;
    let ri = i / 3;
    let cj = j % 3;
    let rj = j / 3;
    assert(ci != cj || ri != rj) by (nonlinear_arith)
        requires
            0 <= i < 12,
            0 <= j < 12,
            i != j,
            ci == i % 3,
            ri == i / 3,
            cj == j % 3,
            rj == j / 3,
    ;
    if ci != cj {
        // the two x ranges lie at least one button width apart
        if ci < cj {
            assert(ci * BTN_WIDTH + BTN_WIDTH <= cj * BTN_WIDTH) by (nonlinear_arith)
                requires
                    ci + 1 <= cj,
            ;
        } else {
            assert(cj * BTN_WIDTH + BTN_WIDTH <= ci * BTN_WIDTH) by (nonlinear_arith)
                requires
                    cj + 1 <= ci,
            ;
        }
    } else {
        // same column, so the rows differ: the y ranges lie at least one
        // button height apart
        if ri < rj {
            assert(ri * BTN_HEIGHT + BTN_HEIGHT <= rj * BTN_HEIGHT) by (nonlinear_arith)
                requires
                    ri + 1 <= rj,
            ;
        } else {
            assert(rj * BTN_HEIGHT + BTN_HEIGHT <= ri * BTN_HEIGHT) by (nonlinear_arith)
                requires
                    rj + 1 <= ri,
            ;
        }
    }
}

/// Touch resolution over one keypad layout is exact: a coordinate
/// inside the cell at position `i` resolves to exactly the key laid out
/// there.
pub proof fn lemma_resolution_hit(v: KeypadView, views: Seq<ButtonView>, p: Point, i: int)
    requires
        v.fits(),
        views.len() == 12,
        forall|k: int| 0 <= k < 12 ==> #[trigger] views[k] == v.button_view_spec(k),
        0 <= i < 12,
        v.cell(i).contains_spec(p),
    ensures
        resolved(views, p) == Some(v.buttons@[i].key),
{
    assert forall|k: int| 0 <= k < 12 && k != i implies !(#[trigger] views[k]).bounds.contains_spec(
        p,
    ) by {
        lemma_cells_no_overlap(v, i, k, p);
    }
    assert(first_hit(views, p, i));
    let w = choose|k: int| first_hit(views, p, k);
    assert(first_hit(views, p, w));
    assert(views[w].bounds.contains_spec(p));
    assert(w == i);
}

/// Touch resolution over one keypad layout is exact: a coordinate
/// inside no cell resolves to no key at all.
pub proof fn lemma_resolution_miss(v: KeypadView, views: Seq<ButtonView>, p: Point)
    requires
        views.len() == 12,
        forall|k: int| 0 <= k < 12 ==> #[trigger] views[k] == v.button_view_spec(k),
        forall|i: int| 0 <= i < 12 ==> !(#[trigger] v.cell(i)).contains_spec(p),
    ensures
        resolved(views, p) is None,
{
    assert forall|k: int| !first_hit(views, p, k) by {
        if 0 <= k < 12 {
            assert(views[k] == v.button_view_spec(k));
            assert(!v.cell(k).contains_spec(p));
        }
    }
}

} // verus!
