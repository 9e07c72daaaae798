use dialer::button::{Button, ButtonView};
use dialer::color::Rgb;
use dialer::draw::DrawCommand;
use dialer::events::{resolve, TouchEvent};
use dialer::geometry::{Point, Rect, Size};
use dialer::key::Key;
use dialer::keypad::Keypad;
use dialer::viewable::Viewable;

const CANONICAL: [Key; 12] = [
    Key::One,
    Key::Two,
    Key::Three,
    Key::Four,
    Key::Five,
    Key::Six,
    Key::Seven,
    Key::Eight,
    Key::Nine,
    Key::Asterisk,
    Key::Zero,
    Key::Pound,
];

#[test]
fn key_labels() {
    assert_eq!(Key::Zero.as_str(), "0");
    assert_eq!(Key::One.as_str(), "1");
    assert_eq!(Key::Two.as_str(), "2");
    assert_eq!(Key::Three.as_str(), "3");
    assert_eq!(Key::Four.as_str(), "4");
    assert_eq!(Key::Five.as_str(), "5");
    assert_eq!(Key::Six.as_str(), "6");
    assert_eq!(Key::Seven.as_str(), "7");
    assert_eq!(Key::Eight.as_str(), "8");
    assert_eq!(Key::Nine.as_str(), "9");
    assert_eq!(Key::Asterisk.as_str(), "*");
    assert_eq!(Key::Pound.as_str(), "#");
}

#[test]
fn key_glyphs_match_labels() {
    for k in CANONICAL {
        let s = k.as_str();
        assert_eq!(s.chars().count(), 1);
        assert_eq!(s.chars().next().unwrap(), k.glyph_char());
    }
}

#[test]
fn button_starts_released() {
    let b = Button::new(Key::Nine);
    assert_eq!(b.key(), Key::Nine);
    assert!(!b.depressed);
}

#[test]
fn button_set_depressed_overwrites() {
    let mut b = Button::new(Key::Zero);
    b.set_depressed(true);
    assert!(b.depressed);
    b.set_depressed(true);
    assert!(b.depressed);
    b.set_depressed(false);
    assert!(!b.depressed);
    assert_eq!(b.key(), Key::Zero);
}

#[test]
fn button_view_carries_state_and_bounds() {
    let mut b = Button::new(Key::Six);
    b.set_depressed(true);
    let v = b.view(Point { x: 5, y: 7 }, Size { width: 30, height: 40 });
    assert_eq!(v.key, Key::Six);
    assert!(v.depressed);
    assert_eq!(v.bounds, Rect { x: 5, y: 7, width: 30, height: 40 });
}

#[test]
fn keypad_new_has_one_button_per_key_in_canonical_order() {
    let kp = Keypad::new();
    assert_eq!(kp.buttons.len(), 12);
    for (i, k) in CANONICAL.iter().enumerate() {
        assert_eq!(kp.buttons[i].key, *k);
        assert!(!kp.buttons[i].depressed);
    }
    for k in CANONICAL {
        let count = kp.buttons.iter().filter(|b| b.key == k).count();
        assert_eq!(count, 1);
    }
}

#[test]
fn set_depressed_round_trip_restores_released_state() {
    let mut kp = Keypad::new();
    let before = kp.buttons.clone();
    kp.set_depressed(Key::Eight, true);
    assert!(kp.is_depressed(Key::Eight));
    kp.set_depressed(Key::Eight, false);
    assert_eq!(kp.buttons, before);
}

#[test]
fn set_depressed_is_idempotent() {
    let mut kp = Keypad::new();
    kp.set_depressed(Key::Asterisk, true);
    let once = kp.buttons.clone();
    kp.set_depressed(Key::Asterisk, true);
    assert_eq!(kp.buttons, once);
}

#[test]
fn set_depressed_leaves_other_keys_alone() {
    let mut kp = Keypad::new();
    kp.set_depressed(Key::Five, true);
    for b in &kp.buttons {
        if b.key == Key::Five {
            assert!(b.depressed);
        } else {
            assert!(!b.depressed);
        }
    }
}

#[test]
fn keypad_view_has_configured_panel_geometry() {
    let kp = Keypad::new();
    let v = kp.view();
    assert_eq!(v.bounds, Rect { x: 0, y: 0, width: 718, height: 720 });
    assert_eq!(kp.view_group_id(), Some(0));
}

#[test]
fn row_of_buttons_tiles_with_no_gaps() {
    let kp = Keypad::new();
    let views = kp.view().view_group();
    assert_eq!(views.len(), 12);
    // each button is a third of the display width minus the fixed margin
    for bv in &views {
        assert_eq!(bv.bounds.width, 720 / 3 - 8);
        assert_eq!(bv.bounds.height, 720 / 4);
    }
    // the three buttons of each row sit edge to edge
    for row in 0..4 {
        for col in 0..2 {
            let a = views[3 * row + col].bounds;
            let b = views[3 * row + col + 1].bounds;
            assert_eq!(a.x + a.width as i32, b.x);
            assert_eq!(a.y, b.y);
        }
        // and together they span exactly three button widths
        let first = views[3 * row].bounds;
        let last = views[3 * row + 2].bounds;
        assert_eq!(last.x + last.width as i32 - first.x, 3 * 232);
    }
}

#[test]
fn rows_stack_vertically_with_no_gaps() {
    let kp = Keypad::new();
    let views = kp.view().view_group();
    for i in 0..9 {
        let upper = views[i].bounds;
        let lower = views[i + 3].bounds;
        assert_eq!(upper.y + upper.height as i32, lower.y);
        assert_eq!(upper.x, lower.x);
    }
}

#[test]
fn block_is_centered_and_bottom_anchored_in_display() {
    let kp = Keypad::new();
    let display = Rect { x: 0, y: 0, width: 720, height: 1440 };
    let v = kp.view().align_bottom_center(display, 4);
    // panel: centered horizontally, its bottom edge the margin above the
    // display bottom
    assert_eq!(v.bounds, Rect { x: 1, y: 716, width: 718, height: 720 });
    let views = v.view_group();
    // equal margins left and right of the button block
    let left = views[0].bounds.x - display.x;
    let right_edge = views[2].bounds.x + views[2].bounds.width as i32;
    let right = display.x + display.width as i32 - right_edge;
    assert_eq!(left, right);
    // the bottom row ends the outer margin above the display bottom
    let bottom_row = views[9].bounds;
    assert_eq!(
        bottom_row.y + bottom_row.height as i32,
        display.y + display.height as i32 - 4
    );
}

#[test]
fn render_marks_exactly_the_depressed_button() {
    let mut kp = Keypad::new();
    kp.set_depressed(Key::Five, true);
    let mut v = kp.view();
    v.bounds = Rect { x: 0, y: 0, width: 720, height: 1440 };
    let cmds = v.draw();
    assert_eq!(cmds.len(), 25);
    // panel background first
    match cmds[0] {
        DrawCommand::FilledRect { bounds, fill, .. } => {
            assert_eq!(bounds, Rect { x: 0, y: 0, width: 720, height: 1440 });
            assert_eq!(fill, Rgb { r: 0, g: 0, b: 0 });
        }
        _ => panic!("expected the panel rectangle first"),
    }
    // key 5 sits at row 1, column 1: position 4 in canonical order
    for i in 0..12 {
        match cmds[1 + 2 * i] {
            DrawCommand::FilledRect { fill, .. } => {
                if i == 4 {
                    assert_eq!(fill, Rgb { r: 128, g: 128, b: 128 });
                } else {
                    assert_eq!(fill, Rgb { r: 255, g: 255, b: 255 });
                }
            }
            _ => panic!("expected a button rectangle"),
        }
        match cmds[2 + 2 * i] {
            DrawCommand::Label { glyph, background, .. } => {
                assert_eq!(glyph, CANONICAL[i].glyph_char());
                if i == 4 {
                    assert_eq!(background, Rgb { r: 128, g: 128, b: 128 });
                } else {
                    assert_eq!(background, Rgb { r: 255, g: 255, b: 255 });
                }
            }
            _ => panic!("expected a button label"),
        }
    }
}

#[test]
fn button_label_is_centered_in_its_cell() {
    let b = Button::new(Key::One);
    let v = b.view(Point { x: 100, y: 200 }, Size { width: 232, height: 180 });
    let cmds = v.draw();
    assert_eq!(cmds.len(), 2);
    match cmds[1] {
        DrawCommand::Label { top_left, glyph, .. } => {
            assert_eq!(top_left, Point { x: 100 + (232 - 24) / 2, y: 200 + (180 - 32) / 2 });
            assert_eq!(glyph, '1');
        }
        _ => panic!("expected the label second"),
    }
}

#[test]
fn press_inside_a_cell_toggles_exactly_that_key() {
    let mut kp = Keypad::new();
    let display = Rect { x: 0, y: 0, width: 720, height: 1440 };
    let v = kp.view().align_bottom_center(display, 4);
    let views = v.view_group();
    // a coordinate inside key 7's resolved rectangle
    let seven = views
        .iter()
        .find(|bv| bv.key == Key::Seven)
        .expect("key 7 laid out")
        .bounds;
    let p = Point { x: seven.x + seven.width as i32 / 2, y: seven.y + seven.height as i32 / 2 };
    assert_eq!(resolve(&views, p), Some(Key::Seven));
    kp.handle_touch_event(TouchEvent::Press(p), &views);
    for b in &kp.buttons {
        assert_eq!(b.depressed, b.key == Key::Seven);
    }
    kp.handle_touch_event(TouchEvent::Release(p), &views);
    for b in &kp.buttons {
        assert!(!b.depressed);
    }
}

#[test]
fn press_outside_all_cells_toggles_nothing() {
    let mut kp = Keypad::new();
    let display = Rect { x: 0, y: 0, width: 720, height: 1440 };
    let v = kp.view().align_bottom_center(display, 4);
    let views = v.view_group();
    let outside = Point { x: 0, y: 0 };
    assert_eq!(resolve(&views, outside), None);
    kp.handle_touch_event(TouchEvent::Press(outside), &views);
    for b in &kp.buttons {
        assert!(!b.depressed);
    }
}

#[test]
fn resolve_returns_first_hit_in_paint_order() {
    let views = vec![
        ButtonView {
            key: Key::One,
            depressed: false,
            bounds: Rect { x: 0, y: 0, width: 10, height: 10 },
        },
        ButtonView {
            key: Key::Two,
            depressed: false,
            bounds: Rect { x: 0, y: 0, width: 10, height: 10 },
        },
    ];
    assert_eq!(resolve(&views, Point { x: 5, y: 5 }), Some(Key::One));
    assert_eq!(resolve(&views, Point { x: 10, y: 5 }), None);
}

#[test]
fn rect_contains_half_open_ranges() {
    let r = Rect { x: 10, y: 20, width: 5, height: 5 };
    assert!(r.contains(Point { x: 10, y: 20 }));
    assert!(r.contains(Point { x: 14, y: 24 }));
    assert!(!r.contains(Point { x: 15, y: 24 }));
    assert!(!r.contains(Point { x: 14, y: 25 }));
    assert!(!r.contains(Point { x: 9, y: 20 }));
}

#[test]
fn rect_translate_moves_origin_only() {
    let r = Rect { x: 10, y: 20, width: 5, height: 6 };
    let t = r.translate(Point { x: -3, y: 4 });
    assert_eq!(t, Rect { x: 7, y: 24, width: 5, height: 6 });
}

#[test]
fn view_id_gen_counts_up_without_reuse() {
    let mut g = dialer::view_id_gen::ViewIdGen::new();
    assert_eq!(g.next(), 0);
    assert_eq!(g.next(), 1);
    assert_eq!(g.next(), 2);
}

#[test]
fn touch_event_reports_its_coordinate() {
    let p = Point { x: 3, y: 4 };
    assert_eq!(TouchEvent::Press(p).coordinate(), p);
    assert_eq!(TouchEvent::Release(p).coordinate(), p);
    assert_ne!(TouchEvent::Press(p), TouchEvent::Release(p));
}
