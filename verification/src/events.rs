//! Touch input events and their resolution to widgets.

use vstd::prelude::*;
use crate::button::ButtonView;
use crate::geometry::Point;
use crate::key::Key;

verus! {

/// A discrete input event from the touch screen, in screen coordinates.
#[derive(Copy, Clone, Debug, PartialEq, Eq, Hash, Structural)]
pub enum TouchEvent {
    /// The pointer went down at a coordinate.
    Press(Point),
    /// The pointer went up at a coordinate.
    Release(Point),
}

/// A widget that consumes routed touch events.
pub trait TouchEventHandler {
    /// Reacts to one touch event.
    fn handle_touch_event(&mut self, event: TouchEvent);
}

impl TouchEvent {
    /// The screen coordinate the event happened at.
    pub open spec fn point(self) -> Point {
        match self {
            TouchEvent::Press(p) => p,
            TouchEvent::Release(p) => p,
        }
    }

    /// Whether the event presses (rather than releases).
    pub open spec fn is_press(self) -> bool {
        self matches TouchEvent::Press(_)
    }

    /// The event's coordinate, as a value.
    pub fn coordinate(&self) -> (p: Point)
        ensures
            p == self.point(),
    {
        match self {
            TouchEvent::Press(p) => *p,
            TouchEvent::Release(p) => *p,
        }
    }
}

/// Whether position `i` holds the first button view whose rectangle
/// contains `p`, in paint order.
pub open spec fn first_hit(views: Seq<ButtonView>, p: Point, i: int) -> bool {
    &&& 0 <= i < views.len()
    &&& views[i].bounds.contains_spec(p)
    &&& forall|j: int| 0 <= j < i ==> !(#[trigger] views[j]).bounds.contains_spec(p)
}

/// The key of the button under `p`, if any: the first match in paint
/// order. The views of one keypad layout do not overlap, so at most one
/// view matches there.
pub open spec fn resolved(views: Seq<ButtonView>, p: Point) -> Option<Key> {
    if exists|i: int| first_hit(views, p, i) {
        Some(views[choose|i: int| first_hit(views, p, i)].key)
    } else {
        None
    }
}

/// Resolves a touch coordinate against a frame's registry of placed
/// button views: the key of the first view containing it, or `None`
/// when the coordinate lies outside every button rectangle.
pub fn resolve(views: &Vec<ButtonView>, p: Point) -> (r: Option<Key>)
    ensures
        r == resolved(views@, p),
{
    let n = views.len();
    let mut i: usize = 0;
    while i < n
        invariant
            n == views@.len(),
            i <= n,
            forall|j: int| 0 <= j < i ==> !(#[trigger] views@[j]).bounds.contains_spec(p),
        decreases n - i,
    {
        if views[i].bounds().contains(p) {
            proof {
                assert(first_hit(views@, p, i as int));
                let w = choose|k: int| first_hit(views@, p, k);
                assert(first_hit(views@, p, w));
                if w < i as int {
                    assert(!views@[w].bounds.contains_spec(p));
                }
                if w > i as int {
                    assert(!views@[i as int].bounds.contains_spec(p));
                }
                assert(w == i as int);
            }
            return Some(views[i].key);
        }
        i = i + 1;
    }
    proof {
        assert forall|k: int| !first_hit(views@, p, k) by {
            if 0 <= k < views@.len() {
                assert(!views@[k].bounds.contains_spec(p));
            }
        }
    }
    None
}

} // verus!
