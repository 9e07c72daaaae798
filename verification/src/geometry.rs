//! Integer screen geometry: points, sizes and axis-aligned rectangles.

use vstd::prelude::*;

verus! {

/// A pixel position on the display, in screen coordinates.
#[derive(Copy, Clone, Debug, PartialEq, Eq, Hash, Structural)]
pub struct Point {
    pub x: i32,
    pub y: i32,
}

/// A width and height in pixels.
#[derive(Copy, Clone, Debug, PartialEq, Eq, Hash, Structural)]
pub struct Size {
    pub width: u32,
    pub height: u32,
}

/// An axis-aligned rectangle: a top-left corner and a size.
///
/// The rectangle covers the half-open pixel ranges
/// `[x, x + width)` by `[y, y + height)`.
#[derive(Copy, Clone, Debug, PartialEq, Eq, Hash, Structural)]
pub struct Rect {
    pub x: i32,
    pub y: i32,
    pub width: u32,
    pub height: u32,
}

/// The bounds an inner rectangle of the given size takes when centered
/// horizontally in `area` and anchored to the bottom edge, `margin`
/// pixels above it.
pub open spec fn aligned_bounds(inner: Rect, area: Rect, margin: u32) -> Rect {
    Rect {
        x: (area.x + (area.width - inner.width) / 2) as i32,
        y: (area.y + area.height - margin - inner.height) as i32,
        ..inner
    }
}

impl Point {
    /// The origin, `(0, 0)`.
    pub fn zero() -> (p: Point)
        ensures
            p == (Point { x: 0, y: 0 }),
    {
        Point { x: 0, y: 0 }
    }
}

impl Rect {
    /// The column just right of the rectangle's rightmost pixel column.
    pub open spec fn right(self) -> int {
        self.x + self.width
    }

    /// The row just below the rectangle's bottom pixel row.
    pub open spec fn bottom(self) -> int {
        self.y + self.height
    }

    /// Whether a point lies inside the rectangle.
    pub open spec fn contains_spec(self, p: Point) -> bool {
        self.x <= p.x < self.right() && self.y <= p.y < self.bottom()
    }

    /// Builds a rectangle from its top-left corner and its size.
    pub fn with_size(position: Point, size: Size) -> (r: Rect)
        ensures
            r == (Rect { x: position.x, y: position.y, width: size.width, height: size.height }),
    {
        Rect { x: position.x, y: position.y, width: size.width, height: size.height }
    }

    /// Point-in-rectangle test over the half-open pixel ranges.
    pub fn contains(&self, p: Point) -> (r: bool)
        ensures
            r == self.contains_spec(p),
    {
        let x = self.x as i64;
        let y = self.y as i64;
        let px = p.x as i64;
        let py = p.y as i64;
        x <= px && px < x + self.width as i64 && y <= py && py < y + self.height as i64
    }

    /// The rectangle moved by an offset, its size unchanged.
    pub open spec fn translate_spec(self, by: Point) -> Rect {
        Rect { x: (self.x + by.x) as i32, y: (self.y + by.y) as i32, ..self }
    }

    /// Moves the rectangle by an offset, leaving its size unchanged.
    pub fn translate(&self, by: Point) -> (r: Rect)
        requires
            i32::MIN <= self.x + by.x <= i32::MAX,
            i32::MIN <= self.y + by.y <= i32::MAX,
        ensures
            r == self.translate_spec(by),
    {
        Rect { x: self.x + by.x, y: self.y + by.y, width: self.width, height: self.height }
    }
}

} // verus!
