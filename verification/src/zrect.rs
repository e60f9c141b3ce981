//! Axis-aligned rectangles and z-prioritized region descriptors used by
//! the pointer hit test.

use vstd::prelude::*;

verus! {

/// An axis-aligned rectangle on the terminal grid.
///
/// A point `(px, py)` lies inside when `x <= px < x + width` and
/// `y <= py < y + height`, computed without wraparound.
#[derive(Clone, Copy, Debug, PartialEq, Eq, Structural)]
pub struct Rect {
    pub x: u16,
    pub y: u16,
    pub width: u16,
    pub height: u16,
}

/// A rectangle tagged with a z priority, used when a widget presents
/// more than one clickable region (e.g. a base widget plus a floating
/// popup drawn above other content). Higher `z` wins the hit test.
#[derive(Clone, Copy, Debug, PartialEq, Eq, Structural)]
pub struct ZRect {
    /// Priority: regions with a higher value take precedence.
    pub z: u16,
    /// The clickable region itself.
    pub rect: Rect,
}

impl Rect {
    /// The point `(px, py)` lies inside this rectangle.
    pub open spec fn spec_contains(self, px: int, py: int) -> bool {
        &&& self.x <= px < self.x + self.width
        &&& self.y <= py < self.y + self.height
    }

    /// Create a rectangle from its corner and extent.
    pub fn new(x: u16, y: u16, width: u16, height: u16) -> (r: Rect)
        ensures
            r == (Rect { x, y, width, height }),
    {
        Rect { x, y, width, height }
    }

    /// Point-in-rectangle test.
    pub fn contains(&self, px: u16, py: u16) -> (r: bool)
        ensures
            r == self.spec_contains(px as int, py as int),
    {
        px >= self.x && px - self.x < self.width && py >= self.y && py - self.y < self.height
    }
}

impl ZRect {
    /// Create a region descriptor from a priority and a rectangle.
    pub fn new(z: u16, rect: Rect) -> (r: ZRect)
        ensures
            r == (ZRect { z, rect }),
    {
        ZRect { z, rect }
    }
}

} // verus!
