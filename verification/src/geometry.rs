//! The plain records that the layout reads and writes.

use vstd::prelude::*;

verus! {

/// Whether a measure can be held in a 32-bit pixel value.
pub open spec fn is_pixel(v: int) -> bool {
    i32::MIN <= v <= i32::MAX
}

/// Whether the half-open ranges `[a, a + la)` and `[b, b + lb)` share a point.
pub open spec fn overlaps(a: int, la: int, b: int, lb: int) -> bool {
    a < b + lb && b < a + la && a < a + la && b < b + lb
}

/// One child of a container: a stable identifier, a position and a size.
///
/// The identifier stands for the identity of the element. It is given to a
/// child when the child is made and never changes; position and size do.
#[derive(Clone, Copy, Debug, PartialEq, Eq, Structural)]
pub struct Child {
    pub id: u64,
    pub x: i32,
    pub y: i32,
    pub w: i32,
    pub h: i32,
}

/// A rectangle in pixels.
#[derive(Clone, Copy, Debug, PartialEq, Eq, Structural)]
pub struct Rect {
    pub x: i32,
    pub y: i32,
    pub w: i32,
    pub h: i32,
}

impl Child {
    /// Whether neither measure of the child's size is negative.
    pub open spec fn sized(self) -> bool {
        self.w >= 0 && self.h >= 0
    }
}

} // verus!
