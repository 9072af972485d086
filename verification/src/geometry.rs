//! Screen rectangles and the overlap test between them.

use vstd::prelude::*;

verus! {

/// A screen rectangle in device pixels. `left`/`top` is the upper-left
/// corner; `right`/`bottom` is exclusive, as the window manager reports it.
#[derive(Clone, Copy, Debug, PartialEq, Eq, Structural)]
pub struct Rect {
    pub left: i32,
    pub top: i32,
    pub right: i32,
    pub bottom: i32,
}

impl Rect {
    /// The all-zero rectangle, used before any geometry has been computed.
    pub fn zeroed() -> (r: Rect)
        ensures
            r == (Rect { left: 0, top: 0, right: 0, bottom: 0 }),
    {
        Rect { left: 0, top: 0, right: 0, bottom: 0 }
    }
}

/// Two rectangles overlap when they share at least one interior point.
pub open spec fn rects_overlap(a: Rect, b: Rect) -> bool {
    a.left < b.right && b.left < a.right && a.top < b.bottom && b.top < a.bottom
}

/// Whether two on-screen rectangles intersect.
pub fn are_overlaped(a: &Rect, b: &Rect) -> (r: bool)
    ensures
        r == rects_overlap(*a, *b),
{
    a.left < b.right && b.left < a.right && a.top < b.bottom && b.top < a.bottom
}

} // verus!
