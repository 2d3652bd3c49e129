use vstd::prelude::*;

verus! {

/// A window rectangle in physical pixels, as the window manager reports it.
#[derive(Debug, Clone, Copy, PartialEq, Eq, Structural)]
pub struct Rect {
    pub top: i32,
    pub left: i32,
    pub width: i32,
    pub height: i32,
}

impl Rect {
    /// The rectangle at the origin with no extent.
    pub open spec fn zero() -> Rect {
        Rect { top: 0, left: 0, width: 0, height: 0 }
    }
}

impl Default for Rect {
    fn default() -> (r: Self)
        ensures
            r == Rect::zero(),
    {
        Rect { top: 0, left: 0, width: 0, height: 0 }
    }
}

} // verus!
