//! Window geometry: rectangles, sizes and the reasons a rectangle changes.

use vstd::prelude::*;

pub mod rect;
pub mod rect_reason;
pub mod size;

pub use rect::Rect;
pub use rect_reason::RectChangeReason;
pub use size::Size;

verus! {

/// A new window rectangle together with the reason it changed.
#[derive(Debug, Clone, Copy, PartialEq, Eq, Structural)]
pub struct ContentRect {
    pub reason: RectChangeReason,
    pub rect: Rect,
}

} // verus!
