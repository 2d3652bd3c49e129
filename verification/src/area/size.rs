use vstd::prelude::*;

verus! {

/// The extent of a window or surface in physical pixels.
#[derive(Debug, Clone, Copy, PartialEq, Eq, Structural)]
pub struct Size {
    pub width: i32,
    pub height: i32,
}

} // verus!
