//! The hooks through which an ability asks the system about its display.

use vstd::prelude::*;

verus! {

/// The hooks of an ability. They hold no state of their own.
#[derive(Debug, Clone, Copy, PartialEq, Eq, Structural)]
pub struct Hooks {}

impl Hooks {
    /// The hooks.
    pub fn new() -> (r: Hooks)
        ensures
            r == (Hooks {  }),
    {
        Hooks {  }
    }
}

impl Default for Hooks {
    fn default() -> (r: Hooks)
        ensures
            r == (Hooks {  }),
    {
        Hooks {  }
    }
}

} // verus!
