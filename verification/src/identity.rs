//! Abilities are told apart, and ordered, by their numbers alone.

use crate::app::OpenHarmonyAppInner;
use core::cmp::Ordering;
use vstd::prelude::*;
use vstd::std_specs::cmp::{PartialEqSpecImpl, PartialOrdSpecImpl};

verus! {

/// How the first number stands to the second.
pub open spec fn id_order(first: i64, second: i64) -> Ordering {
    if first < second {
        Ordering::Less
    } else if first == second {
        Ordering::Equal
    } else {
        Ordering::Greater
    }
}

impl PartialEqSpecImpl for OpenHarmonyAppInner {
    open spec fn obeys_eq_spec() -> bool {
        true
    }

    open spec fn eq_spec(&self, other: &OpenHarmonyAppInner) -> bool {
        self@.id == other@.id
    }
}

impl PartialEq for OpenHarmonyAppInner {
    /// Two records are the same ability where their numbers are equal.
    fn eq(&self, other: &OpenHarmonyAppInner) -> (r: bool) {
        self.id() == other.id()
    }
}

impl PartialOrdSpecImpl for OpenHarmonyAppInner {
    open spec fn obeys_partial_cmp_spec() -> bool {
        true
    }

    open spec fn partial_cmp_spec(&self, other: &OpenHarmonyAppInner) -> Option<Ordering> {
        Some(id_order(self@.id, other@.id))
    }
}

impl PartialOrd for OpenHarmonyAppInner {
    /// Records are ordered as their numbers are.
    fn partial_cmp(&self, other: &OpenHarmonyAppInner) -> (r: Option<Ordering>) {
        let first = self.id();
        let second = other.id();
        if first < second {
            Some(Ordering::Less)
        } else if first == second {
            Some(Ordering::Equal)
        } else {
            Some(Ordering::Greater)
        }
    }
}

} // verus!
