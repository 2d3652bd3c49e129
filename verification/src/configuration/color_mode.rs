use vstd::prelude::*;
use vstd::std_specs::convert::FromSpecImpl;

verus! {

/// The colour scheme the system asks applications to use.
#[derive(Debug, Clone, Copy, PartialEq, Eq, Structural)]
pub enum ColorMode {
    NoSet,
    Dark,
    Light,
}

impl ColorMode {
    /// The number the host uses for this mode.
    pub open spec fn spec_code(self) -> int {
        match self {
            ColorMode::NoSet => -1,
            ColorMode::Dark => 0,
            ColorMode::Light => 1,
        }
    }

    /// The mode a host number stands for; every number but 0 and 1 reads as
    /// `NoSet`.
    pub open spec fn of_code(value: int) -> ColorMode {
        if value == 0 {
            ColorMode::Dark
        } else if value == 1 {
            ColorMode::Light
        } else {
            ColorMode::NoSet
        }
    }

    /// The number the host uses for this mode.
    pub fn code(&self) -> (c: i32)
        ensures
            c == self.spec_code(),
    {
        match self {
            ColorMode::NoSet => -1,
            ColorMode::Dark => 0,
            ColorMode::Light => 1,
        }
    }

    /// Reading back the number of a mode gives that mode again.
    pub proof fn lemma_code_round_trip(mode: ColorMode)
        ensures
            ColorMode::of_code(mode.spec_code()) == mode,
    {
    }
}

impl FromSpecImpl<i32> for ColorMode {
    open spec fn obeys_from_spec() -> bool {
        true
    }

    open spec fn from_spec(value: i32) -> ColorMode {
        ColorMode::of_code(value as int)
    }
}

impl From<i32> for ColorMode {
    fn from(value: i32) -> (r: ColorMode) {
        match value {
            0 => ColorMode::Dark,
            1 => ColorMode::Light,
            _ => ColorMode::NoSet,
        }
    }
}

} // verus!
