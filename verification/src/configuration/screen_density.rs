use vstd::prelude::*;
use vstd::std_specs::convert::FromSpecImpl;

verus! {

/// The pixel density class of the screen, named by its dots per inch.
#[derive(Debug, Clone, Copy, PartialEq, Eq, Structural)]
pub enum ScreenDensity {
    NoSet,
    SDPI,
    MDPI,
    LDPI,
    XLDPI,
    XXLDPI,
    XXXLDPI,
}

impl ScreenDensity {
    /// The dots per inch of this class, 0 where none is set.
    pub open spec fn spec_code(self) -> int {
        match self {
            ScreenDensity::NoSet => 0,
            ScreenDensity::SDPI => 120,
            ScreenDensity::MDPI => 160,
            ScreenDensity::LDPI => 240,
            ScreenDensity::XLDPI => 320,
            ScreenDensity::XXLDPI => 480,
            ScreenDensity::XXXLDPI => 640,
        }
    }

    /// The class a host number stands for; every number that is not one of
    /// the six densities reads as `NoSet`.
    pub open spec fn of_code(value: int) -> ScreenDensity {
        if value == 120 {
            ScreenDensity::SDPI
        } else if value == 160 {
            ScreenDensity::MDPI
        } else if value == 240 {
            ScreenDensity::LDPI
        } else if value == 320 {
            ScreenDensity::XLDPI
        } else if value == 480 {
            ScreenDensity::XXLDPI
        } else if value == 640 {
            ScreenDensity::XXXLDPI
        } else {
            ScreenDensity::NoSet
        }
    }

    /// The dots per inch of this class, 0 where none is set.
    pub fn code(&self) -> (c: i32)
        ensures
            c == self.spec_code(),
    {
        match self {
            ScreenDensity::NoSet => 0,
            ScreenDensity::SDPI => 120,
            ScreenDensity::MDPI => 160,
            ScreenDensity::LDPI => 240,
            ScreenDensity::XLDPI => 320,
            ScreenDensity::XXLDPI => 480,
            ScreenDensity::XXXLDPI => 640,
        }
    }

    /// Reading back the number of a class gives that class again.
    pub proof fn lemma_code_round_trip(density: ScreenDensity)
        ensures
            ScreenDensity::of_code(density.spec_code()) == density,
    {
    }
}

impl FromSpecImpl<i32> for ScreenDensity {
    open spec fn obeys_from_spec() -> bool {
        true
    }

    open spec fn from_spec(value: i32) -> ScreenDensity {
        ScreenDensity::of_code(value as int)
    }
}

impl From<i32> for ScreenDensity {
    fn from(value: i32) -> (r: ScreenDensity) {
        match value {
            120 => ScreenDensity::SDPI,
            160 => ScreenDensity::MDPI,
            240 => ScreenDensity::LDPI,
            320 => ScreenDensity::XLDPI,
            480 => ScreenDensity::XXLDPI,
            640 => ScreenDensity::XXXLDPI,
            _ => ScreenDensity::NoSet,
        }
    }
}

} // verus!
