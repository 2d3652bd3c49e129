use vstd::prelude::*;
use vstd::std_specs::convert::FromSpecImpl;

verus! {

/// The orientation of the screen.
#[derive(Debug, Clone, Copy, PartialEq, Eq, Structural)]
pub enum Direction {
    NoSet,
    Vertical,
    Horizontal,
}

impl Direction {
    /// The number the host uses for this orientation.
    pub open spec fn spec_code(self) -> int {
        match self {
            Direction::NoSet => -1,
            Direction::Vertical => 0,
            Direction::Horizontal => 1,
        }
    }

    /// The orientation a host number stands for; every number but 0 and 1
    /// reads as `NoSet`.
    pub open spec fn of_code(value: int) -> Direction {
        if value == 0 {
            Direction::Vertical
        } else if value == 1 {
            Direction::Horizontal
        } else {
            Direction::NoSet
        }
    }

    /// The number the host uses for this orientation.
    pub fn code(&self) -> (c: i32)
        ensures
            c == self.spec_code(),
    {
        match self {
            Direction::NoSet => -1,
            Direction::Vertical => 0,
            Direction::Horizontal => 1,
        }
    }

    /// Reading back the number of an orientation gives that orientation again.
    pub proof fn lemma_code_round_trip(direction: Direction)
        ensures
            Direction::of_code(direction.spec_code()) == direction,
    {
    }
}

impl FromSpecImpl<i32> for Direction {
    open spec fn obeys_from_spec() -> bool {
        true
    }

    open spec fn from_spec(value: i32) -> Direction {
        Direction::of_code(value as int)
    }
}

impl From<i32> for Direction {
    fn from(value: i32) -> (r: Direction) {
        match value {
            0 => Direction::Vertical,
            1 => Direction::Horizontal,
            _ => Direction::NoSet,
        }
    }
}

} // verus!
