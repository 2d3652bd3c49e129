use vstd::prelude::*;

verus! {

/// A change in how the window stage is shown, as the window manager numbers
/// it.
#[derive(Debug, Clone, Copy, PartialEq, Eq, Structural)]
pub enum StageEventType {
    Shown,
    Active,
    Inactive,
    Hidden,
    Resumed,
    Paused,
}

impl StageEventType {
    /// Whether the host defines a stage event with this number.
    pub open spec fn defined(value: int) -> bool {
        1 <= value <= 6
    }

    /// The number the host uses for this stage event.
    pub open spec fn spec_code(self) -> int {
        match self {
            StageEventType::Shown => 1,
            StageEventType::Active => 2,
            StageEventType::Inactive => 3,
            StageEventType::Hidden => 4,
            StageEventType::Resumed => 5,
            StageEventType::Paused => 6,
        }
    }

    /// The stage event a host number stands for. Only the numbers 1 to 6
    /// stand for one.
    pub open spec fn of_code(value: int) -> StageEventType
        recommends
            StageEventType::defined(value),
    {
        if value == 1 {
            StageEventType::Shown
        } else if value == 2 {
            StageEventType::Active
        } else if value == 3 {
            StageEventType::Inactive
        } else if value == 4 {
            StageEventType::Hidden
        } else if value == 5 {
            StageEventType::Resumed
        } else {
            StageEventType::Paused
        }
    }

    /// Whether the host defines a stage event with this number.
    pub fn is_defined(value: i32) -> (r: bool)
        ensures
            r == StageEventType::defined(value as int),
    {
        1 <= value && value <= 6
    }

    /// The number the host uses for this stage event.
    pub fn code(&self) -> (c: i32)
        ensures
            c == self.spec_code(),
            StageEventType::defined(c as int),
    {
        match self {
            StageEventType::Shown => 1,
            StageEventType::Active => 2,
            StageEventType::Inactive => 3,
            StageEventType::Hidden => 4,
            StageEventType::Resumed => 5,
            StageEventType::Paused => 6,
        }
    }

    /// The stage event that a host number stands for. The host sends only the
    /// numbers 1 to 6; no other number has a meaning.
    pub fn from(value: i32) -> (r: StageEventType)
        requires
            StageEventType::defined(value as int),
        ensures
            r == StageEventType::of_code(value as int),
            r.spec_code() == value,
    {
        if value == 1 {
            StageEventType::Shown
        } else if value == 2 {
            StageEventType::Active
        } else if value == 3 {
            StageEventType::Inactive
        } else if value == 4 {
            StageEventType::Hidden
        } else if value == 5 {
            StageEventType::Resumed
        } else {
            StageEventType::Paused
        }
    }

    /// Reading back the number of a stage event gives that event again.
    pub proof fn lemma_code_round_trip(event: StageEventType)
        ensures
            StageEventType::defined(event.spec_code()),
            StageEventType::of_code(event.spec_code()) == event,
    {
    }
}

} // verus!
