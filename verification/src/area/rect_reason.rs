use vstd::prelude::*;
use vstd::std_specs::convert::FromSpecImpl;

verus! {

/// Why the window manager changed the window rectangle.
#[derive(Debug, Clone, Copy, PartialEq, Eq, Structural)]
pub enum RectChangeReason {
    Undefined,
    Maximize,
    Recover,
    Move,
    Drag,
    DragStart,
    DragEnd,
}

impl RectChangeReason {
    /// The number the host uses for this reason.
    pub open spec fn spec_code(self) -> int {
        match self {
            RectChangeReason::Undefined => 0,
            RectChangeReason::Maximize => 1,
            RectChangeReason::Recover => 2,
            RectChangeReason::Move => 3,
            RectChangeReason::Drag => 4,
            RectChangeReason::DragStart => 5,
            RectChangeReason::DragEnd => 6,
        }
    }

    /// The reason a host number stands for; every number the host does not
    /// define reads as `Undefined`.
    pub open spec fn of_code(value: int) -> RectChangeReason {
        if value == 1 {
            RectChangeReason::Maximize
        } else if value == 2 {
            RectChangeReason::Recover
        } else if value == 3 {
            RectChangeReason::Move
        } else if value == 4 {
            RectChangeReason::Drag
        } else if value == 5 {
            RectChangeReason::DragStart
        } else if value == 6 {
            RectChangeReason::DragEnd
        } else {
            RectChangeReason::Undefined
        }
    }

    /// The number the host uses for this reason.
    pub fn code(&self) -> (c: i32)
        ensures
            c == self.spec_code(),
    {
        match self {
            RectChangeReason::Undefined => 0,
            RectChangeReason::Maximize => 1,
            RectChangeReason::Recover => 2,
            RectChangeReason::Move => 3,
            RectChangeReason::Drag => 4,
            RectChangeReason::DragStart => 5,
            RectChangeReason::DragEnd => 6,
        }
    }

    /// Reading back the number of a reason gives that reason again.
    pub proof fn lemma_code_round_trip(reason: RectChangeReason)
        ensures
            RectChangeReason::of_code(reason.spec_code()) == reason,
            0 <= reason.spec_code() <= 6,
    {
    }

    /// A number in the host's range survives the trip through a reason; any
    /// other number comes back as 0.
    pub proof fn lemma_of_code_code(value: int)
        ensures
            RectChangeReason::of_code(value).spec_code() == if 0 <= value <= 6 {
                value
            } else {
                0
            },
    {
    }
}

impl FromSpecImpl<i32> for RectChangeReason {
    open spec fn obeys_from_spec() -> bool {
        true
    }

    open spec fn from_spec(value: i32) -> RectChangeReason {
        RectChangeReason::of_code(value as int)
    }
}

impl From<i32> for RectChangeReason {
    fn from(value: i32) -> (r: RectChangeReason) {
        match value {
            1 => RectChangeReason::Maximize,
            2 => RectChangeReason::Recover,
            3 => RectChangeReason::Move,
            4 => RectChangeReason::Drag,
            5 => RectChangeReason::DragStart,
            6 => RectChangeReason::DragEnd,
            _ => RectChangeReason::Undefined,
        }
    }
}

} // verus!
