use vstd::prelude::*;

verus! {

/// Whether the soft keyboard is on screen, as the input method reports it.
#[derive(Debug, Clone, Copy, PartialEq, Eq, Structural)]
pub enum KeyboardStatus {
    /// The input method has reported no status.
    Unset,
    Hide,
    Show,
}

impl KeyboardStatus {
    /// Whether the input method defines a status with this number.
    pub open spec fn defined(value: int) -> bool {
        0 <= value <= 2
    }

    /// The number the input method uses for this status.
    pub open spec fn spec_code(self) -> int {
        match self {
            KeyboardStatus::Unset => 0,
            KeyboardStatus::Hide => 1,
            KeyboardStatus::Show => 2,
        }
    }

    /// The status a number of the input method stands for. Only 0, 1 and 2
    /// stand for one.
    pub open spec fn of_code(value: int) -> KeyboardStatus
        recommends
            KeyboardStatus::defined(value),
    {
        if value == 0 {
            KeyboardStatus::Unset
        } else if value == 1 {
            KeyboardStatus::Hide
        } else {
            KeyboardStatus::Show
        }
    }

    /// Whether the input method defines a status with this number.
    pub fn is_defined(value: u32) -> (r: bool)
        ensures
            r == KeyboardStatus::defined(value as int),
    {
        value <= 2
    }

    /// The number the input method uses for this status.
    pub fn code(&self) -> (c: u32)
        ensures
            c == self.spec_code(),
    {
        match self {
            KeyboardStatus::Unset => 0,
            KeyboardStatus::Hide => 1,
            KeyboardStatus::Show => 2,
        }
    }

    /// The status that a number of the input method stands for. The input
    /// method sends only 0, 1 and 2.
    pub fn from(value: u32) -> (r: KeyboardStatus)
        requires
            KeyboardStatus::defined(value as int),
        ensures
            r == KeyboardStatus::of_code(value as int),
            r.spec_code() == value,
    {
        if value == 0 {
            KeyboardStatus::Unset
        } else if value == 1 {
            KeyboardStatus::Hide
        } else {
            KeyboardStatus::Show
        }
    }
}

} // verus!
