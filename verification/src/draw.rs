//! Frame timing.

use vstd::prelude::*;

verus! {

/// When a frame was requested and when it is due to be shown, both in
/// nanoseconds on the display's clock.
#[derive(Debug, Clone, Copy, PartialEq, Eq, Structural)]
pub struct IntervalInfo {
    pub time_stamp: i64,
    pub target_time_stamp: i64,
}

/// The signed 64-bit number with the same bits as `value`, seen as an
/// unsigned 64-bit number.
pub open spec fn signed_64(value: int) -> int {
    if value < 0x8000_0000_0000_0000 {
        value
    } else {
        value - 0x1_0000_0000_0000_0000
    }
}

/// The signed 32-bit number whose bits are the low 32 bits of `value`.
pub open spec fn low_signed_32(value: int) -> int {
    let low = value % 0x1_0000_0000;
    if low < 0x8000_0000 {
        low
    } else {
        low - 0x1_0000_0000
    }
}

/// Reading 64 bits as a signed number gives a number that fits in 64 signed
/// bits and differs from the unsigned one by nothing or by two to the 64th.
pub proof fn lemma_signed_64(value: int)
    requires
        0 <= value < 0x1_0000_0000_0000_0000,
    ensures
        -0x8000_0000_0000_0000 <= signed_64(value) < 0x8000_0000_0000_0000,
        signed_64(value) == value || signed_64(value) == value - 0x1_0000_0000_0000_0000,
        signed_64(value) >= 0 ==> signed_64(value) == value,
{
}

/// The low 32 bits read as a signed number fit in 32 signed bits and differ
/// from the number by a multiple of two to the 32nd; a number that fits in 31
/// bits stays as it is.
pub proof fn lemma_low_signed_32(value: int)
    requires
        0 <= value,
    ensures
        -0x8000_0000 <= low_signed_32(value) < 0x8000_0000,
        (value - low_signed_32(value)) % 0x1_0000_0000 == 0,
        value < 0x8000_0000 ==> low_signed_32(value) == value,
{
    let low = value % 0x1_0000_0000;
    assert(value == 0x1_0000_0000 * (value / 0x1_0000_0000) + low) by (nonlinear_arith)
        requires
            low == value % 0x1_0000_0000,
    ;
    if low < 0x8000_0000 {
        assert((0x1_0000_0000 * (value / 0x1_0000_0000)) % 0x1_0000_0000 == 0) by (nonlinear_arith);
    } else {
        assert((0x1_0000_0000 * (value / 0x1_0000_0000 + 1)) % 0x1_0000_0000 == 0)
            by (nonlinear_arith);
        assert(value - (low - 0x1_0000_0000) == 0x1_0000_0000 * (value / 0x1_0000_0000 + 1))
            by (nonlinear_arith)
            requires
                value == 0x1_0000_0000 * (value / 0x1_0000_0000) + low,
        ;
    }
}

/// Reads an unsigned 64-bit clock value as a signed one, bit for bit.
pub fn reinterpret_i64(value: u64) -> (r: i64)
    ensures
        r == signed_64(value as int),
{
    if value < 0x8000_0000_0000_0000 {
        value as i64
    } else {
        let low: u64 = value - 0x8000_0000_0000_0000;
        (low as i64) + i64::MIN
    }
}

/// Keeps the low 32 bits of an unsigned 64-bit extent and reads them as a
/// signed number.
pub fn truncate_i32(value: u64) -> (r: i32)
    ensures
        r == low_signed_32(value as int),
        value < 0x8000_0000 ==> r == value,
{
    let low: u64 = value % 0x1_0000_0000;
    if low < 0x8000_0000 {
        low as i32
    } else {
        let wide: i64 = low as i64 - 0x1_0000_0000;
        wide as i32
    }
}

} // verus!
