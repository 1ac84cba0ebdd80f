//! Components that are wider than the calendar library takes them.
//!
//! The ISO 8601 side holds every component in 32 bits; the calendar library
//! takes most in eight and two in sixteen. A component that does not fit is
//! handed over as the largest value that does, which is out of range for
//! every component, so that the library refuses it as it would have refused
//! the component itself.

use vstd::prelude::*;

verus! {

/// `value` as it is handed to the calendar library where that takes eight
/// bits: unchanged if it fits, else the largest value of eight bits, which is
/// no month, day, week, hour, minute or second.
pub open spec fn clipped_u8(value: u32) -> u8 {
    if value > u8::MAX {
        u8::MAX
    } else {
        value as u8
    }
}

/// `value` as it is handed to the calendar library where that takes sixteen
/// bits: unchanged if it fits, else the largest value of sixteen bits, which
/// is no day of the year and no millisecond.
pub open spec fn clipped_u16(value: u32) -> u16 {
    if value > u16::MAX {
        u16::MAX
    } else {
        value as u16
    }
}

/// `value` as it is handed over where eight bits are taken.
pub(crate) fn clip_u8(value: u32) -> (r: u8)
    ensures
        r == clipped_u8(value),
{
    if value > 255 {
        u8::MAX
    } else {
        value as u8
    }
}

/// `value` as it is handed over where sixteen bits are taken.
pub(crate) fn clip_u16(value: u32) -> (r: u16)
    ensures
        r == clipped_u16(value),
{
    if value > 65_535 {
        u16::MAX
    } else {
        value as u16
    }
}

} // verus!
