//! Small bit-manipulation helpers shared by the timing cores.

use vstd::prelude::*;

verus! {

/// True when bit `i` of `value` is set.
pub open spec fn spec_bit_u8(value: u8, i: u8) -> bool {
    value & (1u8 << i) != 0
}

/// Extracts bit `i` of an 8-bit value.
pub fn bit_u8(value: u8, i: u8) -> (r: bool)
    requires
        i < 8,
    ensures
        r == spec_bit_u8(value, i),
{
    value & (1u8 << i) != 0
}

/// True when bit `i` of `value` is set.
pub open spec fn spec_bit_u16(value: u16, i: u16) -> bool {
    value & (1u16 << i) != 0
}

/// Extracts bit `i` of a 16-bit value.
pub fn bit_u16(value: u16, i: u16) -> (r: bool)
    requires
        i < 16,
    ensures
        r == spec_bit_u16(value, i),
{
    value & (1u16 << i) != 0
}

} // verus!
