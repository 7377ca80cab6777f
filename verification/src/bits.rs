//! Single-bit reads and updates on a 32-bit register pattern.

use vstd::prelude::*;

verus! {

/// True when the bit at `position` of `value` is 1.
pub open spec fn spec_get_bit(value: u32, position: u32) -> bool
    recommends
        position < 32,
{
    (value >> position) & 1u32 == 1u32
}

/// `value` with the bit at `position` forced to `flag`; every other bit kept.
pub open spec fn spec_set_bit(value: u32, position: u32, flag: bool) -> u32
    recommends
        position < 32,
{
    if flag {
        value | (1u32 << position)
    } else {
        value & !(1u32 << position)
    }
}

/// Reads one bit of a register pattern.
pub fn get_bit(value: u32, position: u8) -> (r: bool)
    requires
        position < 32,
    ensures
        r == spec_get_bit(value, position as u32),
{
    (value >> (position as u32)) & 1u32 == 1u32
}

/// Returns `value` with the bit at `position` set when `flag` is true and
/// cleared when it is false, leaving all other bits as they were.
pub fn set_bit(value: u32, position: u8, flag: bool) -> (r: u32)
    requires
        position < 32,
    ensures
        r == spec_set_bit(value, position as u32, flag),
{
    if flag {
        value | (1u32 << (position as u32))
    } else {
        value & !(1u32 << (position as u32))
    }
}

/// Writing a bit and reading the same position gives back the written flag.
pub proof fn lemma_get_bit_of_set_bit(value: u32, position: u32, flag: bool)
    requires
        position < 32,
    ensures
        spec_get_bit(spec_set_bit(value, position, flag), position) == flag,
{
    assert(spec_get_bit(spec_set_bit(value, position, flag), position) == flag)
        by (bit_vector)
        requires
            position < 32,
    ;
}

/// Writing a bit leaves every other position as it was.
pub proof fn lemma_set_bit_preserves_others(value: u32, position: u32, flag: bool, other: u32)
    requires
        position < 32,
        other < 32,
        other != position,
    ensures
        spec_get_bit(spec_set_bit(value, position, flag), other) == spec_get_bit(value, other),
{
    assert(spec_get_bit(spec_set_bit(value, position, flag), other) == spec_get_bit(value, other))
        by (bit_vector)
        requires
            position < 32,
            other < 32,
            other != position,
    ;
}

/// Writing the same bit twice with the same flag is the same as writing it
/// once.
pub proof fn lemma_set_bit_idempotent(value: u32, position: u32, flag: bool)
    requires
        position < 32,
    ensures
        spec_set_bit(spec_set_bit(value, position, flag), position, flag)
            == spec_set_bit(value, position, flag),
{
    assert(spec_set_bit(spec_set_bit(value, position, flag), position, flag)
        == spec_set_bit(value, position, flag))
        by (bit_vector)
        requires
            position < 32,
    ;
}

} // verus!
