//! Facts about single bits of a 32-bit mask, on which the flag sets rest.

use vstd::prelude::*;

verus! {

/// The mask that has only the bit at `position` set.
pub open spec fn spec_bit_at(position: u32) -> u32 {
    1u32 << position
}

/// Whether the bit at `position` is set in `mask`.
pub open spec fn spec_has_bit(mask: u32, position: u32) -> bool {
    mask & spec_bit_at(position) != 0
}

/// The mask that has only the bit at `position` set.
pub fn bit_at(position: u32) -> (r: u32)
    requires
        position < 32,
    ensures
        r == spec_bit_at(position),
        r != 0,
{
    assert((1u32 << position) != 0) by (bit_vector)
        requires
            position < 32,
    ;
    1u32 << position
}

/// Setting a bit sets that bit and leaves every other bit as it was.
pub proof fn lemma_set(mask: u32, position: u32, other: u32)
    requires
        position < 32,
        other < 32,
    ensures
        spec_has_bit(mask | spec_bit_at(position), other) == (other == position || spec_has_bit(
            mask,
            other,
        )),
{
    assert(((mask | (1u32 << position)) & (1u32 << other) != 0) == (other == position || (mask & (
    1u32 << other)) != 0)) by (bit_vector)
        requires
            position < 32,
            other < 32,
    ;
}

/// Clearing a bit clears that bit and leaves every other bit as it was.
pub proof fn lemma_clear(mask: u32, position: u32, other: u32)
    requires
        position < 32,
        other < 32,
    ensures
        spec_has_bit(mask & !spec_bit_at(position), other) == (other != position && spec_has_bit(
            mask,
            other,
        )),
{
    assert(((mask & !(1u32 << position)) & (1u32 << other) != 0) == (other != position && (mask
        & (1u32 << other)) != 0)) by (bit_vector)
        requires
            position < 32,
            other < 32,
    ;
}

/// No bit is set in the empty mask.
pub proof fn lemma_empty(other: u32)
    requires
        other < 32,
    ensures
        !spec_has_bit(0, other),
{
    assert((0u32 & (1u32 << other)) == 0) by (bit_vector);
}

/// The value of the bit at each of the first twelve positions.
pub proof fn lemma_bit_values()
    ensures
        spec_bit_at(0) == 0x001,
        spec_bit_at(1) == 0x002,
        spec_bit_at(2) == 0x004,
        spec_bit_at(3) == 0x008,
        spec_bit_at(4) == 0x010,
        spec_bit_at(5) == 0x020,
        spec_bit_at(6) == 0x040,
        spec_bit_at(7) == 0x080,
        spec_bit_at(8) == 0x100,
        spec_bit_at(9) == 0x200,
        spec_bit_at(10) == 0x400,
        spec_bit_at(11) == 0x800,
{
    assert(1u32 << 0u32 == 0x001 && 1u32 << 1u32 == 0x002 && 1u32 << 2u32 == 0x004 && 1u32 << 3u32
        == 0x008 && 1u32 << 4u32 == 0x010 && 1u32 << 5u32 == 0x020 && 1u32 << 6u32 == 0x040 && 1u32
        << 7u32 == 0x080 && 1u32 << 8u32 == 0x100 && 1u32 << 9u32 == 0x200 && 1u32 << 10u32
        == 0x400 && 1u32 << 11u32 == 0x800) by (bit_vector);
}

} // verus!
