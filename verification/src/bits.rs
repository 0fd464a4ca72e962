//! Helpers to get and set individual bits and bit-fields in bytes.

use vstd::prelude::*;

verus! {

/// Bit `idx` of `byte`, as a boolean.
pub open spec fn spec_bit_of(byte: u8, idx: u8) -> bool {
    (byte >> idx) & 1 == 1
}

/// `byte` with bit `idx` forced to `value` and all other bits kept.
pub open spec fn spec_with_bit(byte: u8, idx: u8, value: bool) -> u8 {
    if value {
        byte | (1u8 << idx)
    } else {
        byte & !(1u8 << idx)
    }
}

/// Reads bit `idx` of `byte`.
pub fn bit_of(byte: u8, idx: u8) -> (r: bool)
    requires
        idx < 8,
    ensures
        r == spec_bit_of(byte, idx),
{
    (byte >> idx) & 1 == 1
}

/// Returns `byte` with bit `idx` forced to `value`.
pub fn with_bit(byte: u8, idx: u8, value: bool) -> (r: u8)
    requires
        idx < 8,
    ensures
        r == spec_with_bit(byte, idx, value),
{
    if value {
        byte | (1u8 << idx)
    } else {
        byte & !(1u8 << idx)
    }
}

/// A bit such as `spec_with_bit` wrote it reads back unchanged, and the other
/// bits of the byte are untouched.
pub proof fn lemma_with_bit_of(byte: u8, idx: u8, value: bool)
    requires
        idx < 8,
    ensures
        spec_bit_of(spec_with_bit(byte, idx, value), idx) == value,
        forall|j: u8| j < 8 && j != idx ==> spec_bit_of(spec_with_bit(byte, idx, value), j)
            == spec_bit_of(byte, j),
{
    assert(spec_bit_of(spec_with_bit(byte, idx, value), idx) == value) by (bit_vector)
        requires idx < 8,
    ;
    assert forall|j: u8| j < 8 && j != idx implies spec_bit_of(spec_with_bit(byte, idx, value), j)
        == spec_bit_of(byte, j) by {
        assert(spec_bit_of(spec_with_bit(byte, idx, value), j) == spec_bit_of(byte, j))
            by (bit_vector)
            requires idx < 8, j < 8, j != idx,
        ;
    }
}

} // verus!
