//! Shifts as arithmetic.
use crate::mos6502::machine::wrap8;
use vstd::prelude::*;

verus! {

/// A shift left by one doubles, modulo 256.
pub proof fn lemma_shift_left(value: u8)
    ensures
        value << 1 == wrap8(value * 2),
{
    assert(value << 1 == (value & 0x7f) * 2) by (bit_vector);
    assert(value & 0x7f == value % 0x80) by (bit_vector);
}

/// A shift right by one halves.
pub proof fn lemma_shift_right(value: u8)
    ensures
        value >> 1 == value / 2,
{
    assert(value >> 1 == value / 2) by (bit_vector);
}

/// A one shifted in from the right adds one.
pub proof fn lemma_rotate_left(value: u8)
    ensures
        (value << 1) | 1 == wrap8(value * 2 + 1),
{
    lemma_shift_left(value);
    assert((value << 1) | 1 == (value & 0x7f) * 2 + 1) by (bit_vector);
    assert(value & 0x7f == value % 0x80) by (bit_vector);
}

/// A one shifted in from the left adds 128.
pub proof fn lemma_rotate_right(value: u8)
    ensures
        (value >> 1) | 0x80 == value / 2 + 0x80,
{
    assert((value >> 1) | 0x80 == value / 2 + 0x80) by (bit_vector);
}

} // verus!
