//! Single-bit operations on a byte.

use vstd::prelude::*;

verus! {

/// Whether bit `pos` of `byte` is 1.
pub open spec fn is_set(byte: u8, pos: usize) -> bool {
    byte & (1u8 << pos) != 0
}

/// `byte` with bit `pos` forced to 1.
pub open spec fn with_bit(byte: u8, pos: usize) -> u8 {
    byte | (1u8 << pos)
}

/// `byte` with bit `pos` forced to 0.
pub open spec fn without_bit(byte: u8, pos: usize) -> u8 {
    byte & !(1u8 << pos)
}

/// Returns whether bit `pos` of `byte` is 1.
pub fn get(byte: u8, pos: usize) -> (on: bool)
    requires
        pos < 8,
    ensures
        on == is_set(byte, pos),
{
    (byte & (1u8 << pos)) != 0
}

/// Returns `byte` with bit `pos` forced to 1.
pub fn set(byte: u8, pos: usize) -> (result: u8)
    requires
        pos < 8,
    ensures
        result == with_bit(byte, pos),
{
    byte | (1u8 << pos)
}

/// Returns `byte` with bit `pos` forced to 0.
pub fn clear(byte: u8, pos: usize) -> (result: u8)
    requires
        pos < 8,
    ensures
        result == without_bit(byte, pos),
{
    byte & !(1u8 << pos)
}

/// Setting or clearing a bit decides that bit and leaves every other bit as
/// it was.
pub proof fn lemma_bit_update(byte: u8, pos: usize, other: usize)
    by (bit_vector)
    requires
        pos < 8,
        other < 8,
    ensures
        is_set(with_bit(byte, pos), pos),
        !is_set(without_bit(byte, pos), pos),
        other != pos ==> is_set(with_bit(byte, pos), other) == is_set(byte, other),
        other != pos ==> is_set(without_bit(byte, pos), other) == is_set(byte, other),
{
}

/// Inverting a bit twice, by clearing where it was set and setting where it
/// was clear, gives the byte back.
pub proof fn lemma_bit_twice(byte: u8, pos: usize)
    by (bit_vector)
    requires
        pos < 8,
    ensures
        is_set(byte, pos) ==> with_bit(without_bit(byte, pos), pos) == byte,
        !is_set(byte, pos) ==> without_bit(with_bit(byte, pos), pos) == byte,
{
}

/// Bit 7 is the sign of a byte read as two's complement; bit 0 tells odd
/// from even.
pub proof fn lemma_end_bits(byte: u8)
    by (bit_vector)
    ensures
        is_set(byte, 7) == (byte >= 0x80),
        is_set(byte, 0) == (byte % 2 == 1),
{
}

/// Either nibble of a byte is below 16.
pub proof fn lemma_nibble_bounds(byte: u8)
    by (bit_vector)
    ensures
        byte & 0x0f <= 15,
        byte >> 4 <= 15,
{
}

/// The low and the high nibble of a byte, as numbers.
pub proof fn lemma_nibbles(byte: u8)
    by (bit_vector)
    ensures
        byte & 0x0f == byte % 16,
        byte >> 4 == byte / 16,
{
}

} // verus!
