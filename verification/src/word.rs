//! Sixteen-bit little-endian words and the bytes they are made of.
use vstd::prelude::*;

verus! {

/// The word whose low byte is `low` and whose high byte is `high`.
pub open spec fn word(low: u8, high: u8) -> u16 {
    (low + high * 256) as u16
}

/// The low byte of a word.
pub open spec fn low_byte(value: u16) -> u8 {
    (value % 256) as u8
}

/// The high byte of a word.
pub open spec fn high_byte(value: u16) -> u8 {
    (value / 256) as u8
}

/// The sixteen-bit value that an integer wraps to.
pub open spec fn wrap16(value: int) -> u16 {
    (value % 0x10000) as u16
}

/// The eight-bit value that an integer wraps to.
pub open spec fn wrap8(value: int) -> u8 {
    (value % 0x100) as u8
}

/// The page of an address: everything above its low byte.
pub open spec fn page(address: int) -> int {
    address / 256
}

/// Joins two bytes into a little-endian word.
pub fn make_word(low: u8, high: u8) -> (value: u16)
    ensures
        value == word(low, high),
{
    proof {
        lemma_join(low, high);
    }
    ((high as u16) << 8) | (low as u16)
}

/// Splits a word into its low and its high byte.
pub fn split_word(value: u16) -> (bytes: (u8, u8))
    ensures
        bytes.0 == low_byte(value),
        bytes.1 == high_byte(value),
        word(bytes.0, bytes.1) == value,
{
    proof {
        lemma_split(value);
    }
    ((value & 0x00FF) as u8, (value >> 8) as u8)
}

/// Shifting the high byte up and or-ing the low byte in is `low + 256 * high`.
pub proof fn lemma_join(low: u8, high: u8)
    by (bit_vector)
    ensures
        ((high as u16) << 8) | (low as u16) == low + high * 256,
{
}

/// Masking and shifting a word gives its remainder and quotient by 256.
pub proof fn lemma_split(value: u16)
    by (bit_vector)
    ensures
        value & 0x00FF == value % 256,
        value >> 8 == value / 256,
        value & 0x00FF < 256,
        value >> 8 < 256,
{
}

} // verus!
