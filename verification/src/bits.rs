//! Bytes and 16-bit words: how the executable shifts and masks relate to
//! plain arithmetic on integers.

use vstd::prelude::*;

verus! {

/// The 16-bit word with the given high and low byte.
pub open spec fn word(high: u8, low: u8) -> u16 {
    (high as int * 256 + low as int) as u16
}

/// The upper eight bits of a word.
pub open spec fn high_byte(w: u16) -> u8 {
    (w as int / 256) as u8
}

/// The lower eight bits of a word.
pub open spec fn low_byte(w: u16) -> u8 {
    (w as int % 256) as u8
}

/// An integer reduced into the 16-bit address space.
pub open spec fn wrap16(x: int) -> u16 {
    (x % 0x1_0000) as u16
}

/// An integer reduced into one byte.
pub open spec fn wrap8(x: int) -> u8 {
    (x % 0x100) as u8
}

/// A byte read as a two's-complement number in `-128..=127`.
pub open spec fn signed(b: u8) -> int {
    if b < 128 {
        b as int
    } else {
        b as int - 256
    }
}

/// Shifts and masks of bytes and words, as arithmetic.
pub proof fn lemma_shift_mask(high: u8, low: u8, w: u16)
    by (bit_vector)
    ensures
        ((high as u16) << 8) | (low as u16) == (high as u16) * 256 + (low as u16),
        (w >> 8) == w / 256,
        (w >> 8) < 256,
        (w & 0xFF) == w % 256,
{
}

/// Splitting a word and joining the halves gives the word back, and the
/// other way round.
pub proof fn lemma_word_parts(high: u8, low: u8, w: u16)
    ensures
        high_byte(word(high, low)) == high,
        low_byte(word(high, low)) == low,
        word(high_byte(w), low_byte(w)) == w,
{
}

/// Joins two bytes into a word, high byte first.
pub fn join(high: u8, low: u8) -> (w: u16)
    ensures
        w == word(high, low),
{
    proof {
        lemma_shift_mask(high, low, 0);
    }
    ((high as u16) << 8) | (low as u16)
}

/// The upper byte of a word.
pub fn high(w: u16) -> (b: u8)
    ensures
        b == high_byte(w),
{
    proof {
        lemma_shift_mask(0, 0, w);
    }
    (w >> 8) as u8
}

/// The lower byte of a word.
pub fn low(w: u16) -> (b: u8)
    ensures
        b == low_byte(w),
{
    proof {
        lemma_shift_mask(0, 0, w);
    }
    (w & 0xFF) as u8
}

} // verus!
