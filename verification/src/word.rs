//! Sixteen-bit words as pairs of bytes.

use vstd::prelude::*;

verus! {

/// The word whose high byte is `high` and whose low byte is `low`.
pub open spec fn pair(high: u8, low: u8) -> u16 {
    (high * 256 + low) as u16
}

/// The high byte of `word`.
pub open spec fn high_byte(word: u16) -> u8 {
    (word / 256) as u8
}

/// The low byte of `word`.
pub open spec fn low_byte(word: u16) -> u8 {
    (word % 256) as u8
}

/// The high byte of a word is its bits 8 to 15, the low byte its bits 0 to
/// 7, and a pair is its high byte shifted over its low byte.
pub proof fn lemma_word_bits(word: u16, high: u8, low: u8)
    by (bit_vector)
    ensures
        ((high as u16) << 8) | (low as u16) == high * 256 + low,
        word >> 8 == word / 256,
        word & 0x00ff == word % 256,
{
}

/// Splitting a word and joining the halves gives the word back.
pub proof fn lemma_split_then_join(word: u16)
    ensures
        pair(high_byte(word), low_byte(word)) == word,
{
}

/// The halves of a joined word are the bytes it was joined from.
pub proof fn lemma_join_then_split(high: u8, low: u8)
    ensures
        high_byte(pair(high, low)) == high,
        low_byte(pair(high, low)) == low,
{
}

/// Packs two bytes into a word, `high` in bits 8 to 15.
pub fn join(high: u8, low: u8) -> (word: u16)
    ensures
        word == pair(high, low),
{
    proof {
        lemma_word_bits(0, high, low);
    }
    ((high as u16) << 8) | (low as u16)
}

/// Returns bits 8 to 15 of `word`.
pub fn high(word: u16) -> (byte: u8)
    ensures
        byte == high_byte(word),
{
    proof {
        lemma_word_bits(word, 0, 0);
    }
    (word >> 8) as u8
}

/// Returns bits 0 to 7 of `word`.
pub fn low(word: u16) -> (byte: u8)
    ensures
        byte == low_byte(word),
{
    proof {
        lemma_word_bits(word, 0, 0);
    }
    (word & 0x00ff) as u8
}

} // verus!
