//! Little-endian 16-bit words as the sensor puts them on the wire.

use vstd::prelude::*;

verus! {

/// The 16-bit value whose low-order byte is `low` and whose high-order byte
/// is `high`.
pub open spec fn word_of(low: u8, high: u8) -> u16 {
    (256 * high + low) as u16
}

/// The low-order byte of `word`.
pub open spec fn low_byte(word: u16) -> u8 {
    (word % 256) as u8
}

/// The high-order byte of `word`.
pub open spec fn high_byte(word: u16) -> u8 {
    (word / 256) as u8
}

/// Assembles a 16-bit word from the two bytes of a burst read, low byte first.
#[verifier::when_used_as_spec(word_of)]
pub fn decode_word(low: u8, high: u8) -> (word: u16)
    ensures
        word == word_of(low, high),
{
    let word: u16 = ((high as u16) << 8) | (low as u16);
    assert(word == 256 * high + low) by (bit_vector)
        requires
            word == ((high as u16) << 8) | (low as u16),
    ;
    word
}

/// Splits a 16-bit word into the two bytes that carry it, low byte first.
pub fn encode_word(word: u16) -> (bytes: [u8; 2])
    ensures
        bytes@ == seq![low_byte(word), high_byte(word)],
{
    let low: u8 = (word & 0xFF) as u8;
    let high: u8 = (word >> 8) as u8;
    assert(low == word % 256 && high == word / 256) by (bit_vector)
        requires
            low == (word & 0xFF) as u8,
            high == (word >> 8) as u8,
    ;
    [low, high]
}

/// Splitting a word and assembling the two bytes again gives the word back.
pub proof fn lemma_decode_encode(word: u16)
    ensures
        decode_word(low_byte(word), high_byte(word)) == word,
{
}

/// Assembling two bytes and splitting the word again gives the bytes back:
/// no two pairs of bytes make the same word.
pub proof fn lemma_encode_decode(low: u8, high: u8)
    ensures
        low_byte(decode_word(low, high)) == low,
        high_byte(decode_word(low, high)) == high,
{
}

} // verus!
