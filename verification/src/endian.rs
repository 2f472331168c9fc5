//! Little-endian splitting of words into bytes.

use vstd::prelude::*;

verus! {

/// Byte `j` (0 the least significant) of a 32-bit word.
pub open spec fn le_byte(w: u32, j: int) -> u8 {
    ((w >> ((8 * j) as u32)) & 0xff) as u8
}

/// The 32-bit word whose bytes are `b0` to `b3`, least significant first.
pub open spec fn le_word(b0: u8, b1: u8, b2: u8, b3: u8) -> u32 {
    (b0 as u32) | ((b1 as u32) << 8) | ((b2 as u32) << 16) | ((b3 as u32) << 24)
}

/// Splitting a word into bytes and joining them again gives the word back.
pub proof fn lemma_le_roundtrip(w: u32)
    ensures
        le_word(le_byte(w, 0), le_byte(w, 1), le_byte(w, 2), le_byte(w, 3)) == w,
{
    assert(((((w >> 0) & 0xff) as u8) as u32) | (((((w >> 8) & 0xff) as u8) as u32) << 8) | (((((w
        >> 16) & 0xff) as u8) as u32) << 16) | (((((w >> 24) & 0xff) as u8) as u32) << 24) == w)
        by (bit_vector);
}

/// Byte `j` of a word.
pub fn byte_of(w: u32, j: u32) -> (r: u8)
    requires
        j < 4,
    ensures
        r == le_byte(w, j as int),
{
    let v: u32 = (w >> (8 * j)) & 0xff;
    assert(v <= 0xff) by (bit_vector)
        requires
            v == (w >> ((8 * j) as u32)) & 0xff,
    ;
    v as u8
}

/// Joins four bytes, least significant first, into a word.
pub fn word_of(b0: u8, b1: u8, b2: u8, b3: u8) -> (r: u32)
    ensures
        r == le_word(b0, b1, b2, b3),
{
    (b0 as u32) | ((b1 as u32) << 8) | ((b2 as u32) << 16) | ((b3 as u32) << 24)
}

} // verus!
