//! The chip's unique identifier, held in the first 128 bits of EFUSE bank 0.

use crate::endian::{byte_of, le_byte, le_word, lemma_le_roundtrip, word_of};
use vstd::prelude::*;

verus! {

/// The 128-bit unique identifier of a chip.
#[derive(Debug, Clone, Copy)]
pub struct Uid {
    bytes: [u8; 16],
}

impl View for Uid {
    type V = Seq<u8>;

    closed spec fn view(&self) -> Seq<u8> {
        self.bytes@
    }
}

impl Uid {
    /// The identifier's sixteen bytes, as the first four words of bank 0
    /// spell them in little-endian order.
    pub open spec fn of_words(words: Seq<u32>) -> Seq<u8> {
        Seq::new(16, |k: int| le_byte(words[k / 4], k % 4))
    }

    /// Takes the identifier from the words of bank 0.
    pub fn from_bank0_words(words: &[u32; 8]) -> (r: Uid)
        ensures
            r@ == Uid::of_words(words@),
    {
        let w0: u32 = words[0];
        let w1: u32 = words[1];
        let w2: u32 = words[2];
        let w3: u32 = words[3];
        let bytes: [u8; 16] = [
            byte_of(w0, 0),
            byte_of(w0, 1),
            byte_of(w0, 2),
            byte_of(w0, 3),
            byte_of(w1, 0),
            byte_of(w1, 1),
            byte_of(w1, 2),
            byte_of(w1, 3),
            byte_of(w2, 0),
            byte_of(w2, 1),
            byte_of(w2, 2),
            byte_of(w2, 3),
            byte_of(w3, 0),
            byte_of(w3, 1),
            byte_of(w3, 2),
            byte_of(w3, 3),
        ];
        let r = Uid { bytes };
        assert(r@ =~= Uid::of_words(words@));
        r
    }

    /// The identifier's bytes.
    pub fn bytes(&self) -> (r: &[u8; 16])
        ensures
            r@ == self@,
    {
        &self.bytes
    }

    /// The identifier as four little-endian words.
    pub fn words_le(&self) -> (r: [u32; 4])
        ensures
            forall|i: int|
                0 <= i < 4 ==> #[trigger] r@[i] == le_word(
                    self@[4 * i],
                    self@[4 * i + 1],
                    self@[4 * i + 2],
                    self@[4 * i + 3],
                ),
    {
        let b = &self.bytes;
        [
            word_of(b[0], b[1], b[2], b[3]),
            word_of(b[4], b[5], b[6], b[7]),
            word_of(b[8], b[9], b[10], b[11]),
            word_of(b[12], b[13], b[14], b[15]),
        ]
    }

    /// An identifier taken from bank 0 reads back as the bank's first four
    /// words.
    pub proof fn lemma_words_roundtrip(words: Seq<u32>, i: int)
        requires
            words.len() == 8,
            0 <= i < 4,
        ensures
            le_word(
                Uid::of_words(words)[4 * i],
                Uid::of_words(words)[4 * i + 1],
                Uid::of_words(words)[4 * i + 2],
                Uid::of_words(words)[4 * i + 3],
            ) == words[i],
    {
        lemma_le_roundtrip(words[i]);
        assert((4 * i) / 4 == i && (4 * i) % 4 == 0);
        assert((4 * i + 1) / 4 == i && (4 * i + 1) % 4 == 1);
        assert((4 * i + 2) / 4 == i && (4 * i + 2) % 4 == 2);
        assert((4 * i + 3) / 4 == i && (4 * i + 3) % 4 == 3);
    }
}

} // verus!
