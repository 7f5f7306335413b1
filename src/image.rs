//! The program image format: a big-endian origin address followed by
//! big-endian words, placed in memory from the origin upwards.

use vstd::prelude::*;

verus! {

/// The big-endian word of two bytes.
pub open spec fn be_word(hi: u8, lo: u8) -> u16 {
    (hi as int * 256 + lo as int) as u16
}

/// An image holds an origin and whole words only.
pub open spec fn image_well_formed(b: Seq<u8>) -> bool {
    b.len() >= 2 && b.len() % 2 == 0
}

/// The load address: the first two bytes.
pub open spec fn image_origin(b: Seq<u8>) -> u16 {
    be_word(b[0], b[1])
}

/// The words after the origin.
pub open spec fn image_words(b: Seq<u8>) -> Seq<u16> {
    Seq::new(((b.len() - 2) / 2) as nat, |k: int| be_word(b[2 + 2 * k], b[3 + 2 * k]))
}

/// Memory after `words` are stored one by one from `origin` upwards,
/// wrapping at the end of memory; a later word overwrites an earlier one.
pub open spec fn place(mem: Seq<u16>, origin: u16, words: Seq<u16>) -> Seq<u16>
    decreases words.len(),
{
    if words.len() == 0 {
        mem
    } else {
        place(mem, origin, words.drop_last()).update(
            (origin + words.len() - 1) % 0x10000,
            words.last(),
        )
    }
}

/// The big-endian word of two bytes.
pub fn word_from_be(hi: u8, lo: u8) -> (r: u16)
    ensures
        r == be_word(hi, lo),
{
    (hi as u16) * 256 + (lo as u16)
}

} // verus!
