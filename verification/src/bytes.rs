//! How 32-bit words lie in memory as bytes.

use vstd::endian::{endianness, Endian};
use vstd::prelude::*;

use crate::rectangle::RECORD_WORDS;

verus! {

/// Byte `j` of `word`, counted from its least significant byte.
pub open spec fn le_byte(word: u32, j: int) -> u8 {
    if j == 0 {
        (word & 0xff) as u8
    } else if j == 1 {
        ((word >> 8) & 0xff) as u8
    } else if j == 2 {
        ((word >> 16) & 0xff) as u8
    } else {
        ((word >> 24) & 0xff) as u8
    }
}

/// Byte `j` of `word` as it lies in this machine's memory.
pub open spec fn native_byte(word: u32, j: int) -> u8 {
    match endianness() {
        Endian::Little => le_byte(word, j),
        Endian::Big => le_byte(word, 3 - j),
    }
}

/// The bytes of `words` as they lie in this machine's memory, word after
/// word.
pub open spec fn native_bytes(words: Seq<u32>) -> Seq<u8> {
    Seq::new(4 * words.len(), |k: int| native_byte(words[k / 4], k % 4))
}

/// `bytemuck::bytes_of` on the words of one record: the same memory, read
/// as bytes.
#[verifier::external_body]
pub(crate) fn bytes_of_words(words: &[u32; RECORD_WORDS]) -> (bytes: &[u8])
    ensures
        bytes@ == native_bytes(words@),
{
    bytemuck::bytes_of(words)
}

} // verus!
