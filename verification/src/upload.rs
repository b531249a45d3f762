//! The buffers as the bytes that are handed to the GPU.

use vstd::prelude::*;

verus! {

/// Byte `k` of `word`, counted from the least significant.
pub open spec fn byte_of(word: u32, k: int) -> u8 {
    if k == 0 {
        (word % 0x100) as u8
    } else if k == 1 {
        (word / 0x100 % 0x100) as u8
    } else if k == 2 {
        (word / 0x1_0000 % 0x100) as u8
    } else {
        (word / 0x100_0000) as u8
    }
}

/// The bytes of `words` on a little-endian machine.
pub open spec fn le_bytes(words: Seq<u32>) -> Seq<u8> {
    Seq::new(4 * words.len(), |i: int| byte_of(words[i / 4], i % 4))
}

/// The bytes of `words` on a big-endian machine.
pub open spec fn be_bytes(words: Seq<u32>) -> Seq<u8> {
    Seq::new(4 * words.len(), |i: int| byte_of(words[i / 4], 3 - i % 4))
}

/// `bytemuck::cast_slice` from 32-bit words to bytes. It returns the memory
/// of the slice as it is: four bytes per word, words in order, each word in
/// the byte order of the machine. Bytes have alignment one and every length
/// is a whole number of them, so this cast never panics.
#[verifier::external_body]
fn cast_words(words: &[u32]) -> (bytes: &[u8])
    ensures
        bytes@ == le_bytes(words@) || bytes@ == be_bytes(words@),
{
    bytemuck::cast_slice(words)
}

/// The words as bytes in the machine's byte order, without copying.
pub fn as_bytes(words: &[u32]) -> (bytes: &[u8])
    ensures
        bytes@.len() == 4 * words@.len(),
        bytes@ == le_bytes(words@) || bytes@ == be_bytes(words@),
{
    cast_words(words)
}

} // verus!
