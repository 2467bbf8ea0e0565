//! Little-endian words in byte sequences.

use vstd::prelude::*;

verus! {

/// The little-endian 32-bit word that starts at `at`.
pub open spec fn le32(bytes: Seq<u8>, at: int) -> u32 {
    (bytes[at] + 0x100 * bytes[at + 1] + 0x1_0000 * bytes[at + 2] + 0x100_0000
        * bytes[at + 3]) as u32
}

/// The four bytes of a word, least significant first.
pub open spec fn le32_bytes(word: u32) -> Seq<u8> {
    seq![
        (word % 0x100) as u8,
        (word / 0x100 % 0x100) as u8,
        (word / 0x1_0000 % 0x100) as u8,
        (word / 0x100_0000) as u8,
    ]
}

/// Reads the little-endian word at `at`.
pub(crate) fn read_le32(bytes: &[u8], at: usize) -> (word: u32)
    requires
        at + 4 <= bytes@.len(),
    ensures
        word == le32(bytes@, at as int),
{
    bytes[at] as u32 + 0x100 * (bytes[at + 1] as u32) + 0x1_0000 * (bytes[at + 2] as u32)
        + 0x100_0000 * (bytes[at + 3] as u32)
}

/// Appends a word, least significant byte first.
pub(crate) fn push_le32(bytes: &mut Vec<u8>, word: u32)
    ensures
        final(bytes)@ == old(bytes)@ + le32_bytes(word),
{
    bytes.push((word % 0x100) as u8);
    bytes.push((word / 0x100 % 0x100) as u8);
    bytes.push((word / 0x1_0000 % 0x100) as u8);
    bytes.push((word / 0x100_0000) as u8);
}

/// A word is read back as it was written, wherever its bytes stand.
pub proof fn law_word_round_trip(word: u32, bytes: Seq<u8>, at: int)
    requires
        0 <= at,
        at + 4 <= bytes.len(),
        bytes.subrange(at, at + 4) == le32_bytes(word),
    ensures
        le32(bytes, at) == word,
{
}

/// The first byte that is written is the least significant one: each byte holds
/// its own eight bits of the word, counted from the low end.
pub proof fn law_written_least_significant_first(word: u32)
    ensures
        le32_bytes(word).len() == 4,
        le32_bytes(word)[0] == word & 0xFF,
        le32_bytes(word)[1] == (word >> 8) & 0xFF,
        le32_bytes(word)[2] == (word >> 16) & 0xFF,
        le32_bytes(word)[3] == word >> 24,
{
    assert(word & 0xFF == word % 0x100 && (word >> 8) & 0xFF == word / 0x100 % 0x100 && (word
        >> 16) & 0xFF == word / 0x1_0000 % 0x100 && word >> 24 == word / 0x100_0000)
        by (bit_vector);
}

/// The first byte that is read is the least significant one.
pub proof fn law_read_least_significant_first(bytes: Seq<u8>, at: int)
    ensures
        le32(bytes, at) & 0xFF == bytes[at],
        (le32(bytes, at) >> 8) & 0xFF == bytes[at + 1],
        (le32(bytes, at) >> 16) & 0xFF == bytes[at + 2],
        le32(bytes, at) >> 24 == bytes[at + 3],
{
    let read = le32(bytes, at);
    let (a, b, c, d) = (bytes[at], bytes[at + 1], bytes[at + 2], bytes[at + 3]);
    assert(read & 0xFF == a && (read >> 8) & 0xFF == b && (read >> 16) & 0xFF == c && read >> 24
        == d) by (bit_vector)
        requires
            read == a + 0x100 * b + 0x1_0000 * c + 0x100_0000 * d,
    ;
}

/// Only the four bytes of a word count for it.
pub proof fn law_word_rests_on_its_bytes(a: Seq<u8>, b: Seq<u8>, i: int, j: int)
    requires
        a[i] == b[j],
        a[i + 1] == b[j + 1],
        a[i + 2] == b[j + 2],
        a[i + 3] == b[j + 3],
    ensures
        le32(a, i) == le32(b, j),
{
}

} // verus!
