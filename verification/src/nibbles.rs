//! The nibble codec: a two-byte instruction word is four 4-bit fields, and
//! groups of two or three of them are read back as big-endian immediates.

use vstd::prelude::*;

verus! {

/// The four 4-bit fields of the word `hi lo`, most significant first.
pub open spec fn nibbles_of(hi: u8, lo: u8) -> Seq<u8> {
    seq![(hi / 16) as u8, (hi % 16) as u8, (lo / 16) as u8, (lo % 16) as u8]
}

/// Two nibbles read as one byte, the first being the more significant.
pub open spec fn merged_byte(n: Seq<u8>) -> int {
    n[0] * 16 + n[1]
}

/// Three nibbles read as a 12-bit number, the first being the most significant.
pub open spec fn merged_address(n: Seq<u8>) -> int {
    n[0] * 256 + n[1] * 16 + n[2]
}

/// Whether every element of `n` fits in four bits.
pub open spec fn all_nibbles(n: Seq<u8>) -> bool {
    forall|k: int| 0 <= k < n.len() ==> n[k] < 16
}

/// Splits a two-byte word into its four nibbles, in the order in which they
/// are written: the high half of the first byte comes first, the low half of
/// the second byte last.
pub fn word_to_nibbles(word: &[u8; 2]) -> (nibbles: [u8; 4])
    ensures
        nibbles@ == nibbles_of(word[0], word[1]),
        all_nibbles(nibbles@),
{
    let hi: u8 = word[0];
    let lo: u8 = word[1];
    let nibbles = [(hi & 0b1111_0000) >> 4, hi & 0b0000_1111, (lo & 0b1111_0000) >> 4, lo & 0b0000_1111];
    proof {
        assert((hi & 0b1111_0000) >> 4 == hi / 16 && hi & 0b0000_1111 == hi % 16) by (bit_vector);
        assert((lo & 0b1111_0000) >> 4 == lo / 16 && lo & 0b0000_1111 == lo % 16) by (bit_vector);
        assert(nibbles@ =~= nibbles_of(hi, lo));
    }
    nibbles
}

/// Groups of nibbles that can be read back as one unsigned number.
pub trait MergeNibbles {
    type Output;

    /// The number whose hexadecimal digits are the nibbles, first digit first.
    fn merge_nibbles(&self) -> Self::Output;
}

impl MergeNibbles for [u8; 3] {
    type Output = u16;

    fn merge_nibbles(&self) -> (merged: u16)
        ensures
            merged == ((self[0] as u16) << 8) | ((self[1] as u16) << 4) | (self[2] as u16),
            all_nibbles(self@) ==> merged == merged_address(self@),
    {
        let a: u16 = self[0] as u16;
        let b: u16 = self[1] as u16;
        let c: u16 = self[2] as u16;
        assert(a < 16 && b < 16 && c < 16 ==> (a << 8) | (b << 4) | c == a * 256 + b * 16 + c)
            by (bit_vector);
        (a << 8) | (b << 4) | c
    }
}

impl MergeNibbles for [u8; 2] {
    type Output = u8;

    fn merge_nibbles(&self) -> (merged: u8)
        ensures
            merged == (self[0] << 4) | self[1],
            all_nibbles(self@) ==> merged == merged_byte(self@),
    {
        let a: u8 = self[0];
        let b: u8 = self[1];
        assert(a < 16 && b < 16 ==> (a << 4) | b == a * 16 + b) by (bit_vector);
        (a << 4) | b
    }
}

/// Splitting a word and merging the halves again gives back its two bytes,
/// and the last three nibbles merge to the low twelve bits of the word.
pub proof fn lemma_split_then_merge(hi: u8, lo: u8)
    ensures
        all_nibbles(nibbles_of(hi, lo)),
        merged_byte(nibbles_of(hi, lo).subrange(0, 2)) == hi,
        merged_byte(nibbles_of(hi, lo).subrange(2, 4)) == lo,
        merged_address(nibbles_of(hi, lo).subrange(1, 4)) == (hi % 16) * 256 + lo,
{
}

} // verus!
