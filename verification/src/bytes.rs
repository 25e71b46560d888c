//! Conversions between byte strings and the 32-bit words the bus moves.

use vstd::prelude::*;
use crate::structs::{le32, byte32, u32_from_le, u32_byte, lemma_le32_of_bytes, lemma_bytes_of_le32};

verus! {

/// Copies `N` bytes of a slice, from `at` on, into an array.
pub fn array_from_slice<const N: usize>(s: &[u8], at: usize) -> (a: [u8; N])
    requires
        at + N <= s.len(),
    ensures
        a@ == s@.subrange(at as int, at + N),
{
    let mut a: [u8; N] = [0u8; N];
    let mut i: usize = 0;
    while i < N
        invariant
            i <= N,
            at + N <= s.len(),
            forall|j: int| 0 <= j < i ==> a@[j] == s@[at + j],
        decreases N - i,
    {
        a[i] = s[at + i];
        i += 1;
    }
    assert(a@ =~= s@.subrange(at as int, at + N));
    a
}

/// Copies the bytes of a slice from `from` up to `to` into a vector.
pub fn vec_from_slice(s: &[u8], from: usize, to: usize) -> (v: Vec<u8>)
    requires
        from <= to <= s.len(),
    ensures
        v@ == s@.subrange(from as int, to as int),
{
    let mut v: Vec<u8> = Vec::new();
    let mut i: usize = from;
    while i < to
        invariant
            from <= i <= to <= s.len(),
            v@ == s@.subrange(from as int, i as int),
        decreases to - i,
    {
        v.push(s[i]);
        assert(v@ =~= s@.subrange(from as int, i + 1));
        i += 1;
    }
    v
}

/// Length `n` rounded up to a multiple of four.
pub open spec fn spec_round_up4(n: int) -> int {
    (n + 3) / 4 * 4
}

/// Rounds a length up to a multiple of four.
pub fn round_up4(n: usize) -> (m: usize)
    requires
        n + 3 <= usize::MAX,
    ensures
        m == spec_round_up4(n as int),
        n <= m < n + 4,
        m % 4 == 0,
{
    (n + 3) / 4 * 4
}

/// The bytes that a sequence of words occupies in memory, each word
/// little-endian.
pub open spec fn words_to_bytes(words: Seq<u32>) -> Seq<u8> {
    Seq::new(4 * words.len(), |i: int| byte32(words[i / 4], (i % 4) as u32))
}

/// The words that a byte string of a whole number of words holds, each word
/// little-endian.
pub open spec fn bytes_to_words(bytes: Seq<u8>) -> Seq<u32> {
    Seq::new(
        bytes.len() / 4,
        |i: int| le32(bytes[4 * i], bytes[4 * i + 1], bytes[4 * i + 2], bytes[4 * i + 3]),
    )
}

/// The first `len` bytes that a buffer of words holds: the view of a word
/// buffer as bytes, cut to the length of the packet in it.
pub fn slice8(words: &[u32], len: usize) -> (bytes: Vec<u8>)
    requires
        len <= 4 * words.len(),
    ensures
        bytes@ == words_to_bytes(words@).subrange(0, len as int),
{
    let mut bytes: Vec<u8> = Vec::new();
    let mut i: usize = 0;
    while i < len
        invariant
            i <= len <= 4 * words.len(),
            bytes@ == words_to_bytes(words@).subrange(0, i as int),
        decreases len - i,
    {
        let w = words[i / 4];
        let k: u32 = (i % 4) as u32;
        bytes.push(u32_byte(w, k));
        assert(bytes@ =~= words_to_bytes(words@).subrange(0, i + 1));
        i += 1;
    }
    bytes
}

/// Packs a byte string of a whole number of words into words.
pub fn pack_words(bytes: &Vec<u8>) -> (words: Vec<u32>)
    requires
        bytes.len() % 4 == 0,
    ensures
        words@ == bytes_to_words(bytes@),
{
    let n = bytes.len() / 4;
    let mut words: Vec<u32> = Vec::new();
    let mut i: usize = 0;
    while i < n
        invariant
            i <= n,
            n == bytes.len() / 4,
            bytes.len() % 4 == 0,
            words@.len() == i,
            forall|j: int| 0 <= j < i ==> words@[j] == bytes_to_words(bytes@)[j],
        decreases n - i,
    {
        let w = u32_from_le(bytes[4 * i], bytes[4 * i + 1], bytes[4 * i + 2], bytes[4 * i + 3]);
        words.push(w);
        i += 1;
    }
    assert(words@ =~= bytes_to_words(bytes@));
    words
}

/// Packed words hold the bytes they were packed from.
pub proof fn lemma_pack_unpack(bytes: Seq<u8>)
    requires
        bytes.len() % 4 == 0,
    ensures
        words_to_bytes(bytes_to_words(bytes)) == bytes,
{
    let w = bytes_to_words(bytes);
    let b = words_to_bytes(w);
    assert(b.len() == bytes.len());
    assert forall|i: int| 0 <= i < bytes.len() implies b[i] == bytes[i] by {
        let q = i / 4;
        lemma_bytes_of_le32(bytes[4 * q], bytes[4 * q + 1], bytes[4 * q + 2], bytes[4 * q + 3]);
    }
    assert(b =~= bytes);
}

/// The bytes of a word buffer pack into the words of the buffer.
pub proof fn lemma_unpack_pack(words: Seq<u32>)
    ensures
        bytes_to_words(words_to_bytes(words)) == words,
{
    let b = words_to_bytes(words);
    let w = bytes_to_words(b);
    assert(w.len() == words.len());
    assert forall|i: int| 0 <= i < words.len() implies w[i] == words[i] by {
        lemma_le32_of_bytes(words[i]);
        assert((4 * i) / 4 == i && (4 * i + 1) / 4 == i && (4 * i + 2) / 4 == i && (4 * i + 3) / 4
            == i);
    }
    assert(w =~= words);
}

} // verus!
