//! Timeout arithmetic and the packing of block data into FIFO words.
use vstd::prelude::*;

verus! {

/// Whether a wait of `ms` milliseconds that began when the clock read
/// `started` is still running when the clock reads `now`. A clock that runs
/// backwards ends the wait.
pub open spec fn spec_wait_ms(ms: u64, started: u64, now: u64) -> bool {
    started <= now && now - started < ms
}

/// Decides whether a bounded wait goes on: `true` while fewer than `ms`
/// milliseconds have passed since `started`.
pub fn wait_ms(ms: u64, started: u64, now: u64) -> (running: bool)
    ensures
        running == spec_wait_ms(ms, started, now),
{
    started <= now && now - started < ms
}

/// The byte of `word` at position `i`, position 0 being the least
/// significant byte.
pub open spec fn spec_byte_of(word: u64, i: int) -> u8 {
    ((word >> ((8 * i) as u64)) & 0xff) as u8
}

/// The word made of the eight bytes of `bytes` from position `at` on, the
/// first byte being the least significant.
pub open spec fn spec_word_at(bytes: Seq<u8>, at: int) -> u64 {
    (bytes[at] as u64) | ((bytes[at + 1] as u64) << 8) | ((bytes[at + 2] as u64) << 16) | ((
    bytes[at + 3] as u64) << 24) | ((bytes[at + 4] as u64) << 32) | ((bytes[at + 5] as u64) << 40)
        | ((bytes[at + 6] as u64) << 48) | ((bytes[at + 7] as u64) << 56)
}

/// The words that a run of bytes packs into, eight bytes to the word.
pub open spec fn spec_words(bytes: Seq<u8>) -> Seq<u64> {
    Seq::new(bytes.len() / 8, |k: int| spec_word_at(bytes, 8 * k))
}

/// The bytes that a run of words unpacks into.
pub open spec fn spec_bytes(words: Seq<u64>) -> Seq<u8> {
    Seq::new(8 * words.len(), |i: int| spec_byte_of(words[i / 8], i % 8))
}

proof fn lemma_word_of_bytes(w: u64)
    by (bit_vector)
    ensures
        (((w >> 0u64) & 0xff) as u8 as u64) | ((((w >> 8u64) & 0xff) as u8 as u64) << 8) | ((((w
            >> 16u64) & 0xff) as u8 as u64) << 16) | ((((w >> 24u64) & 0xff) as u8 as u64) << 24)
            | ((((w >> 32u64) & 0xff) as u8 as u64) << 32) | ((((w >> 40u64) & 0xff) as u8 as u64)
            << 40) | ((((w >> 48u64) & 0xff) as u8 as u64) << 48) | ((((w >> 56u64) & 0xff) as u8
            as u64) << 56) == w,
{
}

proof fn lemma_bytes_of_word(
    b0: u8,
    b1: u8,
    b2: u8,
    b3: u8,
    b4: u8,
    b5: u8,
    b6: u8,
    b7: u8,
)
    by (bit_vector)
    ensures
        ({
            let w = (b0 as u64) | ((b1 as u64) << 8) | ((b2 as u64) << 16) | ((b3 as u64) << 24)
                | ((b4 as u64) << 32) | ((b5 as u64) << 40) | ((b6 as u64) << 48) | ((b7 as u64)
                << 56);
            &&& ((w >> 0u64) & 0xff) as u8 == b0
            &&& ((w >> 8u64) & 0xff) as u8 == b1
            &&& ((w >> 16u64) & 0xff) as u8 == b2
            &&& ((w >> 24u64) & 0xff) as u8 == b3
            &&& ((w >> 32u64) & 0xff) as u8 == b4
            &&& ((w >> 40u64) & 0xff) as u8 == b5
            &&& ((w >> 48u64) & 0xff) as u8 == b6
            &&& ((w >> 56u64) & 0xff) as u8 == b7
        }),
{
}

/// Unpacking words and packing the bytes again gives the words back.
pub proof fn lemma_words_of_bytes(words: Seq<u64>)
    ensures
        spec_words(spec_bytes(words)) == words,
{
    let bytes = spec_bytes(words);
    assert forall|k: int| 0 <= k < words.len() implies spec_word_at(bytes, 8 * k) == words[k] by {
        let w = words[k];
        lemma_word_of_bytes(w);
        assert(bytes[8 * k] == spec_byte_of(w, 0));
        assert(bytes[8 * k + 1] == spec_byte_of(w, 1));
        assert(bytes[8 * k + 2] == spec_byte_of(w, 2));
        assert(bytes[8 * k + 3] == spec_byte_of(w, 3));
        assert(bytes[8 * k + 4] == spec_byte_of(w, 4));
        assert(bytes[8 * k + 5] == spec_byte_of(w, 5));
        assert(bytes[8 * k + 6] == spec_byte_of(w, 6));
        assert(bytes[8 * k + 7] == spec_byte_of(w, 7));
    }
    assert(spec_words(bytes) =~= words);
}

/// Packing a whole number of words' worth of bytes and unpacking the words
/// again gives the bytes back.
pub proof fn lemma_bytes_of_words(bytes: Seq<u8>)
    requires
        bytes.len() % 8 == 0,
    ensures
        spec_bytes(spec_words(bytes)) == bytes,
{
    let words = spec_words(bytes);
    assert(8 * words.len() == bytes.len());
    assert forall|i: int| 0 <= i < bytes.len() implies spec_byte_of(words[i / 8], i % 8)
        == bytes[i] by {
        let k = i / 8;
        lemma_bytes_of_word(
            bytes[8 * k],
            bytes[8 * k + 1],
            bytes[8 * k + 2],
            bytes[8 * k + 3],
            bytes[8 * k + 4],
            bytes[8 * k + 5],
            bytes[8 * k + 6],
            bytes[8 * k + 7],
        );
        assert(words[k] == spec_word_at(bytes, 8 * k));
    }
    assert(spec_bytes(words) =~= bytes);
}

/// Packs the eight bytes of `bytes` from position `at` on into one word.
pub fn word_at(bytes: &[u8], at: usize) -> (w: u64)
    requires
        at + 8 <= bytes@.len(),
    ensures
        w == spec_word_at(bytes@, at as int),
{
    (bytes[at] as u64) | ((bytes[at + 1] as u64) << 8) | ((bytes[at + 2] as u64) << 16) | ((
    bytes[at + 3] as u64) << 24) | ((bytes[at + 4] as u64) << 32) | ((bytes[at + 5] as u64) << 40)
        | ((bytes[at + 6] as u64) << 48) | ((bytes[at + 7] as u64) << 56)
}

/// Packs a run of bytes into words. Bytes beyond the last whole word are
/// left out.
pub fn words_from_bytes(bytes: &[u8]) -> (words: Vec<u64>)
    ensures
        words@ == spec_words(bytes@),
{
    let n = bytes.len() / 8;
    let mut words: Vec<u64> = Vec::new();
    let mut k: usize = 0;
    while k < n
        invariant
            n == bytes@.len() / 8,
            8 * n <= usize::MAX,
            k <= n,
            words@.len() == k,
            forall|j: int| 0 <= j < k ==> words@[j] == spec_word_at(bytes@, 8 * j),
        decreases n - k,
    {
        words.push(word_at(bytes, 8 * k));
        k += 1;
    }
    assert(words@ =~= spec_words(bytes@));
    words
}

} // verus!
