//! Byte order of 32-bit words, the unit of both the shader binary format and
//! the push-constant wire layout.

use vstd::prelude::*;

verus! {

/// The four bytes of `w`, least significant first.
pub open spec fn word_bytes(w: u32) -> Seq<u8> {
    seq![
        (w % 256) as u8,
        ((w / 256) % 256) as u8,
        ((w / 65536) % 256) as u8,
        ((w / 16777216) % 256) as u8,
    ]
}

/// The word whose least significant byte is `b0` and most significant `b3`.
pub open spec fn word_of(b0: u8, b1: u8, b2: u8, b3: u8) -> u32 {
    (b0 + 256 * b1 + 65536 * b2 + 16777216 * b3) as u32
}

/// The `i`-th word of `bytes` read least significant byte first.
pub open spec fn le_word_at(bytes: Seq<u8>, i: int) -> u32 {
    word_of(bytes[4 * i], bytes[4 * i + 1], bytes[4 * i + 2], bytes[4 * i + 3])
}

/// The `i`-th word of `bytes` read most significant byte first.
pub open spec fn be_word_at(bytes: Seq<u8>, i: int) -> u32 {
    word_of(bytes[4 * i + 3], bytes[4 * i + 2], bytes[4 * i + 1], bytes[4 * i])
}

/// The whole words of `bytes`, each read least significant byte first.
pub open spec fn le_words(bytes: Seq<u8>) -> Seq<u32> {
    Seq::new((bytes.len() / 4) as nat, |i: int| le_word_at(bytes, i))
}

/// The whole words of `bytes`, each read most significant byte first.
pub open spec fn be_words(bytes: Seq<u8>) -> Seq<u32> {
    Seq::new((bytes.len() / 4) as nat, |i: int| be_word_at(bytes, i))
}

/// The bytes of `words` in order, each word least significant byte first.
pub open spec fn le_bytes(words: Seq<u32>) -> Seq<u8> {
    Seq::new(4 * words.len(), |k: int| word_bytes(words[k / 4])[k % 4])
}

/// Splits a word into its four bytes, least significant first.
pub fn split_word(w: u32) -> (bytes: [u8; 4])
    ensures
        bytes@ == word_bytes(w),
{
    let b0: u8 = (w % 256) as u8;
    let b1: u8 = ((w / 256) % 256) as u8;
    let b2: u8 = ((w / 65536) % 256) as u8;
    let b3: u8 = ((w / 16777216) % 256) as u8;
    let bytes: [u8; 4] = [b0, b1, b2, b3];
    assert(bytes@ =~= word_bytes(w));
    bytes
}

/// Joins four bytes, least significant first, into a word.
pub fn join_word(b0: u8, b1: u8, b2: u8, b3: u8) -> (w: u32)
    ensures
        w == word_of(b0, b1, b2, b3),
        word_bytes(w) == seq![b0, b1, b2, b3],
{
    let w: u32 = (b0 as u32) + 256 * (b1 as u32) + 65536 * (b2 as u32) + 16777216 * (b3 as u32);
    proof {
        lemma_word_bytes_of(b0, b1, b2, b3);
    }
    w
}

/// Writes `words` out as bytes, each word least significant byte first.
pub fn pack_words(words: &[u32]) -> (bytes: Vec<u8>)
    ensures
        bytes@ == le_bytes(words@),
        bytes@.len() == 4 * words@.len(),
{
    let mut bytes: Vec<u8> = Vec::new();
    let mut i: usize = 0;
    while i < words.len()
        invariant
            i <= words@.len(),
            bytes@.len() == 4 * i,
            forall|k: int| 0 <= k < 4 * i ==> bytes@[k] == word_bytes(words@[k / 4])[k % 4],
        decreases words@.len() - i,
    {
        let quad: [u8; 4] = split_word(words[i]);
        bytes.push(quad[0]);
        bytes.push(quad[1]);
        bytes.push(quad[2]);
        bytes.push(quad[3]);
        i += 1;
    }
    assert(bytes@ =~= le_bytes(words@));
    bytes
}

/// Reads `bytes` as words, each least significant byte first. There is a
/// result exactly when `bytes` holds whole words only.
pub fn unpack_words(bytes: &[u8]) -> (words: Option<Vec<u32>>)
    ensures
        words is Some <==> bytes@.len() % 4 == 0,
        words matches Some(w) ==> w@ == le_words(bytes@) && le_bytes(w@) == bytes@,
{
    let n: usize = bytes.len();
    if n % 4 != 0 {
        return None;
    }
    let mut words: Vec<u32> = Vec::new();
    let mut i: usize = 0;
    while i < n / 4
        invariant
            n == bytes@.len(),
            n % 4 == 0,
            i <= n / 4,
            words@.len() == i,
            forall|k: int| 0 <= k < i ==> words@[k] == le_word_at(bytes@, k),
        decreases n / 4 - i,
    {
        let w: u32 = join_word(bytes[4 * i], bytes[4 * i + 1], bytes[4 * i + 2], bytes[4 * i + 3]);
        words.push(w);
        i += 1;
    }
    proof {
        assert(words@ =~= le_words(bytes@));
        lemma_le_bytes_of_words(bytes@);
    }
    Some(words)
}

/// Splitting the word joined from four bytes gives those bytes back.
pub proof fn lemma_word_bytes_of(b0: u8, b1: u8, b2: u8, b3: u8)
    ensures
        word_bytes(word_of(b0, b1, b2, b3)) == seq![b0, b1, b2, b3],
{
    let x0: u32 = b0 as u32;
    let x1: u32 = b1 as u32;
    let x2: u32 = b2 as u32;
    let x3: u32 = b3 as u32;
    let w: u32 = word_of(b0, b1, b2, b3);
    assert(w == x0 + 256 * x1 + 65536 * x2 + 16777216 * x3);
    assert(w % 256 == x0 && (w / 256) % 256 == x1 && (w / 65536) % 256 == x2 && (w / 16777216)
        % 256 == x3) by (bit_vector)
        requires
            x0 < 256,
            x1 < 256,
            x2 < 256,
            x3 < 256,
            w == x0 + 256 * x1 + 65536 * x2 + 16777216 * x3,
    ;
    assert(word_bytes(w) =~= seq![b0, b1, b2, b3]);
}

/// Joining the four bytes of a word gives the word back.
pub proof fn lemma_word_of_bytes(w: u32)
    ensures
        word_of(word_bytes(w)[0], word_bytes(w)[1], word_bytes(w)[2], word_bytes(w)[3]) == w,
{
    let x0: u32 = w % 256;
    let x1: u32 = (w / 256) % 256;
    let x2: u32 = (w / 65536) % 256;
    let x3: u32 = (w / 16777216) % 256;
    assert(x0 + 256 * x1 + 65536 * x2 + 16777216 * x3 == w) by (bit_vector)
        requires
            x0 == w % 256,
            x1 == (w / 256) % 256,
            x2 == (w / 65536) % 256,
            x3 == (w / 16777216) % 256,
    ;
}

/// Reading back the bytes written for a sequence of words gives the words.
pub proof fn lemma_le_words_of_bytes(words: Seq<u32>)
    ensures
        le_words(le_bytes(words)) == words,
{
    let bytes = le_bytes(words);
    assert forall|i: int| 0 <= i < words.len() implies le_word_at(bytes, i) == words[i] by {
        lemma_word_of_bytes(words[i]);
        assert(bytes[4 * i] == word_bytes(words[i])[0]);
        assert(bytes[4 * i + 1] == word_bytes(words[i])[1]);
        assert(bytes[4 * i + 2] == word_bytes(words[i])[2]);
        assert(bytes[4 * i + 3] == word_bytes(words[i])[3]);
    }
    assert(le_words(bytes) =~= words);
}

/// Writing out the words read from whole words of bytes gives the bytes.
pub proof fn lemma_le_bytes_of_words(bytes: Seq<u8>)
    requires
        bytes.len() % 4 == 0,
    ensures
        le_bytes(le_words(bytes)) == bytes,
{
    let words = le_words(bytes);
    assert forall|k: int| 0 <= k < bytes.len() implies word_bytes(words[k / 4])[k % 4]
        == bytes[k] by {
        let i = k / 4;
        lemma_word_bytes_of(bytes[4 * i], bytes[4 * i + 1], bytes[4 * i + 2], bytes[4 * i + 3]);
    }
    assert(le_bytes(words) =~= bytes);
}

} // verus!
