//! The shader binary format: a stream of 32-bit words that opens with a magic
//! number, whose byte order tells the byte order of the whole stream.

use crate::words::{be_word_at, be_words, le_word_at, le_words};
use vstd::prelude::*;

verus! {

/// The first word of every shader binary.
pub const MAGIC_NUMBER: u32 = 0x0723_0203;

/// Why a byte stream is not a shader binary.
#[derive(Clone, Copy, Debug, PartialEq, Eq, Structural)]
pub enum SpirvError {
    /// The length is not a multiple of four.
    NotWordAligned,
    /// There are no bytes at all.
    Empty,
    /// The first word is the magic number in neither byte order.
    WrongMagic,
}

/// `bytes` opens with the magic number written least significant byte first.
pub open spec fn has_le_magic(bytes: Seq<u8>) -> bool {
    bytes.len() >= 4 && bytes[0] == 0x03 && bytes[1] == 0x02 && bytes[2] == 0x23 && bytes[3] == 0x07
}

/// `bytes` opens with the magic number written most significant byte first.
pub open spec fn has_be_magic(bytes: Seq<u8>) -> bool {
    bytes.len() >= 4 && bytes[0] == 0x07 && bytes[1] == 0x23 && bytes[2] == 0x02 && bytes[3] == 0x03
}

/// The words of a stream, read in the byte order that its magic number shows.
pub open spec fn stream_words(bytes: Seq<u8>) -> Seq<u32> {
    if has_le_magic(bytes) {
        le_words(bytes)
    } else {
        be_words(bytes)
    }
}

/// What decoding `bytes` gives: its words, or the first check that it fails.
pub open spec fn decode_spec(bytes: Seq<u8>) -> Result<Seq<u32>, SpirvError> {
    if bytes.len() % 4 != 0 {
        Err(SpirvError::NotWordAligned)
    } else if bytes.len() == 0 {
        Err(SpirvError::Empty)
    } else if !has_le_magic(bytes) && !has_be_magic(bytes) {
        Err(SpirvError::WrongMagic)
    } else {
        Ok(stream_words(bytes))
    }
}

/// Calls `wgpu::util::make_spirv_raw`, which panics unless the input is a
/// non-empty run of whole words that opens with the magic number in either
/// byte order, and otherwise returns the words of the input, byte-swapped
/// where the magic number was found swapped: the words in the byte order
/// that the magic number shows, on any machine.
#[verifier::external_body]
fn make_spirv_raw(data: &[u8]) -> (words: Vec<u32>)
    requires
        data@.len() % 4 == 0,
        data@.len() != 0,
        has_le_magic(data@) || has_be_magic(data@),
    ensures
        words@ == stream_words(data@),
{
    wgpu::util::make_spirv_raw(data).into_owned()
}

/// Decodes a shader binary into its words.
pub fn decode(data: &[u8]) -> (result: Result<Vec<u32>, SpirvError>)
    ensures
        match decode_spec(data@) {
            Ok(words) => result is Ok && result->Ok_0@ == words,
            Err(e) => result == Err::<Vec<u32>, SpirvError>(e),
        },
{
    let n: usize = data.len();
    if n % 4 != 0 {
        return Err(SpirvError::NotWordAligned);
    }
    if n == 0 {
        return Err(SpirvError::Empty);
    }
    let le: bool = data[0] == 0x03 && data[1] == 0x02 && data[2] == 0x23 && data[3] == 0x07;
    let be: bool = data[0] == 0x07 && data[1] == 0x23 && data[2] == 0x02 && data[3] == 0x03;
    if !le && !be {
        return Err(SpirvError::WrongMagic);
    }
    Ok(make_spirv_raw(data))
}

/// A decoded shader binary opens with the magic number and has one word for
/// every four bytes of the stream.
pub proof fn lemma_decoded_stream(bytes: Seq<u8>)
    requires
        decode_spec(bytes) is Ok,
    ensures
        decode_spec(bytes)->Ok_0.len() == bytes.len() / 4,
        decode_spec(bytes)->Ok_0[0] == MAGIC_NUMBER,
{
    if has_le_magic(bytes) {
        assert(le_word_at(bytes, 0) == MAGIC_NUMBER);
    } else {
        assert(be_word_at(bytes, 0) == MAGIC_NUMBER);
    }
}

} // verus!
