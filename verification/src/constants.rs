//! The push-constant block: the parameters that the shader reads on every
//! draw, and the fixed layout in which they travel to the GPU.

use crate::words::{
    le_bytes, le_words, lemma_le_bytes_of_words, lemma_le_words_of_bytes, pack_words, unpack_words,
};
use vstd::prelude::*;

verus! {

/// The size of the block on the wire, in bytes.
pub const PUSH_CONSTANT_SIZE: u32 = 64;

/// The number of 32-bit words in the block.
pub const PUSH_CONSTANT_WORDS: usize = 16;

/// The largest push-constant block that the device is asked to accept.
pub const MAX_PUSH_CONSTANT_SIZE: u32 = 128;

/// A 32-bit IEEE 754 number, held as its bit pattern. Two scalars are equal
/// when their bits are.
#[derive(Clone, Copy, Debug, PartialEq, Eq, Structural)]
pub struct Scalar {
    pub bits: u32,
}

impl Scalar {
    /// The scalar with the given bit pattern.
    pub fn from_bits(bits: u32) -> (s: Scalar)
        ensures
            s.bits == bits,
    {
        Scalar { bits }
    }

    /// The bit pattern of the scalar.
    pub fn to_bits(self) -> (bits: u32)
        ensures
            bits == self.bits,
    {
        self.bits
    }

    /// Positive zero.
    pub fn zero() -> (s: Scalar)
        ensures
            s.bits == 0,
    {
        Scalar { bits: 0 }
    }

    /// The number one.
    pub fn one() -> (s: Scalar)
        ensures
            s.bits == 0x3f80_0000,
    {
        Scalar { bits: 0x3f80_0000 }
    }
}

/// The parameters pushed to the shader with every draw. On the wire the
/// fields follow one another in the order of declaration, four bytes each,
/// without padding.
#[derive(Clone, Copy, Debug, PartialEq, Eq)]
pub struct ShaderConstants {
    pub width: u32,
    pub height: u32,
    pub time: Scalar,
    pub cursor_x: Scalar,
    pub cursor_y: Scalar,
    pub drag_start_x: Scalar,
    pub drag_start_y: Scalar,
    pub drag_end_x: Scalar,
    pub drag_end_y: Scalar,
    pub zoom: Scalar,
    pub translate_x: Scalar,
    pub translate_y: Scalar,
    /// Bit mask of the buttons that are down (bit 0 left, 1 middle, 2 right).
    pub mouse_button_pressed: u32,
    /// When each of the three buttons was last pressed.
    pub mouse_button_press_time: [Scalar; 3],
}

impl ShaderConstants {
    /// The sixteen words of the block in wire order.
    pub open spec fn wire_words(self) -> Seq<u32> {
        seq![
            self.width,
            self.height,
            self.time.bits,
            self.cursor_x.bits,
            self.cursor_y.bits,
            self.drag_start_x.bits,
            self.drag_start_y.bits,
            self.drag_end_x.bits,
            self.drag_end_y.bits,
            self.zoom.bits,
            self.translate_x.bits,
            self.translate_y.bits,
            self.mouse_button_pressed,
            self.mouse_button_press_time[0].bits,
            self.mouse_button_press_time[1].bits,
            self.mouse_button_press_time[2].bits,
        ]
    }

    /// The byte image of the block: its words in wire order, each least
    /// significant byte first.
    pub open spec fn wire_bytes(self) -> Seq<u8> {
        le_bytes(self.wire_words())
    }

    /// The block before any input: a 400 by 400 viewport at zoom one, all
    /// else zero.
    pub open spec fn initial_spec() -> Seq<u32> {
        seq![400u32, 400u32, 0, 0, 0, 0, 0, 0, 0, 0x3f80_0000u32, 0, 0, 0, 0, 0, 0]
    }

    /// The block before any input.
    pub fn initial() -> (c: ShaderConstants)
        ensures
            c.wire_words() == Self::initial_spec(),
    {
        let c = ShaderConstants {
            width: 400,
            height: 400,
            time: Scalar::zero(),
            cursor_x: Scalar::zero(),
            cursor_y: Scalar::zero(),
            drag_start_x: Scalar::zero(),
            drag_start_y: Scalar::zero(),
            drag_end_x: Scalar::zero(),
            drag_end_y: Scalar::zero(),
            zoom: Scalar::one(),
            translate_x: Scalar::zero(),
            translate_y: Scalar::zero(),
            mouse_button_pressed: 0,
            mouse_button_press_time: [Scalar::zero(), Scalar::zero(), Scalar::zero()],
        };
        assert(c.wire_words() =~= Self::initial_spec());
        c
    }

    /// The words of the block in wire order.
    pub fn to_words(&self) -> (words: [u32; 16])
        ensures
            words@ == self.wire_words(),
    {
        let words: [u32; 16] = [
            self.width,
            self.height,
            self.time.bits,
            self.cursor_x.bits,
            self.cursor_y.bits,
            self.drag_start_x.bits,
            self.drag_start_y.bits,
            self.drag_end_x.bits,
            self.drag_end_y.bits,
            self.zoom.bits,
            self.translate_x.bits,
            self.translate_y.bits,
            self.mouse_button_pressed,
            self.mouse_button_press_time[0].bits,
            self.mouse_button_press_time[1].bits,
            self.mouse_button_press_time[2].bits,
        ];
        assert(words@ =~= self.wire_words());
        words
    }

    /// The block whose words in wire order are `words`. There is one exactly
    /// when `words` has the length of a block.
    pub fn from_words(words: &[u32]) -> (result: Option<ShaderConstants>)
        ensures
            result is Some <==> words@.len() == PUSH_CONSTANT_WORDS,
            result matches Some(c) ==> c.wire_words() == words@,
    {
        if words.len() != 16 {
            return None;
        }
        let c = ShaderConstants {
            width: words[0],
            height: words[1],
            time: Scalar { bits: words[2] },
            cursor_x: Scalar { bits: words[3] },
            cursor_y: Scalar { bits: words[4] },
            drag_start_x: Scalar { bits: words[5] },
            drag_start_y: Scalar { bits: words[6] },
            drag_end_x: Scalar { bits: words[7] },
            drag_end_y: Scalar { bits: words[8] },
            zoom: Scalar { bits: words[9] },
            translate_x: Scalar { bits: words[10] },
            translate_y: Scalar { bits: words[11] },
            mouse_button_pressed: words[12],
            mouse_button_press_time: [
                Scalar { bits: words[13] },
                Scalar { bits: words[14] },
                Scalar { bits: words[15] },
            ],
        };
        assert(c.wire_words() =~= words@);
        Some(c)
    }

    /// Packs the block into its byte image.
    pub fn to_bytes(&self) -> (bytes: Vec<u8>)
        ensures
            bytes@ == self.wire_bytes(),
            bytes@.len() == PUSH_CONSTANT_SIZE,
    {
        let words: [u32; 16] = self.to_words();
        pack_words(words.as_slice())
    }

    /// Unpacks a byte image. There is a block exactly when `bytes` has the
    /// size of one, and it is the one block with that image.
    pub fn from_bytes(bytes: &[u8]) -> (result: Option<ShaderConstants>)
        ensures
            result is Some <==> bytes@.len() == PUSH_CONSTANT_SIZE,
            result matches Some(c) ==> c.wire_bytes() == bytes@ && c.wire_words() == le_words(
                bytes@,
            ),
    {
        if bytes.len() != 64 {
            return None;
        }
        match unpack_words(bytes) {
            Some(words) => Self::from_words(words.as_slice()),
            None => None,
        }
    }
}

/// The block fits the device's push-constant limit and is made of whole
/// 16-byte units, sixteen words of four bytes.
pub proof fn lemma_block_size()
    ensures
        PUSH_CONSTANT_SIZE <= MAX_PUSH_CONSTANT_SIZE,
        PUSH_CONSTANT_SIZE % 16 == 0,
        PUSH_CONSTANT_SIZE == 4 * PUSH_CONSTANT_WORDS,
        forall|c: ShaderConstants| #[trigger] c.wire_bytes().len() == PUSH_CONSTANT_SIZE,
{
}

/// Two blocks with the same words in wire order are the same block.
pub proof fn lemma_words_determine_block(a: ShaderConstants, b: ShaderConstants)
    requires
        a.wire_words() == b.wire_words(),
    ensures
        a == b,
{
    let wa = a.wire_words();
    let wb = b.wire_words();
    assert(a.width == wa[0] && b.width == wb[0]);
    assert(a.height == wa[1] && b.height == wb[1]);
    assert(a.time.bits == wa[2] && b.time.bits == wb[2]);
    assert(a.cursor_x.bits == wa[3] && b.cursor_x.bits == wb[3]);
    assert(a.cursor_y.bits == wa[4] && b.cursor_y.bits == wb[4]);
    assert(a.drag_start_x.bits == wa[5] && b.drag_start_x.bits == wb[5]);
    assert(a.drag_start_y.bits == wa[6] && b.drag_start_y.bits == wb[6]);
    assert(a.drag_end_x.bits == wa[7] && b.drag_end_x.bits == wb[7]);
    assert(a.drag_end_y.bits == wa[8] && b.drag_end_y.bits == wb[8]);
    assert(a.zoom.bits == wa[9] && b.zoom.bits == wb[9]);
    assert(a.translate_x.bits == wa[10] && b.translate_x.bits == wb[10]);
    assert(a.translate_y.bits == wa[11] && b.translate_y.bits == wb[11]);
    assert(a.mouse_button_pressed == wa[12] && b.mouse_button_pressed == wb[12]);
    assert(a.mouse_button_press_time[0].bits == wa[13] && b.mouse_button_press_time[0].bits
        == wb[13]);
    assert(a.mouse_button_press_time[1].bits == wa[14] && b.mouse_button_press_time[1].bits
        == wb[14]);
    assert(a.mouse_button_press_time[2].bits == wa[15] && b.mouse_button_press_time[2].bits
        == wb[15]);
    assert(a.mouse_button_press_time =~= b.mouse_button_press_time);
}

/// Packing a block and unpacking the bytes gives the block back: a block
/// with the byte image of `c` is `c`.
pub proof fn lemma_pack_then_unpack(c: ShaderConstants, unpacked: ShaderConstants)
    requires
        unpacked.wire_bytes() == c.wire_bytes(),
    ensures
        unpacked == c,
{
    lemma_le_words_of_bytes(c.wire_words());
    lemma_le_words_of_bytes(unpacked.wire_words());
    lemma_words_determine_block(unpacked, c);
}

/// Unpacking bytes and packing the block gives the bytes back, byte for
/// byte: the block whose words are those of a 64-byte image has that image.
pub proof fn lemma_unpack_then_pack(bytes: Seq<u8>, c: ShaderConstants)
    requires
        bytes.len() == PUSH_CONSTANT_SIZE,
        c.wire_words() == le_words(bytes),
    ensures
        c.wire_bytes() == bytes,
{
    lemma_le_bytes_of_words(bytes);
}

} // verus!
