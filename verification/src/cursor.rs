//! Blocks of a byte buffer, and the cursor that walks them.

use crate::statement::DecodeError;
use vstd::prelude::*;
use vstd::slice::slice_subrange;
use vstd::slice::slice_to_vec;

verus! {

/// The length of a block in bytes.
pub const BINASM_RECORD_LENGTH: usize = 0x10;

/// The four big-endian words of one block.
#[derive(Clone, Copy, Debug, PartialEq, Eq, Structural)]
pub struct Block {
    pub w0: u32,
    pub w1: u32,
    pub w2: u32,
    pub w3: u32,
}

/// The word whose bytes are `b0` to `b3`, most significant first.
pub open spec fn be_word(b0: u8, b1: u8, b2: u8, b3: u8) -> u32 {
    (b0 as nat * 0x1000000 + b1 as nat * 0x10000 + b2 as nat * 0x100 + b3 as nat) as u32
}

/// The big-endian word that starts at byte `at` of `bytes`.
pub open spec fn word_at(bytes: Seq<u8>, at: int) -> u32
    recommends
        0 <= at,
        at + 4 <= bytes.len(),
{
    be_word(bytes[at], bytes[at + 1], bytes[at + 2], bytes[at + 3])
}

/// The block that starts at byte `off` of `bytes`.
pub open spec fn block_at(bytes: Seq<u8>, off: int) -> Block
    recommends
        0 <= off,
        off + 16 <= bytes.len(),
{
    Block {
        w0: word_at(bytes, off),
        w1: word_at(bytes, off + 4),
        w2: word_at(bytes, off + 8),
        w3: word_at(bytes, off + 12),
    }
}

/// The word read as a signed number in two's complement.
pub open spec fn signed_word(word: u32) -> i32 {
    if word < 0x8000_0000 {
        word as i32
    } else {
        (word - 0x1_0000_0000) as i32
    }
}

/// The low sixteen bits of the word, read as a signed number in two's
/// complement.
pub open spec fn signed_half(word: u32) -> i16 {
    if word % 0x1_0000 < 0x8000 {
        (word % 0x1_0000) as i16
    } else {
        (word % 0x1_0000 - 0x1_0000) as i16
    }
}

/// Puts four bytes together, most significant first.
pub fn word_from_be(b0: u8, b1: u8, b2: u8, b3: u8) -> (word: u32)
    ensures
        word == be_word(b0, b1, b2, b3),
{
    let word: u32 = ((b0 as u32) << 24) | ((b1 as u32) << 16) | ((b2 as u32) << 8) | (b3 as u32);
    assert(word == b0 as u32 * 0x1000000 + b1 as u32 * 0x10000 + b2 as u32 * 0x100 + b3 as u32)
        by (bit_vector)
        requires
            word == ((b0 as u32) << 24) | ((b1 as u32) << 16) | ((b2 as u32) << 8) | (b3 as u32),
    ;
    word
}

/// The word as a signed number.
pub fn as_signed(word: u32) -> (value: i32)
    ensures
        value == signed_word(word),
{
    let value: i32 = #[verifier::truncate]
    (word as i32);
    assert(word < 0x8000_0000 ==> value == word) by (bit_vector)
        requires
            value == word as i32,
    ;
    assert(word >= 0x8000_0000 ==> value == word - 0x1_0000_0000) by (bit_vector)
        requires
            value == word as i32,
    ;
    value
}

/// The low half of the word as a signed number.
pub fn as_signed_half(word: u32) -> (value: i16)
    ensures
        value == signed_half(word),
{
    let value: i16 = #[verifier::truncate]
    (word as i16);
    assert(word % 0x1_0000 < 0x8000 ==> value == word % 0x1_0000) by (bit_vector)
        requires
            value == word as i16,
    ;
    assert(word % 0x1_0000 >= 0x8000 ==> value == word % 0x1_0000 - 0x1_0000) by (bit_vector)
        requires
            value == word as i16,
    ;
    value
}

/// The number of whole blocks that a literal of `length` bytes takes.
pub open spec fn payload_blocks(length: nat) -> nat {
    (length + 15) / 16
}

/// Whether the block that starts at `off` lies within a buffer of `len`
/// bytes.
pub open spec fn block_fits(len: nat, off: nat) -> bool {
    off + 16 <= len
}

/// Whether the block at `off` and the blocks of a literal of `length` bytes
/// behind it lie within a buffer of `len` bytes.
pub open spec fn payload_fits(len: nat, off: nat, length: nat) -> bool {
    off + 16 + 16 * payload_blocks(length) <= len
}

/// The bytes of a literal of `length` bytes that follows the block at `off`.
pub open spec fn payload_at(bytes: Seq<u8>, off: nat, length: nat) -> Seq<u8>
    recommends
        payload_fits(bytes.len(), off, length),
{
    bytes.subrange(off as int + 16, off as int + 16 + length as int)
}

/// A position in a byte buffer that never lies behind its end.
pub struct Cursor<'a> {
    bytes: &'a [u8],
    offset: usize,
}

impl<'a> Cursor<'a> {
    #[verifier::type_invariant]
    spec fn within(self) -> bool {
        self.offset <= self.bytes@.len()
    }

    /// The buffer that the cursor walks.
    pub closed spec fn buffer(&self) -> Seq<u8> {
        self.bytes@
    }

    /// The byte offset that the cursor stands at.
    pub closed spec fn position(&self) -> nat {
        self.offset as nat
    }

    /// A cursor at the start of `bytes`.
    pub fn new(bytes: &'a [u8]) -> (cursor: Self)
        ensures
            cursor.buffer() == bytes@,
            cursor.position() == 0,
    {
        Cursor { bytes, offset: 0 }
    }

    /// The byte offset that the cursor stands at.
    pub fn offset(&self) -> (off: usize)
        ensures
            off == self.position(),
            off <= self.buffer().len(),
    {
        proof {
            use_type_invariant(self);
        }
        self.offset
    }

    /// The buffer that the cursor walks.
    pub fn bytes(&self) -> (bytes: &'a [u8])
        ensures
            bytes@ == self.buffer(),
    {
        self.bytes
    }

    /// Whether the cursor stands at the end of the buffer.
    pub fn at_end(&self) -> (end: bool)
        ensures
            end == (self.position() == self.buffer().len()),
    {
        self.offset == self.bytes.len()
    }

    /// The block at the cursor; `Truncated` where fewer than sixteen bytes
    /// are left.
    pub fn peek_block(&self) -> (block: Result<Block, DecodeError>)
        ensures
            block == if block_fits(self.buffer().len(), self.position()) {
                Ok::<Block, DecodeError>(block_at(self.buffer(), self.position() as int))
            } else {
                Err::<Block, DecodeError>(DecodeError::Truncated)
            },
    {
        proof {
            use_type_invariant(self);
        }
        let off = self.offset;
        let bytes = self.bytes;
        if bytes.len() - off < BINASM_RECORD_LENGTH {
            return Err(DecodeError::Truncated);
        }
        Ok(
            Block {
                w0: word_from_be(bytes[off], bytes[off + 1], bytes[off + 2], bytes[off + 3]),
                w1: word_from_be(bytes[off + 4], bytes[off + 5], bytes[off + 6], bytes[off + 7]),
                w2: word_from_be(bytes[off + 8], bytes[off + 9], bytes[off + 10], bytes[off + 11]),
                w3: word_from_be(
                    bytes[off + 12],
                    bytes[off + 13],
                    bytes[off + 14],
                    bytes[off + 15],
                ),
            },
        )
    }

    /// The bytes of a literal of `length` bytes behind the block at the
    /// cursor; `Truncated` where that block or the blocks of the literal run
    /// past the end of the buffer.
    pub fn peek_payload(&self, length: u32) -> (payload: Result<Vec<u8>, DecodeError>)
        ensures
            match payload {
                Ok(content) => payload_fits(
                    self.buffer().len(),
                    self.position(),
                    length as nat,
                ) && content@ == payload_at(self.buffer(), self.position(), length as nat),
                Err(e) => e == DecodeError::Truncated && !payload_fits(
                    self.buffer().len(),
                    self.position(),
                    length as nat,
                ),
            },
    {
        proof {
            use_type_invariant(self);
        }
        let off = self.offset;
        let bytes = self.bytes;
        let left: usize = bytes.len() - off;
        let blocks: usize = (length / 16) as usize + if length % 16 == 0 {
            0
        } else {
            1
        };
        assert(blocks == payload_blocks(length as nat));
        if left / 16 < 1 || left / 16 - 1 < blocks {
            return Err(DecodeError::Truncated);
        }
        let start: usize = off + 16;
        let content = slice_to_vec(slice_subrange(bytes, start, start + length as usize));
        Ok(content)
    }

    /// Moves the cursor forward by `n_blocks` blocks.
    pub fn advance(&mut self, n_blocks: usize)
        requires
            old(self).position() + 16 * n_blocks <= old(self).buffer().len(),
        ensures
            final(self).position() == old(self).position() + 16 * n_blocks,
            final(self).buffer() == old(self).buffer(),
    {
        let len: usize = self.bytes.len();
        assert(self.offset + 16 * n_blocks <= len);
        self.offset = self.offset + BINASM_RECORD_LENGTH * n_blocks;
    }
}

} // verus!
