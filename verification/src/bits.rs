//! Bit fields of 32-bit words, numbered from the most significant bit, and the
//! big-endian words of a byte buffer.

use vstd::arithmetic::div_mod::{lemma_breakdown, lemma_div_denominator};
use vstd::arithmetic::power2::{lemma2_to64, lemma_pow2_adds, lemma_pow2_pos, pow2};
use vstd::bits::{
    lemma_u32_low_bits_mask_is_mod, lemma_u32_pow2_no_overflow, lemma_u32_shl_is_mul,
    lemma_u32_shr_is_div, low_bits_mask,
};
use vstd::prelude::*;

verus! {

/// The `count`-bit field of `word` that starts `offset` bits below the most
/// significant bit, as a number.
pub open spec fn extract(word: u32, offset: nat, count: nat) -> nat
    recommends
        offset + count <= 32,
{
    (word as nat / pow2((32 - offset - count) as nat)) % pow2(count)
}

/// Reads the `count`-bit field at `offset` (bit 0 is the most significant).
pub fn get_bits(word: u32, offset: u32, count: u32) -> (field: u32)
    requires
        offset + count <= 32,
    ensures
        field == extract(word, offset as nat, count as nat),
        field < pow2(count as nat),
{
    let shift: u32 = 32 - offset - count;
    proof {
        lemma2_to64();
        lemma_pow2_pos(shift as nat);
        lemma_pow2_pos(count as nat);
    }
    if count == 0 {
        0
    } else if count == 32 {
        proof {
            assert(pow2((32 - offset as nat - count as nat) as nat) == 1);
            assert(word as nat / 1 == word);
            assert((word as nat) % 0x100000000 == word);
        }
        word
    } else {
        proof {
            lemma_u32_pow2_no_overflow(count as nat);
            lemma_u32_shl_is_mul(1u32, count);
        }
        let shifted: u32 = word >> shift;
        let mask: u32 = (1u32 << count) - 1;
        proof {
            lemma_u32_shr_is_div(word, shift);
            lemma_u32_low_bits_mask_is_mod(shifted, count as nat);
            assert(mask == low_bits_mask(count as nat) as u32);
        }
        shifted & mask
    }
}

/// A field of `count` bits is a number below `2^count`.
pub proof fn lemma_extract_bound(word: u32, offset: nat, count: nat)
    ensures
        extract(word, offset, count) < pow2(count),
{
    lemma_pow2_pos(count);
}

/// The field that spans the whole word is the word.
pub proof fn lemma_extract_whole(word: u32)
    ensures
        extract(word, 0, 32) == word,
{
    lemma2_to64();
    assert(pow2((32 - 0 - 32) as nat) == 1);
    assert(word as nat / 1 == word);
    assert((word as nat) % 0x100000000 == word);
}

/// Two adjacent fields make up the field that spans both: the first one
/// supplies the high bits, the second one the low bits.
pub proof fn lemma_extract_adjacent(word: u32, offset: nat, first: nat, second: nat)
    requires
        offset + first + second <= 32,
    ensures
        extract(word, offset, first + second) == extract(word, offset, first) * pow2(second)
            + extract(word, offset + first, second),
{
    let rest = (32 - offset - first - second) as nat;
    let high = word as int / pow2(rest) as int;
    lemma_pow2_pos(rest);
    lemma_pow2_pos(first);
    lemma_pow2_pos(second);
    lemma_pow2_adds(second, first);
    lemma_pow2_adds(rest, second);
    assert((32 - offset - first) as nat == rest + second);
    assert((32 - (offset + first) - second) as nat == rest);
    assert((32 - offset - (first + second)) as nat == rest);
    assert(high >= 0) by (nonlinear_arith)
        requires
            high == word as int / pow2(rest) as int,
            pow2(rest) > 0,
    ;
    lemma_div_denominator(word as int, pow2(rest) as int, pow2(second) as int);
    lemma_breakdown(high, pow2(second) as int, pow2(first) as int);
    assert(pow2(second) as int * ((high / pow2(second) as int) % pow2(first) as int) == ((high
        / pow2(second) as int) % pow2(first) as int) * pow2(second) as int) by (nonlinear_arith);
}

/// The sum of the widths in `widths`.
pub open spec fn total_width(widths: Seq<nat>) -> nat
    decreases widths.len(),
{
    if widths.len() == 0 {
        0
    } else {
        total_width(widths.drop_last()) + widths.last()
    }
}

/// The number obtained by reading consecutive fields of the given widths,
/// the first of them at `offset`, and writing them side by side again.
pub open spec fn reassemble(word: u32, offset: nat, widths: Seq<nat>) -> nat
    decreases widths.len(),
{
    if widths.len() == 0 {
        0
    } else {
        reassemble(word, offset, widths.drop_last()) * pow2(widths.last()) + extract(
            word,
            offset + total_width(widths.drop_last()),
            widths.last(),
        )
    }
}

/// Consecutive fields, put side by side, are the one field that spans them.
pub proof fn lemma_reassemble_span(word: u32, offset: nat, widths: Seq<nat>)
    requires
        offset + total_width(widths) <= 32,
    ensures
        reassemble(word, offset, widths) == extract(word, offset, total_width(widths)),
    decreases widths.len(),
{
    if widths.len() == 0 {
        lemma2_to64();
        assert(extract(word, offset, 0) == 0);
    } else {
        let front = widths.drop_last();
        lemma_reassemble_span(word, offset, front);
        lemma_extract_adjacent(word, offset, total_width(front), widths.last());
    }
}

/// Fields that partition the 32 bits of a word, read one by one and put side
/// by side again, give the word back.
pub proof fn lemma_partition_reconstructs(word: u32, widths: Seq<nat>)
    requires
        total_width(widths) == 32,
    ensures
        reassemble(word, 0, widths) == word,
{
    lemma_reassemble_span(word, 0, widths);
    lemma_extract_whole(word);
}

} // verus!
