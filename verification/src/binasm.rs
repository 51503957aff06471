//! The pass over a whole buffer: one entry for each record, in order.

use crate::bits::{extract, get_bits};
use crate::cursor::{block_at, block_fits, Cursor};
use crate::decode::{outcome_view, process_record, record_at};
use crate::mips::{Itype, Lexicon};
use crate::render::render_text;
use crate::statement::{Asm, AsmView, DecodeError};
use crate::text::{decimal, decimal_string, hex_bytes, pad_right, pad_right_string, push_hex_bytes};
use vstd::prelude::*;
use vstd::string::*;

verus! {

/// What stands for the kind of the record at `off` in a diagnostic line: the
/// name of the kind, the number of a kind code that stands for none, or
/// `truncated` where no whole block is left.
pub open spec fn diagnostic_label(bytes: Seq<u8>, off: nat) -> Seq<char> {
    if block_fits(bytes.len(), off) {
        let code = extract(block_at(bytes, off as int).w1, 10, 6);
        match Itype::lookup(code) {
            Some(kind) => kind.name(),
            None => decimal(code),
        }
    } else {
        "truncated"@
    }
}

/// The bytes of the block at `off`, as far as the buffer has them.
pub open spec fn raw_block(bytes: Seq<u8>, off: nat) -> Seq<u8>
    recommends
        off <= bytes.len(),
{
    bytes.subrange(
        off as int,
        if block_fits(bytes.len(), off) {
            off as int + 16
        } else {
            bytes.len() as int
        },
    )
}

/// The line that reports the record at `off` as not decoded: the label in a
/// column of twelve, a colon, and the bytes of the block in hexadecimal.
pub open spec fn diagnostic_text(bytes: Seq<u8>, off: nat) -> Seq<char> {
    pad_right(diagnostic_label(bytes, off), 12) + ": "@ + hex_bytes(raw_block(bytes, off))
}

/// The line that reports the record at the cursor as not decoded.
pub fn diagnostic(cursor: &Cursor) -> (line: String)
    ensures
        line@ == diagnostic_text(cursor.buffer(), cursor.position()),
{
    let bytes = cursor.bytes();
    let off = cursor.offset();
    let label = match cursor.peek_block() {
        Ok(block) => {
            let code = get_bits(block.w1, 10, 6);
            match Itype::from_repr(code as usize) {
                Some(kind) => String::from_str(kind.name_str()),
                None => decimal_string(code as u64),
            }
        },
        Err(_) => String::from_str("truncated"),
    };
    let end = if bytes.len() - off >= 16 {
        off + 16
    } else {
        bytes.len()
    };
    let mut line = pad_right_string(label, 12);
    line.append(": ");
    push_hex_bytes(&mut line, bytes, off, end);
    line
}

/// One record of a listing.
#[derive(Debug, PartialEq, Eq)]
pub struct Entry {
    /// The byte offset of the record.
    pub offset: usize,
    /// The blocks that the record takes; none where it is truncated.
    pub blocks: usize,
    /// The statement, or why there is none.
    pub outcome: Result<Asm, DecodeError>,
    /// The line of assembly text for the statement, or the diagnostic line.
    pub line: String,
}

/// An entry as a mathematical value.
pub ghost struct EntryView {
    pub offset: nat,
    pub blocks: nat,
    pub outcome: Result<AsmView, DecodeError>,
    pub line: Seq<char>,
}

impl View for Entry {
    type V = EntryView;

    open spec fn view(&self) -> EntryView {
        EntryView {
            offset: self.offset as nat,
            blocks: self.blocks as nat,
            outcome: outcome_view(self.outcome),
            line: self.line@,
        }
    }
}

/// The entries as mathematical values.
pub open spec fn entries_view(entries: Seq<Entry>) -> Seq<EntryView> {
    entries.map_values(|e: Entry| e@)
}

/// What a pass over a buffer gives.
#[derive(Debug, PartialEq, Eq)]
pub struct Listing {
    /// One entry for each record, in the order of the buffer.
    pub entries: Vec<Entry>,
    /// The number of bytes that the records take together.
    pub consumed: usize,
}

/// The entry for the record at `off`: a statement with its line of
/// assembly text, or an error with the diagnostic line.
pub open spec fn entry_at(bytes: Seq<u8>, off: nat, lex: &Lexicon) -> EntryView {
    let decoded = record_at(bytes, off, lex);
    EntryView {
        offset: off,
        blocks: decoded.blocks,
        outcome: decoded.outcome,
        line: match decoded.outcome {
            Ok(statement) => render_text(statement, lex),
            Err(_) => diagnostic_text(bytes, off),
        },
    }
}

/// A record that is not truncated takes at least one block and lies within
/// the buffer; a truncated one takes none.
pub proof fn lemma_record_bounds(bytes: Seq<u8>, off: nat, lex: &Lexicon)
    ensures
        record_at(bytes, off, lex).outcome == Err::<AsmView, DecodeError>(DecodeError::Truncated)
            <==> record_at(bytes, off, lex).blocks == 0,
        record_at(bytes, off, lex).blocks > 0 ==> off + 16 * record_at(bytes, off, lex).blocks
            <= bytes.len(),
{
}

/// The entries of the pass that starts at `off`: the entry of the record
/// there and, unless that record is truncated, those from the end of it on.
/// A record that does not decode has its entry like any other.
pub open spec fn listing_from(bytes: Seq<u8>, off: nat, lex: &Lexicon) -> Seq<EntryView>
    decreases bytes.len() - off,
{
    if off >= bytes.len() {
        Seq::empty()
    } else {
        let entry = entry_at(bytes, off, lex);
        if entry.blocks == 0 {
            seq![entry]
        } else {
            proof {
                lemma_record_bounds(bytes, off, lex);
            }
            seq![entry] + listing_from(bytes, off + 16 * entry.blocks, lex)
        }
    }
}

/// The offset at which the pass that starts at `off` ends: the end of the
/// buffer, or the start of the first truncated record.
pub open spec fn consumed_from(bytes: Seq<u8>, off: nat, lex: &Lexicon) -> nat
    decreases bytes.len() - off,
{
    if off >= bytes.len() {
        off
    } else {
        let blocks = record_at(bytes, off, lex).blocks;
        if blocks == 0 {
            off
        } else {
            proof {
                lemma_record_bounds(bytes, off, lex);
            }
            consumed_from(bytes, off + 16 * blocks, lex)
        }
    }
}

/// Decodes the records of `bytes` one after the other and renders each.
pub fn process_records(bytes: &[u8], lex: &Lexicon) -> (listing: Listing)
    ensures
        entries_view(listing.entries@) == listing_from(bytes@, 0, lex),
        listing.consumed == consumed_from(bytes@, 0, lex),
        listing.consumed <= bytes@.len(),
{
    let mut cursor = Cursor::new(bytes);
    let mut entries: Vec<Entry> = Vec::new();
    let mut truncated = false;
    assert(entries_view(entries@) + listing_from(bytes@, 0, lex) =~= listing_from(bytes@, 0, lex));
    while !truncated && !cursor.at_end()
        invariant
            cursor.buffer() == bytes@,
            cursor.position() <= bytes@.len(),
            truncated ==> entries_view(entries@) == listing_from(bytes@, 0, lex),
            truncated ==> cursor.position() == consumed_from(bytes@, 0, lex),
            !truncated ==> entries_view(entries@) + listing_from(bytes@, cursor.position(), lex)
                == listing_from(bytes@, 0, lex),
            !truncated ==> consumed_from(bytes@, cursor.position(), lex) == consumed_from(
                bytes@,
                0,
                lex,
            ),
        decreases bytes@.len() - cursor.position() + if truncated { 0int } else { 1int },
    {
        let offset = cursor.offset();
        let decoded = process_record(&cursor, lex);
        let line = match &decoded.outcome {
            Ok(statement) => statement.render(lex),
            Err(_) => diagnostic(&cursor),
        };
        let blocks = decoded.blocks;
        let entry = Entry { offset, blocks, outcome: decoded.outcome, line };
        proof {
            lemma_record_bounds(bytes@, offset as nat, lex);
            assert(entry@ == entry_at(bytes@, offset as nat, lex));
        }
        let ghost before = entries_view(entries@);
        entries.push(entry);
        assert(entries_view(entries@) =~= before + seq![entry@]);
        if blocks == 0 {
            truncated = true;
            assert(entries_view(entries@) =~= before + listing_from(bytes@, offset as nat, lex));
        } else {
            cursor.advance(blocks);
            assert(entries_view(entries@) + listing_from(bytes@, cursor.position(), lex)
                =~= before + listing_from(bytes@, offset as nat, lex));
        }
    }
    assert(!truncated ==> entries_view(entries@) =~= listing_from(bytes@, 0, lex));
    Listing { entries, consumed: cursor.offset() }
}

/// After a record that is not truncated, whether it decoded or not, the
/// pass goes on at the end of that record.
pub proof fn lemma_pass_goes_on(bytes: Seq<u8>, off: nat, lex: &Lexicon)
    requires
        off < bytes.len(),
        record_at(bytes, off, lex).outcome != Err::<AsmView, DecodeError>(DecodeError::Truncated),
    ensures
        record_at(bytes, off, lex).blocks >= 1,
        listing_from(bytes, off, lex) == seq![entry_at(bytes, off, lex)] + listing_from(
            bytes,
            off + 16 * record_at(bytes, off, lex).blocks,
            lex,
        ),
{
    lemma_record_bounds(bytes, off, lex);
}

/// A record whose kind code stands for no kind is reported as such and
/// takes one block; the pass goes on with the next block.
pub proof fn lemma_unknown_kind_is_passed_over(bytes: Seq<u8>, off: nat, lex: &Lexicon)
    requires
        block_fits(bytes.len(), off),
        Itype::lookup(extract(block_at(bytes, off as int).w1, 10, 6)) is None,
    ensures
        entry_at(bytes, off, lex).outcome == Err::<AsmView, DecodeError>(
            DecodeError::UnrecognizedDiscriminant,
        ),
        entry_at(bytes, off, lex).line == diagnostic_text(bytes, off),
        listing_from(bytes, off, lex) == seq![entry_at(bytes, off, lex)] + listing_from(
            bytes,
            off + 16,
            lex,
        ),
{
    lemma_record_bounds(bytes, off, lex);
}

/// The bytes that the records of the entries take together.
pub open spec fn advance_sum(entries: Seq<EntryView>) -> nat
    decreases entries.len(),
{
    if entries.len() == 0 {
        0
    } else {
        16 * entries[0].blocks + advance_sum(entries.drop_first())
    }
}

/// Whether each record that the pass from `off` comes to, and that the
/// buffer has the first block of, lies within the buffer with the blocks
/// of its literal.
pub open spec fn literals_fit(bytes: Seq<u8>, off: nat, lex: &Lexicon) -> bool
    decreases bytes.len() - off,
{
    if !block_fits(bytes.len(), off) {
        true
    } else {
        let blocks = record_at(bytes, off, lex).blocks;
        if blocks == 0 {
            false
        } else {
            proof {
                lemma_record_bounds(bytes, off, lex);
            }
            literals_fit(bytes, off + 16 * blocks, lex)
        }
    }
}

/// A pass never goes beyond the end of the buffer, and it ends where the
/// advances of its records, added to its start, lead.
pub proof fn lemma_advances_add_up(bytes: Seq<u8>, off: nat, lex: &Lexicon)
    requires
        off <= bytes.len(),
    ensures
        consumed_from(bytes, off, lex) <= bytes.len(),
        off + advance_sum(listing_from(bytes, off, lex)) == consumed_from(bytes, off, lex),
    decreases bytes.len() - off,
{
    if off < bytes.len() {
        let entry = entry_at(bytes, off, lex);
        lemma_record_bounds(bytes, off, lex);
        if entry.blocks == 0 {
            assert(seq![entry].drop_first() =~= Seq::<EntryView>::empty());
            assert(advance_sum(Seq::<EntryView>::empty()) == 0);
            assert(advance_sum(seq![entry]) == 0);
        } else {
            let next = (off + 16 * entry.blocks) as nat;
            let rest = listing_from(bytes, next, lex);
            lemma_advances_add_up(bytes, next, lex);
            assert((seq![entry] + rest).drop_first() =~= rest);
            assert((seq![entry] + rest)[0] == entry);
            assert(advance_sum(seq![entry] + rest) == 16 * entry.blocks + advance_sum(rest));
        }
    }
}

/// A pass from a block boundary on, over a buffer that ends on a block
/// boundary and cuts no literal short, ends at the end of the buffer.
pub proof fn lemma_aligned_pass_ends_at_end(bytes: Seq<u8>, off: nat, lex: &Lexicon)
    requires
        off <= bytes.len(),
        (bytes.len() - off) % 16 == 0,
        literals_fit(bytes, off, lex),
    ensures
        consumed_from(bytes, off, lex) == bytes.len(),
    decreases bytes.len() - off,
{
    if off < bytes.len() {
        lemma_record_bounds(bytes, off, lex);
        let blocks = record_at(bytes, off, lex).blocks;
        lemma_aligned_pass_ends_at_end(bytes, off + 16 * blocks, lex);
    }
}

/// Over a buffer whose length is a multiple of sixteen and in which no
/// literal runs past the end, the pass takes the whole buffer, and the
/// advances of its records add up to the length of the buffer. Records
/// that do not decode are no exception.
pub proof fn lemma_whole_buffer_consumed(bytes: Seq<u8>, lex: &Lexicon)
    requires
        bytes.len() % 16 == 0,
        literals_fit(bytes, 0, lex),
    ensures
        consumed_from(bytes, 0, lex) == bytes.len(),
        advance_sum(listing_from(bytes, 0, lex)) == bytes.len(),
{
    lemma_aligned_pass_ends_at_end(bytes, 0, lex);
    lemma_advances_add_up(bytes, 0, lex);
}

} // verus!
