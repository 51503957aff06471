//! A listing of raw bytes, sixteen to a row, in hexadecimal and as characters.

use crate::dump::texts;
use crate::text::{append_hex, hex_padded, is_printable};
use vstd::prelude::*;
use vstd::string::*;

verus! {

/// The number of bytes in a row.
pub const ROW_LEN: usize = 0x10;

/// The number of bytes in a group; a space stands in front of each group.
pub const GROUP_LEN: usize = 8;

/// The character that shows the byte: itself where it is printable, else a
/// dot.
pub open spec fn printable_char(c: u8) -> char {
    if is_printable(c) {
        c as char
    } else {
        '.'
    }
}

/// The character that shows the byte.
pub fn make_printable(c: u8) -> (shown: char)
    ensures
        shown == printable_char(c),
{
    if 0x20 <= c && c <= 0x7E {
        c as char
    } else {
        '.'
    }
}

/// The first `count` cells of a row: each is the two hexadecimal digits of
/// its byte and a space, or three spaces where the row has no such byte.
pub open spec fn cells(row: Seq<u8>, count: nat) -> Seq<char>
    decreases count,
{
    if count == 0 {
        Seq::empty()
    } else {
        let i = (count - 1) as nat;
        cells(row, i) + (if i % 8 == 0 {
            " "@
        } else {
            Seq::empty()
        }) + (if i < row.len() {
            hex_padded(row[i as int] as nat, 2) + " "@
        } else {
            "   "@
        })
    }
}

/// The bytes of the row as characters.
pub open spec fn shown(row: Seq<u8>) -> Seq<char> {
    row.map_values(|c: u8| printable_char(c))
}

/// The row of the bytes `row` that start at offset `off`: the offset in
/// at least six hexadecimal digits, the sixteen cells, and the characters.
pub open spec fn row_text(off: nat, row: Seq<u8>) -> Seq<char> {
    hex_padded(off, 6) + ": "@ + cells(row, 16) + " "@ + shown(row)
}

/// The bytes of the row that starts at `off`.
pub open spec fn row_at(bytes: Seq<u8>, off: nat) -> Seq<u8>
    recommends
        off <= bytes.len(),
{
    bytes.subrange(
        off as int,
        if off + 16 <= bytes.len() {
            off as int + 16
        } else {
            bytes.len() as int
        },
    )
}

/// The rows of the bytes from `off` on.
pub open spec fn rows_from(bytes: Seq<u8>, off: nat) -> Seq<Seq<char>>
    decreases bytes.len() - off,
{
    if off >= bytes.len() {
        Seq::empty()
    } else {
        let row = row_at(bytes, off);
        seq![row_text(off, row)] + rows_from(bytes, off + row.len())
    }
}

/// The row of the bytes `bytes[off..end]`.
fn format_row(bytes: &[u8], off: usize, end: usize) -> (line: String)
    requires
        off <= end <= bytes@.len(),
        end - off <= 16,
    ensures
        line@ == row_text(off as nat, bytes@.subrange(off as int, end as int)),
{
    let ghost row = bytes@.subrange(off as int, end as int);
    let mut line = String::new();
    append_hex(&mut line, off as u64, 6);
    line.append(": ");
    let ghost head = line@;
    assert(head =~= hex_padded(off as nat, 6) + ": "@);
    let mut i: usize = 0;
    assert(line@ =~= head + cells(row, 0));
    while i < ROW_LEN
        invariant
            i <= 16,
            off <= end <= bytes@.len(),
            end - off <= 16,
            row == bytes@.subrange(off as int, end as int),
            line@ == head + cells(row, i as nat),
        decreases 16 - i,
    {
        let ghost before = line@;
        if i % GROUP_LEN == 0 {
            line.append(" ");
        }
        if i < end - off {
            append_hex(&mut line, bytes[off + i] as u64, 2);
            line.append(" ");
        } else {
            line.append("   ");
        }
        assert(line@ =~= head + cells(row, (i + 1) as nat));
        i += 1;
    }
    line.append(" ");
    let ghost body = line@;
    let mut k: usize = off;
    assert(shown(row).take(0) =~= Seq::empty());
    assert(line@ =~= body + shown(row).take(0));
    while k < end
        invariant
            off <= k <= end <= bytes@.len(),
            row == bytes@.subrange(off as int, end as int),
            line@ == body + shown(row).take(k - off),
        decreases end - k,
    {
        line.push(make_printable(bytes[k]));
        assert(line@ =~= body + shown(row).take(k + 1 - off));
        k += 1;
    }
    assert(shown(row).take(end - off) =~= shown(row));
    line
}

/// Adds the rows of `b` to `sink`, one string for each row, and returns the
/// number of bytes listed.
pub fn print_bytes(b: &[u8], sink: &mut Vec<String>) -> (listed: usize)
    ensures
        listed == b@.len(),
        texts(final(sink)@) == texts(old(sink)@) + rows_from(b@, 0),
{
    let mut off: usize = 0;
    while off < b.len()
        invariant
            off <= b@.len(),
            texts(sink@) + rows_from(b@, off as nat) == texts(old(sink)@) + rows_from(b@, 0),
        decreases b@.len() - off,
    {
        let end: usize = if b.len() - off >= ROW_LEN {
            off + ROW_LEN
        } else {
            b.len()
        };
        let line = format_row(b, off, end);
        let ghost before = texts(sink@);
        sink.push(line);
        proof {
            assert(texts(sink@) =~= before + seq![line@]);
            assert(texts(sink@) + rows_from(b@, end as nat) =~= before + rows_from(b@, off as nat));
        }
        off = end;
    }
    assert(texts(sink@) =~= texts(old(sink)@) + rows_from(b@, 0));
    b.len()
}

} // verus!
