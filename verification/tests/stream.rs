use binasm::binasm::{diagnostic, process_records, Entry};
use binasm::cursor::{as_signed, as_signed_half, word_from_be, Block, Cursor};
use binasm::mips::{Lexicon, Register};
use binasm::statement::{Asm, AsciiString, DecodeError};

fn tables() -> Lexicon {
    let mut registers: Vec<String> = Vec::new();
    for i in 0..32 {
        registers.push(format!("${}", i));
    }
    Lexicon {
        registers,
        opcodes: vec![String::from("abs"), String::from("add"), String::from("lw")],
        set_values: vec![String::from("undefined"), String::from("reorder")],
        options: vec![String::new(), String::from("O"), String::from("pic")],
        noreg: Register { code: 31 },
    }
}

fn block(w0: u32, w1: u32, w2: u32, w3: u32) -> Vec<u8> {
    let mut bytes = Vec::new();
    for word in [w0, w1, w2, w3] {
        bytes.extend_from_slice(&word.to_be_bytes());
    }
    bytes
}

fn of_kind(code: u32) -> u32 {
    code << 16
}

fn lines(bytes: &[u8]) -> Vec<String> {
    let mut lines = Vec::new();
    for entry in process_records(bytes, &tables()).entries {
        lines.push(entry.line);
    }
    lines
}

#[test]
fn label_record_renders_the_symbol_and_a_colon() {
    assert_eq!(lines(&block(3, of_kind(0), 0, 0)), vec!["SYM_3:"]);
    assert_eq!(lines(&block((-7i32) as u32, of_kind(0), 0, 0)), vec!["$7:"]);
}

#[test]
fn loc_record_renders_file_and_line() {
    assert_eq!(lines(&block(0, of_kind(28), 1, 42)), vec!["\t.loc\t1 42"]);
}

#[test]
fn bad_record_does_not_end_the_pass() {
    let mut bytes = block(0, of_kind(63), 0, 0);
    bytes.extend_from_slice(&block(0, of_kind(4), 16, 0));
    let listing = process_records(&bytes, &tables());
    assert_eq!(listing.consumed, 32);
    assert_eq!(
        listing.entries,
        vec![
            Entry {
                offset: 0,
                blocks: 1,
                outcome: Err(DecodeError::UnrecognizedDiscriminant),
                line: String::from(
                    "63          : 00 00 00 00 00 3F 00 00 00 00 00 00 00 00 00 00 "
                ),
            },
            Entry {
                offset: 16,
                blocks: 1,
                outcome: Ok(Asm::Ialign { length: 16 }),
                line: String::from("\t.align\t16"),
            },
        ]
    );
}

#[test]
fn empty_buffer_has_no_entries() {
    let listing = process_records(&[], &tables());
    assert_eq!(listing.consumed, 0);
    assert!(listing.entries.is_empty());
}

#[test]
fn whole_buffer_is_consumed_and_the_advances_add_up() {
    let mut bytes = block(3, of_kind(0), 0, 0);
    bytes.extend_from_slice(&block(0, of_kind(5), 20, 1));
    bytes.extend_from_slice(b"twenty bytes of text, and padding");
    bytes.truncate(16 + 16 + 32);
    bytes.extend_from_slice(&block(0, of_kind(1), 0, 0));
    bytes.extend_from_slice(&block(0, of_kind(21), 0, 0));
    assert_eq!(bytes.len() % 16, 0);
    let listing = process_records(&bytes, &tables());
    assert_eq!(listing.consumed, bytes.len());
    let mut sum = 0;
    let mut offsets = Vec::new();
    for entry in &listing.entries {
        assert_eq!(entry.offset, sum);
        offsets.push(entry.offset);
        sum += 16 * entry.blocks;
    }
    assert_eq!(sum, bytes.len());
    assert_eq!(offsets, vec![0, 16, 64, 80]);
    assert_eq!(
        lines(&bytes),
        vec![
            "SYM_3:",
            "\t.ascii\t\"twenty bytes of text\"",
            "isym        : 00 00 00 00 00 01 00 00 00 00 00 00 00 00 00 00 ",
            "\t.text\t",
        ]
    );
}

#[test]
fn literal_of_twenty_bytes_is_followed_two_blocks_later() {
    let mut bytes = block(0, of_kind(5), 20, 1);
    bytes.extend_from_slice(&[b'x'; 32]);
    bytes.extend_from_slice(&block(9, of_kind(0), 0, 0));
    let listing = process_records(&bytes, &tables());
    assert_eq!(listing.entries.len(), 2);
    assert_eq!(listing.entries[0].blocks, 3);
    assert_eq!(
        listing.entries[0].outcome,
        Ok(Asm::Iascii { length: 20, repeat: 1, string: AsciiString { s: vec![b'x'; 20] } })
    );
    assert_eq!(listing.entries[1].offset, 48);
    assert_eq!(listing.entries[1].line, "SYM_9:");
    assert_eq!(listing.consumed, 64);
}

#[test]
fn truncated_literal_ends_the_pass() {
    let mut bytes = block(7, of_kind(0), 0, 0);
    bytes.extend_from_slice(&block(0, of_kind(5), 20, 1));
    bytes.extend_from_slice(&block(8, of_kind(0), 0, 0));
    let listing = process_records(&bytes, &tables());
    assert_eq!(listing.consumed, 16);
    assert_eq!(listing.entries.len(), 2);
    assert_eq!(listing.entries[0].line, "SYM_7:");
    assert_eq!(
        listing.entries[1],
        Entry {
            offset: 16,
            blocks: 0,
            outcome: Err(DecodeError::Truncated),
            line: String::from(
                "iascii      : 00 00 00 00 00 05 00 00 00 00 00 14 00 00 00 01 "
            ),
        }
    );
}

#[test]
fn trailing_fragment_is_reported() {
    let mut bytes = block(7, of_kind(0), 0, 0);
    bytes.extend_from_slice(&[0xAB, 0xCD, 0x01]);
    let listing = process_records(&bytes, &tables());
    assert_eq!(listing.consumed, 16);
    assert_eq!(
        listing.entries[1],
        Entry {
            offset: 16,
            blocks: 0,
            outcome: Err(DecodeError::Truncated),
            line: String::from("truncated   : AB CD 01 "),
        }
    );
    assert_eq!(listing.entries.len(), 2);
}

#[test]
fn errors_of_every_kind_take_one_block_and_the_pass_goes_on() {
    let mut bytes = Vec::new();
    bytes.extend_from_slice(&block(0, of_kind(23), 100 << 25, 0));
    bytes.extend_from_slice(&block(0, of_kind(23) | (3 << 1), 0, 0));
    bytes.extend_from_slice(&block(0, of_kind(32), 2, 0));
    bytes.extend_from_slice(&block(0, of_kind(47) | (3 << 14), 0, 0));
    bytes.extend_from_slice(&block(0, of_kind(23), 11 << 14, 0));
    bytes.extend_from_slice(&block(3, of_kind(22), 5, 5));
    bytes.extend_from_slice(&block(0, of_kind(21), 0, 0));
    let listing = process_records(&bytes, &tables());
    assert_eq!(listing.consumed, 112);
    let mut outcomes = Vec::new();
    for entry in listing.entries {
        assert_eq!(entry.blocks, 1);
        outcomes.push(entry.outcome);
    }
    assert_eq!(
        outcomes,
        vec![
            Err(DecodeError::UnrecognizedRegister),
            Err(DecodeError::UnrecognizedOpcode),
            Err(DecodeError::UnrecognizedSetValue),
            Err(DecodeError::UnrecognizedOptionKind),
            Err(DecodeError::UnsupportedConstruct),
            Err(DecodeError::UnsupportedConstruct),
            Ok(Asm::Itext),
        ]
    );
}

#[test]
fn instruction_record_renders_mnemonic_and_operands() {
    let w2 = (4 << 25) | (29 << 18);
    assert_eq!(lines(&block(0, of_kind(23) | (2 << 1), w2, 8)), vec!["\tlw\t$4, 8($29)"]);
}

#[test]
fn diagnostic_line_names_the_kind_and_shows_the_block() {
    let bytes = block(0x0102_0304, of_kind(20) | 0xFF, 0xA0B0_C0D0, 0xFFFF_FFFF);
    assert_eq!(
        diagnostic(&Cursor::new(&bytes)),
        "ispace      : 01 02 03 04 00 14 00 FF A0 B0 C0 D0 FF FF FF FF "
    );
    assert_eq!(diagnostic(&Cursor::new(&[])), "truncated   : ");
}

#[test]
fn cursor_walks_block_by_block() {
    let mut bytes = block(1, 2, 3, 4);
    bytes.extend_from_slice(&block(0x8000_0000, 0xFFFF_FFFF, 0, 0x0102_0304));
    bytes.push(9);
    let mut cursor = Cursor::new(&bytes);
    assert_eq!(cursor.offset(), 0);
    assert!(!cursor.at_end());
    assert_eq!(cursor.peek_block(), Ok(Block { w0: 1, w1: 2, w2: 3, w3: 4 }));
    cursor.advance(1);
    assert_eq!(cursor.offset(), 16);
    assert_eq!(
        cursor.peek_block(),
        Ok(Block { w0: 0x8000_0000, w1: 0xFFFF_FFFF, w2: 0, w3: 0x0102_0304 })
    );
    cursor.advance(1);
    assert_eq!(cursor.offset(), 32);
    assert!(!cursor.at_end());
    assert_eq!(cursor.peek_block(), Err(DecodeError::Truncated));
    cursor.advance(0);
    assert_eq!(cursor.offset(), 32);
    assert_eq!(cursor.bytes().len(), 33);
}

#[test]
fn cursor_at_the_end() {
    let bytes = block(1, 2, 3, 4);
    let mut cursor = Cursor::new(&bytes);
    cursor.advance(1);
    assert!(cursor.at_end());
    assert_eq!(cursor.peek_block(), Err(DecodeError::Truncated));
    assert_eq!(cursor.peek_payload(0), Err(DecodeError::Truncated));
}

#[test]
fn payload_is_what_follows_the_block() {
    let mut bytes = block(1, 2, 3, 4);
    bytes.extend_from_slice(b"0123456789abcdef");
    let cursor = Cursor::new(&bytes);
    assert_eq!(cursor.peek_payload(0), Ok(Vec::new()));
    assert_eq!(cursor.peek_payload(3), Ok(b"012".to_vec()));
    assert_eq!(cursor.peek_payload(16), Ok(b"0123456789abcdef".to_vec()));
    assert_eq!(cursor.peek_payload(17), Err(DecodeError::Truncated));
    assert_eq!(cursor.peek_payload(u32::MAX), Err(DecodeError::Truncated));
}

#[test]
fn words_are_big_endian() {
    assert_eq!(word_from_be(0x12, 0x34, 0x56, 0x78), 0x1234_5678);
    assert_eq!(word_from_be(0, 0, 0, 1), 1);
    assert_eq!(word_from_be(0xFF, 0xFF, 0xFF, 0xFF), 0xFFFF_FFFF);
    assert_eq!(word_from_be(0x80, 0, 0, 0), 0x8000_0000);
}

#[test]
fn signed_views_are_twos_complement() {
    assert_eq!(as_signed(0), 0);
    assert_eq!(as_signed(0x7FFF_FFFF), i32::MAX);
    assert_eq!(as_signed(0x8000_0000), i32::MIN);
    assert_eq!(as_signed(0xFFFF_FFF9), -7);
    assert_eq!(as_signed_half(0x7FFF), 32767);
    assert_eq!(as_signed_half(0x8000), -32768);
    assert_eq!(as_signed_half(0xABCD_FFFF), -1);
    assert_eq!(as_signed_half(0xFFFF_0000), 0);
}
