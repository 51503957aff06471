use binasm::cursor::{Block, Cursor};
use binasm::decode::{
    carries_literal, process_args, process_iocode, process_ioption, process_record, Decoded,
};
use binasm::mips::{Itype, Lexicon, Opcode, OptType, Register, SetValue};
use binasm::statement::{ArgFormat, Asm, AsciiString, DecodeError, FPString, OptValue};

fn lexicon() -> Lexicon {
    let mut registers: Vec<String> = Vec::new();
    for i in 0..32 {
        registers.push(format!("${}", i));
    }
    for i in 0..32 {
        registers.push(format!("$f{}", i));
    }
    for i in 0..8 {
        registers.push(format!("$fcc{}", i));
    }
    registers.push(String::from("noreg"));
    Lexicon {
        registers,
        opcodes: vec![String::from("abs"), String::from("add"), String::from("addu")],
        set_values: vec![
            String::from("undefined"),
            String::from("reorder"),
            String::from("noreorder"),
        ],
        options: vec![String::new(), String::from("O"), String::from("pic")],
        noreg: Register { code: 72 },
    }
}

fn record(w0: u32, w1: u32, w2: u32, w3: u32) -> Vec<u8> {
    let mut bytes = Vec::new();
    for word in [w0, w1, w2, w3] {
        bytes.push((word >> 24) as u8);
        bytes.push((word >> 16) as u8);
        bytes.push((word >> 8) as u8);
        bytes.push(word as u8);
    }
    bytes
}

fn kind(code: u32) -> u32 {
    code << 16
}

fn operands(reg_a: u32, reg_b: u32, layout: u32, mem_tag: u32) -> u32 {
    (reg_a << 25) | (reg_b << 18) | (layout << 14) | mem_tag
}

fn decode(bytes: &[u8]) -> Decoded {
    process_record(&Cursor::new(bytes), &lexicon())
}

fn one(statement: Asm) -> Decoded {
    Decoded { outcome: Ok(statement), blocks: 1 }
}

fn failed(error: DecodeError) -> Decoded {
    Decoded { outcome: Err(error), blocks: 1 }
}

fn reg(code: u32) -> Register {
    Register { code }
}

#[test]
fn symbol_only_kinds_take_the_symbol_from_word_zero() {
    assert_eq!(decode(&record(3, kind(0), 9, 9)), one(Asm::Ilabel { symno: 3 }));
    assert_eq!(decode(&record(0xFFFF_FFF9, kind(0), 0, 0)), one(Asm::Ilabel { symno: -7 }));
    assert_eq!(decode(&record(5, kind(2), 0, 0)), one(Asm::Iglobal { symno: 5 }));
    assert_eq!(decode(&record(5, kind(10), 0, 0)), one(Asm::Idata { symno: 5 }));
    assert_eq!(decode(&record(5, kind(24), 0, 0)), one(Asm::Iend { symno: 5 }));
    assert_eq!(decode(&record(5, kind(25), 0, 0)), one(Asm::Isdata { symno: 5 }));
    assert_eq!(decode(&record(5, kind(26), 0, 0)), one(Asm::Irdata { symno: 5 }));
    assert_eq!(decode(&record(5, kind(29), 0, 0)), one(Asm::Ibgnb { symno: 5 }));
    assert_eq!(decode(&record(5, kind(30), 0, 0)), one(Asm::Iendb { symno: 5 }));
    assert_eq!(decode(&record(5, kind(31), 0, 0)), one(Asm::Iasm0 { symno: 5 }));
    assert_eq!(decode(&record(5, kind(35), 0, 0)), one(Asm::Iendrep { symno: 5 }));
    assert_eq!(decode(&record(5, kind(36), 0, 0)), one(Asm::Ilab { symno: 5 }));
    assert_eq!(decode(&record(5, kind(58), 0, 0)), one(Asm::Irestext { symno: 5 }));
    assert_eq!(decode(&record(5, kind(62), 0, 0)), one(Asm::Ialloc { symno: 5 }));
}

#[test]
fn kinds_without_fields_decode_from_any_block() {
    assert_eq!(decode(&record(1, kind(21), 2, 3)), one(Asm::Itext));
    assert_eq!(decode(&record(1, kind(40), 2, 3)), one(Asm::Ierr));
}

#[test]
fn the_kind_is_read_from_six_bits_only() {
    let noise = 0xFFC0_FFFF;
    assert_eq!(decode(&record(3, noise | kind(0), 0, 0)), one(Asm::Ilabel { symno: 3 }));
    assert_eq!(decode(&record(3, noise | kind(4), 16, 0)), one(Asm::Ialign { length: 16 }));
}

#[test]
fn entry_kinds_take_the_lexical_level_from_word_two() {
    assert_eq!(decode(&record(8, kind(27), 2, 0)), one(Asm::Ient { symno: 8, lexlev: 2 }));
    assert_eq!(decode(&record(8, kind(46), 2, 0)), one(Asm::Iaent { symno: 8, lexlev: 2 }));
    assert_eq!(
        decode(&record(8, kind(60), 0xFFFF_FFFF, 0)),
        one(Asm::Iprologue { symno: 8, lexlev: -1 })
    );
    assert_eq!(decode(&record(8, kind(18), 0, 0)), one(Asm::Iweakext { symno: 8, lexlev: 0 }));
}

#[test]
fn emission_kinds_take_expression_and_repeat() {
    assert_eq!(
        decode(&record(0, kind(7), 0xFFFF_FFFE, 3)),
        one(Asm::Ibyte { symno: 0, expression: -2, repeat: 3 })
    );
    assert_eq!(
        decode(&record(1, kind(14), 258, 0xFFFF_FFFF)),
        one(Asm::Ihalf { symno: 1, expression: 258, repeat: 0xFFFF_FFFF })
    );
    assert_eq!(
        decode(&record(4, kind(16), 7, 9)),
        one(Asm::Igpword { symno: 4, expression: 7, repeat: 9 })
    );
    assert_eq!(
        decode(&record(4, kind(59), 0x8000_0000, 1)),
        one(Asm::Idword { expression: i32::MIN, repeat: 1 })
    );
}

#[test]
fn word_emission_without_symbol_takes_any_expression() {
    assert_eq!(
        decode(&record(0, kind(22), 77, 5)),
        one(Asm::Iword { symno: 0, expression: 77, repeat: 5 })
    );
}

#[test]
fn word_emission_with_symbol_needs_trivial_expression_and_repeat() {
    assert_eq!(
        decode(&record(3, kind(22), 0, 0)),
        one(Asm::Iword { symno: 3, expression: 0, repeat: 0 })
    );
    assert_eq!(
        decode(&record(0xFFFF_FFFD, kind(22), 0, 1)),
        one(Asm::Iword { symno: -3, expression: 0, repeat: 1 })
    );
    assert_eq!(decode(&record(3, kind(22), 0, 2)), failed(DecodeError::UnsupportedConstruct));
    assert_eq!(decode(&record(3, kind(22), 1, 0)), failed(DecodeError::UnsupportedConstruct));
    assert_eq!(decode(&record(3, kind(22), 1, 1)), failed(DecodeError::UnsupportedConstruct));
}

#[test]
fn frame_takes_two_registers_from_word_three() {
    assert_eq!(
        decode(&record(0, kind(43), 24, (29 << 25) | (31 << 18))),
        one(Asm::Iframe { frameoffset: 24, framereg: reg(29), pcreg: reg(31) })
    );
    assert_eq!(
        decode(&record(0, kind(43), 0xFFFF_FFF8, (72 << 25) | 0x3FFFF)),
        one(Asm::Iframe { frameoffset: -8, framereg: reg(72), pcreg: reg(0) })
    );
}

#[test]
fn frame_with_a_register_outside_the_table_is_an_error() {
    assert_eq!(
        decode(&record(0, kind(43), 24, (73 << 25) | (31 << 18))),
        failed(DecodeError::UnrecognizedRegister)
    );
    assert_eq!(
        decode(&record(0, kind(43), 24, (29 << 25) | (127 << 18))),
        failed(DecodeError::UnrecognizedRegister)
    );
}

#[test]
fn masks_take_word_two_and_a_signed_offset() {
    assert_eq!(
        decode(&record(0, kind(38), 0x8001_0000, 0xFFFF_FFFC)),
        one(Asm::Imask { regmask: 0x8001_0000, regoffset: -4 })
    );
    assert_eq!(
        decode(&record(0, kind(39), 0xFFFF_FFFF, 16)),
        one(Asm::Ifmask { regmask: 0xFFFF_FFFF, regoffset: 16 })
    );
}

#[test]
fn plain_directives_take_their_words() {
    assert_eq!(
        decode(&record(0, kind(42), 3, 0xFFFF_FFED)),
        one(Asm::Iverstamp { majornumber: 3, minornumber: -19 })
    );
    assert_eq!(
        decode(&record(0, kind(28), 1, 42)),
        one(Asm::Iloc { filenumber: 1, linenumber: 42 })
    );
    assert_eq!(decode(&record(0, kind(4), 16, 0)), one(Asm::Ialign { length: 16 }));
    assert_eq!(decode(&record(6, kind(8), 400, 0)), one(Asm::Icomm { symno: 6, length: 400 }));
    assert_eq!(decode(&record(6, kind(9), 400, 0)), one(Asm::Ilcomm { symno: 6, length: 400 }));
    assert_eq!(decode(&record(0, kind(15), 16, 0)), one(Asm::Icprestore { offset: 16 }));
    assert_eq!(
        decode(&record(0, kind(53), 0xF, 0xF000_0000)),
        one(Asm::Ilivereg { gpmask: 0xF, fpmask: 0xF000_0000 })
    );
}

#[test]
fn set_takes_its_value_from_the_table() {
    assert_eq!(decode(&record(0, kind(32), 2, 0)), one(Asm::Iset { value: SetValue { code: 2 } }));
    assert_eq!(decode(&record(0, kind(32), 3, 0)), failed(DecodeError::UnrecognizedSetValue));
    assert_eq!(
        decode(&record(0, kind(32), 0xFFFF_FFFF, 0)),
        failed(DecodeError::UnrecognizedSetValue)
    );
}

#[test]
fn option_takes_a_number_or_nothing() {
    assert_eq!(
        decode(&record(0, kind(47) | (1 << 14), 0, 2)),
        one(Asm::Ioption { opt: OptType::Optimize, value: OptValue::Int(2) })
    );
    assert_eq!(
        decode(&record(0, kind(47) | (2 << 14), 0, 0xFFFF_FFFF)),
        one(Asm::Ioption { opt: OptType::Pic, value: OptValue::Int(-1) })
    );
    assert_eq!(
        decode(&record(0, kind(47), 0, 2)),
        one(Asm::Ioption { opt: OptType::Undefined, value: OptValue::Empty })
    );
}

#[test]
fn option_with_an_unknown_code_is_an_error() {
    assert_eq!(
        decode(&record(0, kind(47) | (3 << 14), 0, 2)),
        failed(DecodeError::UnrecognizedOptionKind)
    );
    let block = Block { w0: 0, w1: 3 << 14, w2: 0, w3: 0 };
    assert_eq!(process_ioption(&block), Err(DecodeError::UnrecognizedOptionKind));
}

#[test]
fn unknown_kind_code_is_an_error_of_one_block() {
    assert_eq!(decode(&record(3, kind(63), 0, 0)), failed(DecodeError::UnrecognizedDiscriminant));
}

#[test]
fn kinds_without_a_decoding_are_unsupported() {
    for code in [1u32, 19, 20, 33, 34, 37, 41, 45, 48, 49, 50, 51, 52, 54, 55, 56, 57, 61] {
        assert_eq!(decode(&record(0, kind(code), 0, 0)), failed(DecodeError::UnsupportedConstruct));
    }
}

#[test]
fn string_literal_owns_the_bytes_behind_its_block() {
    let mut bytes = record(0, kind(5), 5, 1);
    bytes.extend_from_slice(b"hello\0\0\0\0\0\0\0\0\0\0\0");
    assert_eq!(
        decode(&bytes),
        Decoded {
            outcome: Ok(Asm::Iascii {
                length: 5,
                repeat: 1,
                string: AsciiString { s: b"hello".to_vec() }
            }),
            blocks: 2,
        }
    );
}

#[test]
fn literal_of_twenty_bytes_takes_two_more_blocks() {
    let mut bytes = record(0, kind(6), 20, 1);
    bytes.extend_from_slice(b"abcdefghijklmnopqrstUVWXYZ012345");
    let decoded = decode(&bytes);
    assert_eq!(decoded.blocks, 3);
    assert_eq!(
        decoded.outcome,
        Ok(Asm::Iasciiz {
            length: 20,
            repeat: 1,
            string: AsciiString { s: b"abcdefghijklmnopqrst".to_vec() }
        })
    );
}

#[test]
fn literal_lengths_round_up_to_whole_blocks() {
    for (length, blocks) in [(0u32, 1usize), (1, 2), (15, 2), (16, 2), (17, 3), (32, 3), (33, 4)] {
        let mut bytes = record(0, kind(5), length, 1);
        bytes.resize(16 + 64, 0x2A);
        let decoded = decode(&bytes);
        assert_eq!(decoded.blocks, blocks);
        assert_eq!(
            decoded.outcome,
            Ok(Asm::Iascii {
                length,
                repeat: 1,
                string: AsciiString { s: vec![0x2A; length as usize] }
            })
        );
    }
}

#[test]
fn file_and_float_literals() {
    let mut file = record(2, kind(12), 3, 0);
    file.extend_from_slice(b"a.c.............");
    assert_eq!(
        decode(&file),
        Decoded {
            outcome: Ok(Asm::Ifile {
                symno: 2,
                length: 3,
                repeat: 0,
                string: AsciiString { s: b"a.c".to_vec() }
            }),
            blocks: 2,
        }
    );
    let mut float = record(0, kind(13), 3, 4);
    float.extend_from_slice(b"1.5.............");
    assert_eq!(
        decode(&float),
        Decoded {
            outcome: Ok(Asm::Ifloat {
                length: 3,
                repeat: 4,
                string: FPString { s: b"1.5".to_vec() }
            }),
            blocks: 2,
        }
    );
    let mut double = record(0, kind(11), 4, 1);
    double.extend_from_slice(b"2e10............");
    assert_eq!(
        decode(&double),
        Decoded {
            outcome: Ok(Asm::Idouble {
                length: 4,
                repeat: 1,
                string: FPString { s: b"2e10".to_vec() }
            }),
            blocks: 2,
        }
    );
}

#[test]
fn extended_float_is_unsupported_and_takes_its_blocks() {
    let mut bytes = record(0, kind(44), 17, 1);
    bytes.resize(48, 0);
    assert_eq!(
        decode(&bytes),
        Decoded { outcome: Err(DecodeError::UnsupportedConstruct), blocks: 3 }
    );
}

#[test]
fn literal_that_runs_past_the_end_is_truncated() {
    let mut bytes = record(0, kind(5), 20, 1);
    bytes.resize(32, 0);
    assert_eq!(decode(&bytes), Decoded { outcome: Err(DecodeError::Truncated), blocks: 0 });
    let alone = record(0, kind(44), 1, 1);
    assert_eq!(decode(&alone), Decoded { outcome: Err(DecodeError::Truncated), blocks: 0 });
    let huge = record(0, kind(13), 0xFFFF_FFFF, 1);
    assert_eq!(decode(&huge), Decoded { outcome: Err(DecodeError::Truncated), blocks: 0 });
}

#[test]
fn literal_whose_last_block_is_cut_is_truncated() {
    let mut bytes = record(0, kind(5), 5, 1);
    bytes.extend_from_slice(b"hello");
    assert_eq!(decode(&bytes), Decoded { outcome: Err(DecodeError::Truncated), blocks: 0 });
}

#[test]
fn fewer_than_sixteen_bytes_are_truncated() {
    assert_eq!(decode(&[]), Decoded { outcome: Err(DecodeError::Truncated), blocks: 0 });
    assert_eq!(decode(&[0u8; 15]), Decoded { outcome: Err(DecodeError::Truncated), blocks: 0 });
}

#[test]
fn the_record_at_the_cursor_is_decoded() {
    let mut bytes = record(3, kind(0), 0, 0);
    bytes.extend_from_slice(&record(0, kind(28), 1, 42));
    let mut cursor = Cursor::new(&bytes);
    cursor.advance(1);
    assert_eq!(
        process_record(&cursor, &lexicon()),
        one(Asm::Iloc { filenumber: 1, linenumber: 42 })
    );
}

#[test]
fn literal_kinds_are_six() {
    let mut count = 0;
    for code in 0..63 {
        if carries_literal(Itype::from_repr(code).unwrap()) {
            count += 1;
        }
    }
    assert_eq!(count, 6);
    assert!(carries_literal(Itype::Iascii));
    assert!(carries_literal(Itype::Iextended));
    assert!(!carries_literal(Itype::Ilabel));
}

#[test]
fn each_layout_takes_its_fields() {
    let lex = lexicon();
    let args = |w0: u32, w2: u32, w3: u32| process_args(&Block { w0, w1: 0, w2, w3 }, &lex);
    assert_eq!(
        args(0, operands(4, 29, 0, 5), 0xFFFF_FFF8),
        Ok(ArgFormat::Frob { symno: 0, reg: reg(4), offset: -8, base: reg(29), mem_tag: 5 })
    );
    assert_eq!(
        args(9, operands(4, 0, 1, 0), 0xFFFF_FFF8),
        Ok(ArgFormat::Fra { symno: 9, reg: reg(4), offset: -8 })
    );
    assert_eq!(
        args(0, operands(4, 0, 2, 0x3FFF), 100000),
        Ok(ArgFormat::Fri { reg: reg(4), immediate: 100000, mem_tag: 0x3FFF })
    );
    assert_eq!(
        args(0, operands(1, 2, 3, 0) | (5 << 11), 0),
        Ok(ArgFormat::Frrr { reg1: reg(1), reg2: reg(2), reg3: reg(29) })
    );
    assert_eq!(
        args(0, operands(1, 2, 4, 7), 0xFFFF_FFFF),
        Ok(ArgFormat::Frri { reg1: reg(1), reg2: reg(2), immediate: -1, mem_tag: 7 })
    );
    assert_eq!(
        args(0, operands(1, 2, 5, 0), 0),
        Ok(ArgFormat::Frr { reg1: reg(1), reg2: reg(2) })
    );
    assert_eq!(
        args(6, operands(72, 0, 6, 1), 12),
        Ok(ArgFormat::Fa { symno: 6, base: reg(72), immediate: 12, mem_tag: 1 })
    );
    assert_eq!(args(0, operands(31, 0, 7, 0), 0), Ok(ArgFormat::Fr { reg: reg(31) }));
    assert_eq!(
        args(6, operands(1, 2, 8, 0), 0),
        Ok(ArgFormat::Frrl { symno: 6, reg1: reg(1), reg2: reg(2) })
    );
    assert_eq!(args(6, operands(1, 0, 9, 0), 0), Ok(ArgFormat::Frl { symno: 6, reg: reg(1) }));
    assert_eq!(args(0xFFFF_FFFA, operands(0, 0, 10, 0), 0), Ok(ArgFormat::Fl { symno: -6 }));
    assert_eq!(
        args(6, operands(1, 0, 12, 3), 4),
        Ok(ArgFormat::Fril { symno: 6, reg: reg(1), immediate: 4, mem_tag: 3 })
    );
    assert_eq!(args(0, operands(0, 0, 13, 0), 77), Ok(ArgFormat::Fi { immediate: 77 }));
}

#[test]
fn four_register_layout_reads_the_bits_behind_the_layout_code() {
    let w2 = operands(1, 2, 15, 0) | (3 << 11) | (40 << 4);
    let block = Block { w0: 0, w1: 0, w2, w3: 0 };
    assert_eq!(process_args(&block, &lexicon()), Err(DecodeError::UnrecognizedRegister));
    let wide = Lexicon { registers: vec![String::from("r"); 128], ..lexicon() };
    assert_eq!(
        process_args(&block, &wide),
        Ok(ArgFormat::Frrrr { reg1: reg(1), reg2: reg(2), reg3: reg(123), reg4: reg(40) })
    );
    let narrow = Lexicon { registers: vec![String::from("r"); 124], ..lexicon() };
    assert_eq!(
        process_args(&Block { w0: 0, w1: 0, w2: w2 | (127 << 4), w3: 0 }, &narrow),
        Err(DecodeError::UnrecognizedRegister)
    );
}

#[test]
fn sixteen_bit_offset_is_the_low_half_of_word_three() {
    let lex = lexicon();
    let offset = |w3: u32| match process_args(&Block { w0: 0, w1: 0, w2: 0, w3 }, &lex) {
        Ok(ArgFormat::Frob { offset, .. }) => offset,
        _ => panic!("another layout"),
    };
    assert_eq!(offset(0x0000_7FFF), 32767);
    assert_eq!(offset(0x0000_8000), -32768);
    assert_eq!(offset(0x1234_FFFF), -1);
    assert_eq!(offset(0xFFFF_0001), 1);
}

#[test]
fn reserved_layouts_are_unsupported() {
    let lex = lexicon();
    assert_eq!(
        process_args(&Block { w0: 0, w1: 0, w2: operands(1, 2, 11, 0), w3: 0 }, &lex),
        Err(DecodeError::UnsupportedConstruct)
    );
    assert_eq!(
        process_args(&Block { w0: 0, w1: 0, w2: operands(1, 2, 14, 0), w3: 0 }, &lex),
        Err(DecodeError::UnsupportedConstruct)
    );
}

#[test]
fn reserved_layouts_are_unsupported_whatever_the_register_fields_hold() {
    let lex = lexicon();
    let none = Lexicon { registers: Vec::new(), ..lexicon() };
    for layout in [11u32, 14] {
        for (reg_a, reg_b) in [(127u32, 0u32), (0, 127), (127, 127), (73, 73), (72, 72)] {
            let block = Block {
                w0: 0xFFFF_FFFF,
                w1: 0,
                w2: operands(reg_a, reg_b, layout, 0x3FFF),
                w3: 0xFFFF_FFFF,
            };
            assert_eq!(process_args(&block, &lex), Err(DecodeError::UnsupportedConstruct));
            assert_eq!(process_args(&block, &none), Err(DecodeError::UnsupportedConstruct));
        }
    }
}

#[test]
fn reserved_layouts_are_unsupported_in_every_record_that_has_operands() {
    for layout in [11u32, 14] {
        for code in [23u32, 3, 17] {
            assert_eq!(
                decode(&record(0, kind(code), operands(127, 127, layout, 0), 0)),
                failed(DecodeError::UnsupportedConstruct)
            );
            assert_eq!(
                decode(&record(0, kind(code) | (511 << 1), operands(1, 2, layout, 0), 0)),
                failed(DecodeError::UnsupportedConstruct)
            );
        }
    }
}

#[test]
fn layouts_without_registers_take_any_register_bits() {
    let lex = lexicon();
    assert_eq!(
        process_args(&Block { w0: 6, w1: 0, w2: operands(127, 127, 10, 0), w3: 0 }, &lex),
        Ok(ArgFormat::Fl { symno: 6 })
    );
    assert_eq!(
        process_args(&Block { w0: 0, w1: 0, w2: operands(73, 100, 13, 0), w3: 77 }, &lex),
        Ok(ArgFormat::Fi { immediate: 77 })
    );
    let none = Lexicon { registers: Vec::new(), ..lexicon() };
    assert_eq!(
        process_args(&Block { w0: 6, w1: 0, w2: operands(0, 0, 10, 0), w3: 0 }, &none),
        Ok(ArgFormat::Fl { symno: 6 })
    );
}

#[test]
fn layouts_with_one_register_take_any_bits_in_the_second_field() {
    let lex = lexicon();
    let args = |w0: u32, w2: u32, w3: u32| process_args(&Block { w0, w1: 0, w2, w3 }, &lex);
    assert_eq!(
        args(9, operands(4, 127, 1, 0), 8),
        Ok(ArgFormat::Fra { symno: 9, reg: reg(4), offset: 8 })
    );
    assert_eq!(
        args(0, operands(4, 73, 2, 1), 8),
        Ok(ArgFormat::Fri { reg: reg(4), immediate: 8, mem_tag: 1 })
    );
    assert_eq!(
        args(6, operands(72, 100, 6, 1), 12),
        Ok(ArgFormat::Fa { symno: 6, base: reg(72), immediate: 12, mem_tag: 1 })
    );
    assert_eq!(args(0, operands(31, 127, 7, 0), 0), Ok(ArgFormat::Fr { reg: reg(31) }));
    assert_eq!(args(6, operands(1, 90, 9, 0), 0), Ok(ArgFormat::Frl { symno: 6, reg: reg(1) }));
    assert_eq!(
        args(6, operands(1, 80, 12, 3), 4),
        Ok(ArgFormat::Fril { symno: 6, reg: reg(1), immediate: 4, mem_tag: 3 })
    );
}

#[test]
fn a_register_field_of_the_layout_outside_the_table_is_an_error() {
    let lex = lexicon();
    let args = |w2: u32| process_args(&Block { w0: 0, w1: 0, w2, w3: 0 }, &lex);
    for layout in [0u32, 1, 2, 4, 5, 6, 7, 8, 9, 12] {
        assert_eq!(args(operands(73, 0, layout, 0)), Err(DecodeError::UnrecognizedRegister));
        assert_eq!(args(operands(127, 0, layout, 0)), Err(DecodeError::UnrecognizedRegister));
    }
    for layout in [0u32, 4, 5, 8] {
        assert_eq!(args(operands(0, 73, layout, 0)), Err(DecodeError::UnrecognizedRegister));
        assert_eq!(args(operands(72, 100, layout, 0)), Err(DecodeError::UnrecognizedRegister));
    }
    assert_eq!(args(operands(73, 0, 3, 0)), Err(DecodeError::UnrecognizedRegister));
    assert_eq!(args(operands(0, 73, 3, 0)), Err(DecodeError::UnrecognizedRegister));
    assert_eq!(args(operands(0, 0, 15, 0)), Err(DecodeError::UnrecognizedRegister));
}

#[test]
fn third_register_outside_the_table_is_an_error() {
    let few = Lexicon { registers: vec![String::from("r"); 24], ..lexicon() };
    assert_eq!(
        process_args(&Block { w0: 0, w1: 0, w2: operands(1, 2, 3, 0), w3: 0 }, &few),
        Err(DecodeError::UnrecognizedRegister)
    );
    let more = Lexicon { registers: vec![String::from("r"); 25], ..lexicon() };
    assert_eq!(
        process_args(&Block { w0: 0, w1: 0, w2: operands(1, 2, 3, 0), w3: 0 }, &more),
        Ok(ArgFormat::Frrr { reg1: reg(1), reg2: reg(2), reg3: reg(24) })
    );
}

#[test]
fn instruction_takes_opcode_and_operands() {
    let lex = lexicon();
    let block = Block { w0: 0, w1: kind(23) | (2 << 1), w2: operands(4, 29, 0, 0), w3: 8 };
    assert_eq!(
        process_iocode(&block, &lex),
        Ok(Asm::Iocode {
            op: Opcode { code: 2 },
            args: ArgFormat::Frob { symno: 0, reg: reg(4), offset: 8, base: reg(29), mem_tag: 0 }
        })
    );
    assert_eq!(
        decode(&record(0, kind(23) | (1 << 1) | 1, operands(1, 2, 5, 0), 0)),
        one(Asm::Iocode {
            op: Opcode { code: 1 },
            args: ArgFormat::Frr { reg1: reg(1), reg2: reg(2) }
        })
    );
}

#[test]
fn instruction_with_an_opcode_outside_the_table_is_an_error() {
    assert_eq!(
        decode(&record(0, kind(23) | (3 << 1), operands(1, 2, 5, 0), 0)),
        failed(DecodeError::UnrecognizedOpcode)
    );
    assert_eq!(
        decode(&record(0, kind(23) | (511 << 1), operands(100, 2, 5, 0), 0)),
        failed(DecodeError::UnrecognizedOpcode)
    );
}

#[test]
fn instruction_passes_on_the_errors_of_its_operands() {
    assert_eq!(
        decode(&record(0, kind(23), operands(100, 2, 5, 0), 0)),
        failed(DecodeError::UnrecognizedRegister)
    );
    assert_eq!(
        decode(&record(0, kind(23), operands(1, 2, 14, 0), 0)),
        failed(DecodeError::UnsupportedConstruct)
    );
}

#[test]
fn cpload_and_cpadd_take_a_register_with_base() {
    let args = ArgFormat::Frob { symno: 0, reg: reg(25), offset: 0, base: reg(0), mem_tag: 0 };
    assert_eq!(
        decode(&record(0, kind(3), operands(25, 0, 0, 0), 0)),
        one(Asm::Icpload { symno: 0, args })
    );
    assert_eq!(
        decode(&record(0, kind(17), operands(25, 0, 0, 0), 0)),
        one(Asm::Icpadd { symno: 0, args })
    );
}

#[test]
fn cpload_and_cpadd_in_another_layout_are_unsupported() {
    for layout in 1..15 {
        assert_eq!(
            decode(&record(0, kind(3), operands(1, 2, layout, 0) | (1 << 4), 0)),
            failed(DecodeError::UnsupportedConstruct)
        );
        assert_eq!(
            decode(&record(0, kind(17), operands(1, 2, layout, 0) | (1 << 4), 0)),
            failed(DecodeError::UnsupportedConstruct)
        );
    }
    assert_eq!(
        decode(&record(0, kind(3), operands(99, 2, 0, 0), 0)),
        failed(DecodeError::UnrecognizedRegister)
    );
}
