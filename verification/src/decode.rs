//! From one record to one statement.

use crate::bits::{extract, get_bits, lemma_extract_bound};
use crate::cursor::{
    as_signed, as_signed_half, block_at, block_fits, payload_at, payload_blocks, payload_fits,
    signed_half, signed_word, Block, Cursor,
};
use crate::mips::{Format, Itype, Lexicon, Opcode, OptArgType, OptType, Register, SetValue};
use crate::statement::{ArgFormat, Asm, AsmView, AsciiString, DecodeError, FPString, OptValue};
use vstd::arithmetic::power2::lemma2_to64;
use vstd::prelude::*;

verus! {

/// The register whose index is the seven-bit field at `offset` of `word`.
pub open spec fn register_at(word: u32, offset: nat) -> Register {
    Register { code: extract(word, offset, 7) as u32 }
}

/// The number of register fields that a layout has. They are the first of
/// the four seven-bit fields of word 2, which start at bits 0, 7, 14 and 21.
pub open spec fn register_count(form: Format) -> nat {
    match form {
        Format::Fl | Format::Fi | Format::Forrr | Format::Foa => 0,
        Format::Fra | Format::Fri | Format::Fa | Format::Fr | Format::Frl | Format::Fril => 1,
        Format::Frob | Format::Frri | Format::Frr | Format::Frrl => 2,
        Format::Frrr => 3,
        Format::Frrrr => 4,
    }
}

/// Whether each register field that the layout has holds the index of a
/// register of the table. What the other fields hold does not matter.
pub open spec fn registers_known(form: Format, b: Block, lex: &Lexicon) -> bool {
    let count = register_count(form);
    &&& count >= 1 ==> lex.knows_register(register_at(b.w2, 0).code as nat)
    &&& count >= 2 ==> lex.knows_register(register_at(b.w2, 7).code as nat)
    &&& count >= 3 ==> lex.knows_register(register_at(b.w2, 14).code as nat)
    &&& count >= 4 ==> lex.knows_register(register_at(b.w2, 21).code as nat)
}

/// The fields of the block as operands in the layout `form`: the symbol is
/// word 0, the registers and the memory tag are fields of word 2, the
/// immediate is word 3 and the sixteen-bit offset its low half.
pub open spec fn operands_in(form: Format, b: Block) -> ArgFormat {
    let symno = signed_word(b.w0);
    let immediate = signed_word(b.w3);
    let mem_tag = extract(b.w2, 18, 14) as u32;
    let reg1 = register_at(b.w2, 0);
    let reg2 = register_at(b.w2, 7);
    let reg3 = register_at(b.w2, 14);
    let reg4 = register_at(b.w2, 21);
    match form {
        Format::Frob => ArgFormat::Frob {
            symno,
            reg: reg1,
            offset: signed_half(b.w3),
            base: reg2,
            mem_tag,
        },
        Format::Fra => ArgFormat::Fra { symno, reg: reg1, offset: immediate },
        Format::Fri => ArgFormat::Fri { reg: reg1, immediate, mem_tag },
        Format::Frrr => ArgFormat::Frrr { reg1, reg2, reg3 },
        Format::Frri => ArgFormat::Frri { reg1, reg2, immediate, mem_tag },
        Format::Frr => ArgFormat::Frr { reg1, reg2 },
        Format::Fa => ArgFormat::Fa { symno, base: reg1, immediate, mem_tag },
        Format::Fr => ArgFormat::Fr { reg: reg1 },
        Format::Frrl => ArgFormat::Frrl { symno, reg1, reg2 },
        Format::Frl => ArgFormat::Frl { symno, reg: reg1 },
        Format::Fl => ArgFormat::Fl { symno },
        Format::Forrr => ArgFormat::Forrr,
        Format::Fril => ArgFormat::Fril { symno, reg: reg1, immediate, mem_tag },
        Format::Fi => ArgFormat::Fi { immediate },
        Format::Foa => ArgFormat::Foa,
        Format::Frrrr => ArgFormat::Frrrr { reg1, reg2, reg3, reg4 },
    }
}

/// The operands that the block holds. The layout is the four-bit field at
/// bit 14 of word 2 and decides first: a block in one of the two reserved
/// layouts is not decoded, whatever else it holds. In any other layout the
/// register fields that the layout has must name registers of the table;
/// the fields that it lacks are not looked at.
pub open spec fn args_of(b: Block, lex: &Lexicon) -> Result<ArgFormat, DecodeError> {
    match Format::lookup(extract(b.w2, 14, 4)) {
        None => Err(DecodeError::UnrecognizedOperandLayout),
        Some(form) => if form == Format::Forrr || form == Format::Foa {
            Err(DecodeError::UnsupportedConstruct)
        } else if !registers_known(form, b, lex) {
            Err(DecodeError::UnrecognizedRegister)
        } else {
            Ok(operands_in(form, b))
        },
    }
}

/// Reads the seven-bit register field at `offset` of `word`.
fn read_register(word: u32, offset: u32) -> (reg: Register)
    requires
        offset + 7 <= 32,
    ensures
        reg == register_at(word, offset as nat),
{
    Register { code: get_bits(word, offset, 7) }
}

/// The number of register fields that the layout has.
pub fn count_registers(form: Format) -> (count: u32)
    ensures
        count == register_count(form),
{
    match form {
        Format::Fl | Format::Fi | Format::Forrr | Format::Foa => 0,
        Format::Fra | Format::Fri | Format::Fa | Format::Fr | Format::Frl | Format::Fril => 1,
        Format::Frob | Format::Frri | Format::Frr | Format::Frrl => 2,
        Format::Frrr => 3,
        Format::Frrrr => 4,
    }
}

/// Decodes the operands of the block.
pub fn process_args(block: &Block, lex: &Lexicon) -> (args: Result<ArgFormat, DecodeError>)
    ensures
        args == args_of(*block, lex),
{
    let form_idx = get_bits(block.w2, 14, 4);
    let form = match Format::from_repr(form_idx as usize) {
        Some(form) => form,
        None => {
            return Err(DecodeError::UnrecognizedOperandLayout);
        },
    };
    match form {
        Format::Forrr | Format::Foa => {
            return Err(DecodeError::UnsupportedConstruct);
        },
        _ => {},
    }
    let reg1 = read_register(block.w2, 0);
    let reg2 = read_register(block.w2, 7);
    let reg3 = read_register(block.w2, 14);
    let reg4 = read_register(block.w2, 21);
    let count = count_registers(form);
    if (count >= 1 && lex.register(reg1.code).is_none()) || (count >= 2 && lex.register(
        reg2.code,
    ).is_none()) || (count >= 3 && lex.register(reg3.code).is_none()) || (count >= 4
        && lex.register(reg4.code).is_none()) {
        return Err(DecodeError::UnrecognizedRegister);
    }
    let symno = as_signed(block.w0);
    let immediate = as_signed(block.w3);
    let mem_tag = get_bits(block.w2, 18, 14);
    Ok(
        match form {
            Format::Frob => ArgFormat::Frob {
                symno,
                reg: reg1,
                offset: as_signed_half(block.w3),
                base: reg2,
                mem_tag,
            },
            Format::Fra => ArgFormat::Fra { symno, reg: reg1, offset: immediate },
            Format::Fri => ArgFormat::Fri { reg: reg1, immediate, mem_tag },
            Format::Frrr => ArgFormat::Frrr { reg1, reg2, reg3 },
            Format::Frri => ArgFormat::Frri { reg1, reg2, immediate, mem_tag },
            Format::Frr => ArgFormat::Frr { reg1, reg2 },
            Format::Fa => ArgFormat::Fa { symno, base: reg1, immediate, mem_tag },
            Format::Fr => ArgFormat::Fr { reg: reg1 },
            Format::Frrl => ArgFormat::Frrl { symno, reg1, reg2 },
            Format::Frl => ArgFormat::Frl { symno, reg: reg1 },
            Format::Fl => ArgFormat::Fl { symno },
            Format::Forrr => ArgFormat::Forrr,
            Format::Fril => ArgFormat::Fril { symno, reg: reg1, immediate, mem_tag },
            Format::Fi => ArgFormat::Fi { immediate },
            Format::Foa => ArgFormat::Foa,
            Format::Frrrr => ArgFormat::Frrrr { reg1, reg2, reg3, reg4 },
        },
    )
}

/// A result with the statement in it as a mathematical value.
pub open spec fn outcome_view(outcome: Result<Asm, DecodeError>) -> Result<AsmView, DecodeError> {
    match outcome {
        Ok(statement) => Ok(statement@),
        Err(e) => Err(e),
    }
}

/// Whether the block is in one of the two reserved layouts.
pub open spec fn selects_reserved(b: Block) -> bool {
    let form = Format::lookup(extract(b.w2, 14, 4));
    form == Some(Format::Forrr) || form == Some(Format::Foa)
}

/// Whether the block is in one of the two reserved layouts.
pub fn in_reserved_layout(block: &Block) -> (reserved: bool)
    ensures
        reserved == selects_reserved(*block),
{
    match Format::from_repr(get_bits(block.w2, 14, 4) as usize) {
        Some(Format::Forrr) | Some(Format::Foa) => true,
        _ => false,
    }
}

/// The instruction in the block. A block in a reserved layout is not
/// decoded, whatever its opcode. In any other layout the opcode, the
/// nine-bit field at bit 22 of word 1, must be one of the table; then come
/// the operands.
pub open spec fn iocode_of(b: Block, lex: &Lexicon) -> Result<AsmView, DecodeError> {
    let op = Opcode { code: extract(b.w1, 22, 9) as u32 };
    if selects_reserved(b) {
        Err(DecodeError::UnsupportedConstruct)
    } else if !lex.knows_opcode(op.code as nat) {
        Err(DecodeError::UnrecognizedOpcode)
    } else {
        match args_of(b, lex) {
            Ok(args) => Ok(AsmView::Iocode { op, args }),
            Err(e) => Err(e),
        }
    }
}

/// Decodes the instruction in the block.
pub fn process_iocode(block: &Block, lex: &Lexicon) -> (statement: Result<Asm, DecodeError>)
    ensures
        outcome_view(statement) == iocode_of(*block, lex),
{
    if in_reserved_layout(block) {
        return Err(DecodeError::UnsupportedConstruct);
    }
    let op_idx = get_bits(block.w1, 31 - 9, 9);
    let op = match lex.opcode(op_idx) {
        Some(op) => op,
        None => {
            return Err(DecodeError::UnrecognizedOpcode);
        },
    };
    match process_args(block, lex) {
        Ok(args) => Ok(Asm::Iocode { op, args }),
        Err(e) => Err(e),
    }
}

/// The argument of an option whose argument has the given shape, with
/// `word` as the word that holds it. Floating-point and string arguments
/// are not decoded.
pub open spec fn option_value(shape: OptArgType, word: u32) -> Result<OptValue, DecodeError> {
    match shape {
        OptArgType::OptNone => Ok(OptValue::Empty),
        OptArgType::OptInt => Ok(OptValue::Int(signed_word(word))),
        OptArgType::OptFloat | OptArgType::OptString => Err(DecodeError::UnsupportedConstruct),
    }
}

/// The `.option` directive in the block: the option is the two-bit field at
/// bit 16 of word 1, its argument is in word 3.
pub open spec fn ioption_of(b: Block) -> Result<AsmView, DecodeError> {
    match OptType::lookup(extract(b.w1, 16, 2)) {
        None => Err(DecodeError::UnrecognizedOptionKind),
        Some(opt) => match option_value(opt.arg_type(), b.w3) {
            Ok(value) => Ok(AsmView::Ioption { opt, value }),
            Err(e) => Err(e),
        },
    }
}

/// Decodes the `.option` directive in the block.
pub fn process_ioption(block: &Block) -> (statement: Result<Asm, DecodeError>)
    ensures
        outcome_view(statement) == ioption_of(*block),
{
    let option_idx = get_bits(block.w1, 16, 2);
    let option_type = match OptType::from_repr(option_idx as usize) {
        Some(opt) => opt,
        None => {
            return Err(DecodeError::UnrecognizedOptionKind);
        },
    };
    match option_type.option_arg_type() {
        OptArgType::OptNone => Ok(Asm::Ioption { opt: option_type, value: OptValue::Empty }),
        OptArgType::OptInt => Ok(
            Asm::Ioption { opt: option_type, value: OptValue::Int(as_signed(block.w3)) },
        ),
        OptArgType::OptFloat | OptArgType::OptString => Err(DecodeError::UnsupportedConstruct),
    }
}

/// The `.frame` directive in the block: the frame offset is word 2, the
/// frame register and the return register are the first two seven-bit
/// fields of word 3.
pub open spec fn frame_of(b: Block, lex: &Lexicon) -> Result<AsmView, DecodeError> {
    let framereg = register_at(b.w3, 0);
    let pcreg = register_at(b.w3, 7);
    if lex.knows_register(framereg.code as nat) && lex.knows_register(pcreg.code as nat) {
        Ok(AsmView::Iframe { frameoffset: signed_word(b.w2), framereg, pcreg })
    } else {
        Err(DecodeError::UnrecognizedRegister)
    }
}

fn process_iframe(block: &Block, lex: &Lexicon) -> (statement: Result<Asm, DecodeError>)
    ensures
        outcome_view(statement) == frame_of(*block, lex),
{
    let framereg = read_register(block.w3, 0);
    let pcreg = read_register(block.w3, 7);
    if lex.register(framereg.code).is_none() || lex.register(pcreg.code).is_none() {
        return Err(DecodeError::UnrecognizedRegister);
    }
    Ok(Asm::Iframe { frameoffset: as_signed(block.w2), framereg, pcreg })
}

/// The `.set` directive in the block: word 2 is the index of its value.
pub open spec fn set_of(b: Block, lex: &Lexicon) -> Result<AsmView, DecodeError> {
    if lex.knows_set_value(b.w2 as nat) {
        Ok(AsmView::Iset { value: SetValue { code: b.w2 } })
    } else {
        Err(DecodeError::UnrecognizedSetValue)
    }
}

fn process_iset(block: &Block, lex: &Lexicon) -> (statement: Result<Asm, DecodeError>)
    ensures
        outcome_view(statement) == set_of(*block, lex),
{
    match lex.set_value(block.w2) {
        Some(value) => Ok(Asm::Iset { value }),
        None => Err(DecodeError::UnrecognizedSetValue),
    }
}

/// The `.word` directive in the block. With a symbol, the expression must
/// be zero and the repeat count zero or one.
pub open spec fn word_of(b: Block) -> Result<AsmView, DecodeError> {
    let symno = signed_word(b.w0);
    let expression = signed_word(b.w2);
    let repeat = b.w3;
    if symno != 0 && !(expression == 0 && (repeat == 0 || repeat == 1)) {
        Err(DecodeError::UnsupportedConstruct)
    } else {
        Ok(AsmView::Iword { symno, expression, repeat })
    }
}

fn process_iword(block: &Block) -> (statement: Result<Asm, DecodeError>)
    ensures
        outcome_view(statement) == word_of(*block),
{
    let symno = as_signed(block.w0);
    let expression = as_signed(block.w2);
    let repeat = block.w3;
    if symno != 0 && !(expression == 0 && (repeat == 0 || repeat == 1)) {
        Err(DecodeError::UnsupportedConstruct)
    } else {
        Ok(Asm::Iword { symno, expression, repeat })
    }
}

/// The operands of a `.cpload` or `.cpadd` directive: those of the block,
/// which must be in the layout of a register with offset and base.
pub open spec fn base_args_of(b: Block, lex: &Lexicon) -> Result<ArgFormat, DecodeError> {
    match args_of(b, lex) {
        Ok(args) => if args is Frob {
            Ok(args)
        } else {
            Err(DecodeError::UnsupportedConstruct)
        },
        Err(e) => Err(e),
    }
}

fn process_base_args(block: &Block, lex: &Lexicon) -> (args: Result<ArgFormat, DecodeError>)
    ensures
        args == base_args_of(*block, lex),
{
    match process_args(block, lex) {
        Ok(args) => match args {
            ArgFormat::Frob { .. } => Ok(args),
            _ => Err(DecodeError::UnsupportedConstruct),
        },
        Err(e) => Err(e),
    }
}

/// The `.cpload` directive in the block.
pub open spec fn cpload_of(b: Block, lex: &Lexicon) -> Result<AsmView, DecodeError> {
    match base_args_of(b, lex) {
        Ok(args) => Ok(AsmView::Icpload { symno: signed_word(b.w0), args }),
        Err(e) => Err(e),
    }
}

/// The `.cpadd` directive in the block.
pub open spec fn cpadd_of(b: Block, lex: &Lexicon) -> Result<AsmView, DecodeError> {
    match base_args_of(b, lex) {
        Ok(args) => Ok(AsmView::Icpadd { symno: signed_word(b.w0), args }),
        Err(e) => Err(e),
    }
}

fn process_icpload(block: &Block, lex: &Lexicon) -> (statement: Result<Asm, DecodeError>)
    ensures
        outcome_view(statement) == cpload_of(*block, lex),
{
    match process_base_args(block, lex) {
        Ok(args) => Ok(Asm::Icpload { symno: as_signed(block.w0), args }),
        Err(e) => Err(e),
    }
}

fn process_icpadd(block: &Block, lex: &Lexicon) -> (statement: Result<Asm, DecodeError>)
    ensures
        outcome_view(statement) == cpadd_of(*block, lex),
{
    match process_base_args(block, lex) {
        Ok(args) => Ok(Asm::Icpadd { symno: as_signed(block.w0), args }),
        Err(e) => Err(e),
    }
}

/// Whether a record of this kind is followed by the bytes of a literal.
pub open spec fn has_literal(kind: Itype) -> bool {
    kind == Itype::Iascii || kind == Itype::Iasciiz || kind == Itype::Ifile || kind
        == Itype::Ifloat || kind == Itype::Idouble || kind == Itype::Iextended
}

/// Whether a record of this kind is followed by the bytes of a literal.
pub fn carries_literal(kind: Itype) -> (literal: bool)
    ensures
        literal == has_literal(kind),
{
    match kind {
        Itype::Iascii
        | Itype::Iasciiz
        | Itype::Ifile
        | Itype::Ifloat
        | Itype::Idouble
        | Itype::Iextended => true,
        _ => false,
    }
}

/// The statement of kind `kind` that the block `b` encodes, with `payload`
/// as the bytes of its literal where it has one. Word 0 is the symbol,
/// word 2 a lexical level, an expression or a length, word 3 a repeat
/// count or an offset, as the kind has it.
pub open spec fn statement_of(
    kind: Itype,
    b: Block,
    payload: Seq<u8>,
    lex: &Lexicon,
) -> Result<AsmView, DecodeError> {
    let symno = signed_word(b.w0);
    let lexlev = signed_word(b.w2);
    let expression = signed_word(b.w2);
    let length = b.w2;
    let repeat = b.w3;
    let regoffset = signed_word(b.w3);
    match kind {
        Itype::Ilabel => Ok(AsmView::Ilabel { symno }),
        Itype::Iglobal => Ok(AsmView::Iglobal { symno }),
        Itype::Icpload => cpload_of(b, lex),
        Itype::Ialign => Ok(AsmView::Ialign { length }),
        Itype::Iascii => Ok(AsmView::Iascii { length, repeat, string: payload }),
        Itype::Iasciiz => Ok(AsmView::Iasciiz { length, repeat, string: payload }),
        Itype::Ibyte => Ok(AsmView::Ibyte { symno, expression, repeat }),
        Itype::Icomm => Ok(AsmView::Icomm { symno, length }),
        Itype::Ilcomm => Ok(AsmView::Ilcomm { symno, length }),
        Itype::Idata => Ok(AsmView::Idata { symno }),
        Itype::Idouble => Ok(AsmView::Idouble { length, repeat, string: payload }),
        Itype::Ifile => Ok(AsmView::Ifile { symno, length, repeat, string: payload }),
        Itype::Ifloat => Ok(AsmView::Ifloat { length, repeat, string: payload }),
        Itype::Ihalf => Ok(AsmView::Ihalf { symno, expression, repeat }),
        Itype::Icprestore => Ok(AsmView::Icprestore { offset: length }),
        Itype::Igpword => Ok(AsmView::Igpword { symno, expression, repeat }),
        Itype::Icpadd => cpadd_of(b, lex),
        Itype::Iweakext => Ok(AsmView::Iweakext { symno, lexlev }),
        Itype::Itext => Ok(AsmView::Itext),
        Itype::Iword => word_of(b),
        Itype::Iocode => iocode_of(b, lex),
        Itype::Iend => Ok(AsmView::Iend { symno }),
        Itype::Isdata => Ok(AsmView::Isdata { symno }),
        Itype::Irdata => Ok(AsmView::Irdata { symno }),
        Itype::Ient => Ok(AsmView::Ient { symno, lexlev }),
        Itype::Iloc => Ok(AsmView::Iloc { filenumber: length, linenumber: repeat }),
        Itype::Ibgnb => Ok(AsmView::Ibgnb { symno }),
        Itype::Iendb => Ok(AsmView::Iendb { symno }),
        Itype::Iasm0 => Ok(AsmView::Iasm0 { symno }),
        Itype::Iset => set_of(b, lex),
        Itype::Iendrep => Ok(AsmView::Iendrep { symno }),
        Itype::Ilab => Ok(AsmView::Ilab { symno }),
        Itype::Imask => Ok(AsmView::Imask { regmask: length, regoffset }),
        Itype::Ifmask => Ok(AsmView::Ifmask { regmask: length, regoffset }),
        Itype::Ierr => Ok(AsmView::Ierr),
        Itype::Iverstamp => Ok(AsmView::Iverstamp { majornumber: lexlev, minornumber: regoffset }),
        Itype::Iframe => frame_of(b, lex),
        Itype::Iaent => Ok(AsmView::Iaent { symno, lexlev }),
        Itype::Ioption => ioption_of(b),
        Itype::Ilivereg => Ok(AsmView::Ilivereg { gpmask: length, fpmask: repeat }),
        Itype::Irestext => Ok(AsmView::Irestext { symno }),
        Itype::Idword => Ok(AsmView::Idword { expression, repeat }),
        Itype::Iprologue => Ok(AsmView::Iprologue { symno, lexlev }),
        Itype::Ialloc => Ok(AsmView::Ialloc { symno }),
        Itype::Iextended
        | Itype::Isym
        | Itype::Iloopno
        | Itype::Ispace
        | Itype::Icpalias
        | Itype::Irep
        | Itype::Ivreg
        | Itype::Iglobabs
        | Itype::Iextern
        | Itype::Inoalias
        | Itype::Ialias
        | Itype::Imtag
        | Itype::Imalias
        | Itype::Istruct
        | Itype::Igjaldef
        | Itype::Igjallive
        | Itype::Igjrlive
        | Itype::IshiftAddr
        | Itype::Iedata => Err(DecodeError::UnsupportedConstruct),
    }
}

/// What one record decodes to, and the number of blocks that it takes.
#[derive(Debug, PartialEq, Eq)]
pub struct Decoded {
    pub outcome: Result<Asm, DecodeError>,
    /// The blocks of the record: one and those of its literal, or none
    /// where the record is truncated.
    pub blocks: usize,
}

/// A decoded record as a mathematical value.
pub ghost struct DecodedView {
    pub outcome: Result<AsmView, DecodeError>,
    pub blocks: nat,
}

impl View for Decoded {
    type V = DecodedView;

    open spec fn view(&self) -> DecodedView {
        DecodedView { outcome: outcome_view(self.outcome), blocks: self.blocks as nat }
    }
}

/// The length of the literal behind a record of kind `kind` with block `b`.
pub open spec fn literal_length(kind: Itype, b: Block) -> nat {
    if has_literal(kind) {
        b.w2 as nat
    } else {
        0
    }
}

/// What the record at byte `off` of `bytes` decodes to. The kind is the
/// six-bit field at bit 10 of word 1. A record that does not lie within the
/// buffer, with the blocks of its literal, is truncated and takes no
/// block; any other takes its blocks whether or not it decodes.
pub open spec fn record_at(bytes: Seq<u8>, off: nat, lex: &Lexicon) -> DecodedView {
    if !block_fits(bytes.len(), off) {
        DecodedView { outcome: Err(DecodeError::Truncated), blocks: 0 }
    } else {
        let b = block_at(bytes, off as int);
        match Itype::lookup(extract(b.w1, 10, 6)) {
            None => DecodedView { outcome: Err(DecodeError::UnrecognizedDiscriminant), blocks: 1 },
            Some(kind) => {
                let length = literal_length(kind, b);
                if !payload_fits(bytes.len(), off, length) {
                    DecodedView { outcome: Err(DecodeError::Truncated), blocks: 0 }
                } else {
                    DecodedView {
                        outcome: statement_of(kind, b, payload_at(bytes, off, length), lex),
                        blocks: 1 + payload_blocks(length),
                    }
                }
            },
        }
    }
}

/// Decodes the statement of kind `itype` in `block`.
fn process_statement(
    itype: Itype,
    block: &Block,
    payload: Vec<u8>,
    lex: &Lexicon,
) -> (statement: Result<Asm, DecodeError>)
    ensures
        outcome_view(statement) == statement_of(itype, *block, payload@, lex),
{
    let symno = as_signed(block.w0);
    let lexlev = as_signed(block.w2);
    let expression = lexlev;
    let length = block.w2;
    let repeat = block.w3;
    let regoffset = as_signed(block.w3);
    match itype {
        Itype::Ilabel => Ok(Asm::Ilabel { symno }),
        Itype::Iglobal => Ok(Asm::Iglobal { symno }),
        Itype::Icpload => process_icpload(block, lex),
        Itype::Ialign => Ok(Asm::Ialign { length }),
        Itype::Iascii => Ok(Asm::Iascii { length, repeat, string: AsciiString { s: payload } }),
        Itype::Iasciiz => Ok(Asm::Iasciiz { length, repeat, string: AsciiString { s: payload } }),
        Itype::Ibyte => Ok(Asm::Ibyte { symno, expression, repeat }),
        Itype::Icomm => Ok(Asm::Icomm { symno, length }),
        Itype::Ilcomm => Ok(Asm::Ilcomm { symno, length }),
        Itype::Idata => Ok(Asm::Idata { symno }),
        Itype::Idouble => Ok(Asm::Idouble { length, repeat, string: FPString { s: payload } }),
        Itype::Ifile => Ok(
            Asm::Ifile { symno, length, repeat, string: AsciiString { s: payload } },
        ),
        Itype::Ifloat => Ok(Asm::Ifloat { length, repeat, string: FPString { s: payload } }),
        Itype::Ihalf => Ok(Asm::Ihalf { symno, expression, repeat }),
        Itype::Icprestore => Ok(Asm::Icprestore { offset: length }),
        Itype::Igpword => Ok(Asm::Igpword { symno, expression, repeat }),
        Itype::Icpadd => process_icpadd(block, lex),
        Itype::Iweakext => Ok(Asm::Iweakext { symno, lexlev }),
        Itype::Itext => Ok(Asm::Itext),
        Itype::Iword => process_iword(block),
        Itype::Iocode => process_iocode(block, lex),
        Itype::Iend => Ok(Asm::Iend { symno }),
        Itype::Isdata => Ok(Asm::Isdata { symno }),
        Itype::Irdata => Ok(Asm::Irdata { symno }),
        Itype::Ient => Ok(Asm::Ient { symno, lexlev }),
        Itype::Iloc => Ok(Asm::Iloc { filenumber: length, linenumber: repeat }),
        Itype::Ibgnb => Ok(Asm::Ibgnb { symno }),
        Itype::Iendb => Ok(Asm::Iendb { symno }),
        Itype::Iasm0 => Ok(Asm::Iasm0 { symno }),
        Itype::Iset => process_iset(block, lex),
        Itype::Iendrep => Ok(Asm::Iendrep { symno }),
        Itype::Ilab => Ok(Asm::Ilab { symno }),
        Itype::Imask => Ok(Asm::Imask { regmask: length, regoffset }),
        Itype::Ifmask => Ok(Asm::Ifmask { regmask: length, regoffset }),
        Itype::Ierr => Ok(Asm::Ierr),
        Itype::Iverstamp => Ok(Asm::Iverstamp { majornumber: lexlev, minornumber: regoffset }),
        Itype::Iframe => process_iframe(block, lex),
        Itype::Iaent => Ok(Asm::Iaent { symno, lexlev }),
        Itype::Ioption => process_ioption(block),
        Itype::Ilivereg => Ok(Asm::Ilivereg { gpmask: length, fpmask: repeat }),
        Itype::Irestext => Ok(Asm::Irestext { symno }),
        Itype::Idword => Ok(Asm::Idword { expression, repeat }),
        Itype::Iprologue => Ok(Asm::Iprologue { symno, lexlev }),
        Itype::Ialloc => Ok(Asm::Ialloc { symno }),
        Itype::Iextended
        | Itype::Isym
        | Itype::Iloopno
        | Itype::Ispace
        | Itype::Icpalias
        | Itype::Irep
        | Itype::Ivreg
        | Itype::Iglobabs
        | Itype::Iextern
        | Itype::Inoalias
        | Itype::Ialias
        | Itype::Imtag
        | Itype::Imalias
        | Itype::Istruct
        | Itype::Igjaldef
        | Itype::Igjallive
        | Itype::Igjrlive
        | Itype::IshiftAddr
        | Itype::Iedata => Err(DecodeError::UnsupportedConstruct),
    }
}

/// Decodes the record at the cursor.
pub fn process_record(cursor: &Cursor, lex: &Lexicon) -> (decoded: Decoded)
    ensures
        decoded@ == record_at(cursor.buffer(), cursor.position(), lex),
{
    let block = match cursor.peek_block() {
        Ok(block) => block,
        Err(e) => {
            return Decoded { outcome: Err(e), blocks: 0 };
        },
    };
    let t = get_bits(block.w1, 10, 6) as usize;
    let itype = match Itype::from_repr(t) {
        Some(itype) => itype,
        None => {
            return Decoded { outcome: Err(DecodeError::UnrecognizedDiscriminant), blocks: 1 };
        },
    };
    if carries_literal(itype) {
        let length = block.w2;
        let payload = match cursor.peek_payload(length) {
            Ok(payload) => payload,
            Err(e) => {
                return Decoded { outcome: Err(e), blocks: 0 };
            },
        };
        let extra: usize = (length / 16) as usize + if length % 16 == 0 {
            0
        } else {
            1
        };
        Decoded { outcome: process_statement(itype, &block, payload, lex), blocks: 1 + extra }
    } else {
        Decoded { outcome: process_statement(itype, &block, Vec::new(), lex), blocks: 1 }
    }
}

/// Whether the registers of the operands are registers of the table.
pub open spec fn args_known(args: ArgFormat, lex: &Lexicon) -> bool {
    match args {
        ArgFormat::Frob { reg, base, .. } => lex.knows_register(reg.code as nat)
            && lex.knows_register(base.code as nat),
        ArgFormat::Fra { reg, .. } => lex.knows_register(reg.code as nat),
        ArgFormat::Fri { reg, .. } => lex.knows_register(reg.code as nat),
        ArgFormat::Frrr { reg1, reg2, reg3 } => lex.knows_register(reg1.code as nat)
            && lex.knows_register(reg2.code as nat) && lex.knows_register(reg3.code as nat),
        ArgFormat::Frri { reg1, reg2, .. } => lex.knows_register(reg1.code as nat)
            && lex.knows_register(reg2.code as nat),
        ArgFormat::Frr { reg1, reg2 } => lex.knows_register(reg1.code as nat)
            && lex.knows_register(reg2.code as nat),
        ArgFormat::Fa { base, .. } => lex.knows_register(base.code as nat),
        ArgFormat::Fr { reg } => lex.knows_register(reg.code as nat),
        ArgFormat::Frrl { reg1, reg2, .. } => lex.knows_register(reg1.code as nat)
            && lex.knows_register(reg2.code as nat),
        ArgFormat::Frl { reg, .. } => lex.knows_register(reg.code as nat),
        ArgFormat::Fril { reg, .. } => lex.knows_register(reg.code as nat),
        ArgFormat::Frrrr { reg1, reg2, reg3, reg4 } => lex.knows_register(reg1.code as nat)
            && lex.knows_register(reg2.code as nat) && lex.knows_register(reg3.code as nat)
            && lex.knows_register(reg4.code as nat),
        ArgFormat::Fl { .. } | ArgFormat::Fi { .. } | ArgFormat::Forrr | ArgFormat::Foa => true,
    }
}

/// Whether the registers, the opcode and the `.set` value of the statement
/// are entries of the tables.
pub open spec fn statement_known(statement: AsmView, lex: &Lexicon) -> bool {
    match statement {
        AsmView::Iframe { framereg, pcreg, .. } => lex.knows_register(framereg.code as nat)
            && lex.knows_register(pcreg.code as nat),
        AsmView::Iset { value } => lex.knows_set_value(value.code as nat),
        AsmView::Iocode { op, args } => lex.knows_opcode(op.code as nat) && args_known(args, lex),
        AsmView::Icpload { args, .. } => args is Frob && args_known(args, lex),
        AsmView::Icpadd { args, .. } => args is Frob && args_known(args, lex),
        _ => true,
    }
}

/// Every layout code that a block can hold stands for a layout: operands
/// never fail for want of one.
pub proof fn lemma_layout_is_recognized(b: Block, lex: &Lexicon)
    ensures
        args_of(b, lex) != Err::<ArgFormat, DecodeError>(DecodeError::UnrecognizedOperandLayout),
{
    lemma_extract_bound(b.w2, 14, 4);
    lemma2_to64();
    Format::lemma_lookup(extract(b.w2, 14, 4));
}

/// A block in a reserved layout gives no operands, no instruction and no
/// `.cpload` or `.cpadd` directive: each of them is unsupported, whatever
/// the tables hold and whatever else the block holds.
pub proof fn lemma_reserved_layout_is_unsupported(b: Block, lex: &Lexicon)
    requires
        selects_reserved(b),
    ensures
        args_of(b, lex) == Err::<ArgFormat, DecodeError>(DecodeError::UnsupportedConstruct),
        iocode_of(b, lex) == Err::<AsmView, DecodeError>(DecodeError::UnsupportedConstruct),
        cpload_of(b, lex) == Err::<AsmView, DecodeError>(DecodeError::UnsupportedConstruct),
        cpadd_of(b, lex) == Err::<AsmView, DecodeError>(DecodeError::UnsupportedConstruct),
{
}

/// Whether operands fail for a register depends on the register fields of
/// their layout alone: in a layout that is not reserved they fail exactly
/// when one of those fields names no register of the table, and then with
/// that error.
pub proof fn lemma_only_own_registers_count(b: Block, lex: &Lexicon)
    requires
        !selects_reserved(b),
    ensures
        match Format::lookup(extract(b.w2, 14, 4)) {
            Some(form) => if registers_known(form, b, lex) {
                args_of(b, lex) == Ok::<ArgFormat, DecodeError>(operands_in(form, b))
            } else {
                args_of(b, lex) == Err::<ArgFormat, DecodeError>(
                    DecodeError::UnrecognizedRegister,
                )
            },
            None => false,
        },
{
    lemma_extract_bound(b.w2, 14, 4);
    lemma2_to64();
    Format::lemma_lookup(extract(b.w2, 14, 4));
}

/// Operands that decode are in the layout that the block selects, which is
/// no reserved one, and name registers of the table only.
pub proof fn lemma_args_are_known(b: Block, lex: &Lexicon)
    ensures
        match args_of(b, lex) {
            Ok(args) => {
                &&& Format::lookup(extract(b.w2, 14, 4)) == Some(args.format())
                &&& args_known(args, lex)
                &&& !(args is Forrr)
                &&& !(args is Foa)
            },
            Err(_) => true,
        },
{
}

/// A statement that decodes is of the kind that the record names, and its
/// registers, its opcode and its `.set` value are entries of the tables.
pub proof fn lemma_statement_is_known(kind: Itype, b: Block, payload: Seq<u8>, lex: &Lexicon)
    ensures
        match statement_of(kind, b, payload, lex) {
            Ok(statement) => statement.itype() == kind && statement_known(statement, lex),
            Err(e) => e != DecodeError::Truncated && e != DecodeError::UnrecognizedDiscriminant,
        },
{
    lemma_args_are_known(b, lex);
}

} // verus!
