//! The statements that records decode to.

use crate::mips::{Format, Itype, Opcode, OptType, Register, SetValue};
use vstd::prelude::*;

verus! {

/// Why a record could not be decoded.
#[derive(Clone, Copy, Debug, PartialEq, Eq, Structural)]
pub enum DecodeError {
    /// The statement kind code stands for no kind.
    UnrecognizedDiscriminant,
    /// The operand layout code stands for no layout.
    UnrecognizedOperandLayout,
    /// A register field holds an index that the register table lacks.
    UnrecognizedRegister,
    /// The opcode field holds an index that the opcode table lacks.
    UnrecognizedOpcode,
    /// The `.set` value is one that its table lacks.
    UnrecognizedSetValue,
    /// The option code stands for no option.
    UnrecognizedOptionKind,
    /// The record is of a known shape that is not decoded.
    UnsupportedConstruct,
    /// The record, with the blocks that its literal takes, runs past the end
    /// of the buffer.
    Truncated,
}

/// The operands of an instruction, by layout.
#[allow(inconsistent_fields)]
#[derive(Clone, Copy, Debug, PartialEq, Eq, Structural)]
pub enum ArgFormat {
    /// reg, offset(base)
    Frob { symno: i32, reg: Register, offset: i16, base: Register, mem_tag: u32 },
    /// reg, [symbol]+offset
    Fra { symno: i32, reg: Register, offset: i32 },
    /// reg, immediate
    Fri { reg: Register, immediate: i32, mem_tag: u32 },
    /// reg, reg, reg
    Frrr { reg1: Register, reg2: Register, reg3: Register },
    /// reg, reg, immediate
    Frri { reg1: Register, reg2: Register, immediate: i32, mem_tag: u32 },
    /// reg, reg
    Frr { reg1: Register, reg2: Register },
    /// [symbol]+offset[(base)]
    Fa { symno: i32, base: Register, immediate: i32, mem_tag: u32 },
    /// reg
    Fr { reg: Register },
    /// reg, reg, symbol
    Frrl { symno: i32, reg1: Register, reg2: Register },
    /// reg, symbol
    Frl { symno: i32, reg: Register },
    /// symbol
    Fl { symno: i32 },
    /// reserved for a coprocessor
    Forrr,
    /// reg, immediate, symbol
    Fril { symno: i32, reg: Register, immediate: i32, mem_tag: u32 },
    /// immediate
    Fi { immediate: i32 },
    /// op, address (reserved)
    Foa,
    /// reg, reg, reg, reg
    Frrrr { reg1: Register, reg2: Register, reg3: Register, reg4: Register },
}

impl ArgFormat {
    /// The layout that these operands are in.
    pub open spec fn format(self) -> Format {
        match self {
            ArgFormat::Frob { .. } => Format::Frob,
            ArgFormat::Fra { .. } => Format::Fra,
            ArgFormat::Fri { .. } => Format::Fri,
            ArgFormat::Frrr { .. } => Format::Frrr,
            ArgFormat::Frri { .. } => Format::Frri,
            ArgFormat::Frr { .. } => Format::Frr,
            ArgFormat::Fa { .. } => Format::Fa,
            ArgFormat::Fr { .. } => Format::Fr,
            ArgFormat::Frrl { .. } => Format::Frrl,
            ArgFormat::Frl { .. } => Format::Frl,
            ArgFormat::Fl { .. } => Format::Fl,
            ArgFormat::Forrr => Format::Forrr,
            ArgFormat::Fril { .. } => Format::Fril,
            ArgFormat::Fi { .. } => Format::Fi,
            ArgFormat::Foa => Format::Foa,
            ArgFormat::Frrrr { .. } => Format::Frrrr,
        }
    }

    /// The layout that these operands are in.
    pub fn layout(&self) -> (form: Format)
        ensures
            form == self.format(),
    {
        match self {
            ArgFormat::Frob { .. } => Format::Frob,
            ArgFormat::Fra { .. } => Format::Fra,
            ArgFormat::Fri { .. } => Format::Fri,
            ArgFormat::Frrr { .. } => Format::Frrr,
            ArgFormat::Frri { .. } => Format::Frri,
            ArgFormat::Frr { .. } => Format::Frr,
            ArgFormat::Fa { .. } => Format::Fa,
            ArgFormat::Fr { .. } => Format::Fr,
            ArgFormat::Frrl { .. } => Format::Frrl,
            ArgFormat::Frl { .. } => Format::Frl,
            ArgFormat::Fl { .. } => Format::Fl,
            ArgFormat::Forrr => Format::Forrr,
            ArgFormat::Fril { .. } => Format::Fril,
            ArgFormat::Fi { .. } => Format::Fi,
            ArgFormat::Foa => Format::Foa,
            ArgFormat::Frrrr { .. } => Format::Frrrr,
        }
    }
}

/// The bytes of a string literal.
#[derive(Clone, Debug, PartialEq, Eq)]
pub struct AsciiString {
    pub s: Vec<u8>,
}

/// The bytes of a floating-point literal, as the source wrote it.
#[derive(Clone, Debug, PartialEq, Eq)]
pub struct FPString {
    pub s: Vec<u8>,
}

impl View for AsciiString {
    type V = Seq<u8>;

    open spec fn view(&self) -> Seq<u8> {
        self.s@
    }
}

impl View for FPString {
    type V = Seq<u8>;

    open spec fn view(&self) -> Seq<u8> {
        self.s@
    }
}

/// The argument of an `.option` directive.
#[derive(Clone, Copy, Debug, PartialEq, Eq, Structural)]
pub enum OptValue {
    Empty,
    Int(i32),
}

/// One decoded statement.
#[allow(inconsistent_fields)]
#[derive(Clone, Debug, PartialEq, Eq)]
pub enum Asm {
    Ilabel { symno: i32 },
    Isym,
    Iglobal { symno: i32 },
    Icpload { symno: i32, args: ArgFormat },
    Ialign { length: u32 },
    Iascii { length: u32, repeat: u32, string: AsciiString },
    Iasciiz { length: u32, repeat: u32, string: AsciiString },
    Ibyte { symno: i32, expression: i32, repeat: u32 },
    Icomm { symno: i32, length: u32 },
    Ilcomm { symno: i32, length: u32 },
    Idata { symno: i32 },
    Idouble { length: u32, repeat: u32, string: FPString },
    Ifile { symno: i32, length: u32, repeat: u32, string: AsciiString },
    Ifloat { length: u32, repeat: u32, string: FPString },
    Ihalf { symno: i32, expression: i32, repeat: u32 },
    Icprestore { offset: u32 },
    Igpword { symno: i32, expression: i32, repeat: u32 },
    Icpadd { symno: i32, args: ArgFormat },
    Iweakext { symno: i32, lexlev: i32 },
    Iloopno,
    Ispace,
    Itext,
    Iword { symno: i32, expression: i32, repeat: u32 },
    Iocode { op: Opcode, args: ArgFormat },
    Iend { symno: i32 },
    Isdata { symno: i32 },
    Irdata { symno: i32 },
    Ient { symno: i32, lexlev: i32 },
    Iloc { filenumber: u32, linenumber: u32 },
    Ibgnb { symno: i32 },
    Iendb { symno: i32 },
    Iasm0 { symno: i32 },
    Iset { value: SetValue },
    Icpalias,
    Irep,
    Iendrep { symno: i32 },
    Ilab { symno: i32 },
    Ivreg,
    Imask { regmask: u32, regoffset: i32 },
    Ifmask { regmask: u32, regoffset: i32 },
    Ierr,
    Iglobabs,
    Iverstamp { majornumber: i32, minornumber: i32 },
    Iframe { frameoffset: i32, framereg: Register, pcreg: Register },
    Iextended,
    Iextern,
    Iaent { symno: i32, lexlev: i32 },
    Ioption { opt: OptType, value: OptValue },
    Inoalias,
    Ialias,
    Imtag,
    Imalias,
    Istruct,
    Ilivereg { gpmask: u32, fpmask: u32 },
    Igjaldef,
    Igjallive,
    Igjrlive,
    IshiftAddr,
    Irestext { symno: i32 },
    Idword { expression: i32, repeat: u32 },
    Iprologue { symno: i32, lexlev: i32 },
    Iedata,
    Ialloc { symno: i32 },
}

/// A statement as a mathematical value: the same variants, with each
/// literal as the sequence of its bytes.
#[allow(inconsistent_fields)]
pub ghost enum AsmView {
    Ilabel { symno: i32 },
    Isym,
    Iglobal { symno: i32 },
    Icpload { symno: i32, args: ArgFormat },
    Ialign { length: u32 },
    Iascii { length: u32, repeat: u32, string: Seq<u8> },
    Iasciiz { length: u32, repeat: u32, string: Seq<u8> },
    Ibyte { symno: i32, expression: i32, repeat: u32 },
    Icomm { symno: i32, length: u32 },
    Ilcomm { symno: i32, length: u32 },
    Idata { symno: i32 },
    Idouble { length: u32, repeat: u32, string: Seq<u8> },
    Ifile { symno: i32, length: u32, repeat: u32, string: Seq<u8> },
    Ifloat { length: u32, repeat: u32, string: Seq<u8> },
    Ihalf { symno: i32, expression: i32, repeat: u32 },
    Icprestore { offset: u32 },
    Igpword { symno: i32, expression: i32, repeat: u32 },
    Icpadd { symno: i32, args: ArgFormat },
    Iweakext { symno: i32, lexlev: i32 },
    Iloopno,
    Ispace,
    Itext,
    Iword { symno: i32, expression: i32, repeat: u32 },
    Iocode { op: Opcode, args: ArgFormat },
    Iend { symno: i32 },
    Isdata { symno: i32 },
    Irdata { symno: i32 },
    Ient { symno: i32, lexlev: i32 },
    Iloc { filenumber: u32, linenumber: u32 },
    Ibgnb { symno: i32 },
    Iendb { symno: i32 },
    Iasm0 { symno: i32 },
    Iset { value: SetValue },
    Icpalias,
    Irep,
    Iendrep { symno: i32 },
    Ilab { symno: i32 },
    Ivreg,
    Imask { regmask: u32, regoffset: i32 },
    Ifmask { regmask: u32, regoffset: i32 },
    Ierr,
    Iglobabs,
    Iverstamp { majornumber: i32, minornumber: i32 },
    Iframe { frameoffset: i32, framereg: Register, pcreg: Register },
    Iextended,
    Iextern,
    Iaent { symno: i32, lexlev: i32 },
    Ioption { opt: OptType, value: OptValue },
    Inoalias,
    Ialias,
    Imtag,
    Imalias,
    Istruct,
    Ilivereg { gpmask: u32, fpmask: u32 },
    Igjaldef,
    Igjallive,
    Igjrlive,
    IshiftAddr,
    Irestext { symno: i32 },
    Idword { expression: i32, repeat: u32 },
    Iprologue { symno: i32, lexlev: i32 },
    Iedata,
    Ialloc { symno: i32 },
}

impl View for Asm {
    type V = AsmView;

    open spec fn view(&self) -> AsmView {
        match *self {
            Asm::Ilabel { symno } => AsmView::Ilabel { symno },
            Asm::Isym => AsmView::Isym,
            Asm::Iglobal { symno } => AsmView::Iglobal { symno },
            Asm::Icpload { symno, args } => AsmView::Icpload { symno, args },
            Asm::Ialign { length } => AsmView::Ialign { length },
            Asm::Iascii { length, repeat, string } => AsmView::Iascii {
                length,
                repeat,
                string: string@,
            },
            Asm::Iasciiz { length, repeat, string } => AsmView::Iasciiz {
                length,
                repeat,
                string: string@,
            },
            Asm::Ibyte { symno, expression, repeat } => AsmView::Ibyte {
                symno,
                expression,
                repeat,
            },
            Asm::Icomm { symno, length } => AsmView::Icomm { symno, length },
            Asm::Ilcomm { symno, length } => AsmView::Ilcomm { symno, length },
            Asm::Idata { symno } => AsmView::Idata { symno },
            Asm::Idouble { length, repeat, string } => AsmView::Idouble {
                length,
                repeat,
                string: string@,
            },
            Asm::Ifile { symno, length, repeat, string } => AsmView::Ifile {
                symno,
                length,
                repeat,
                string: string@,
            },
            Asm::Ifloat { length, repeat, string } => AsmView::Ifloat {
                length,
                repeat,
                string: string@,
            },
            Asm::Ihalf { symno, expression, repeat } => AsmView::Ihalf {
                symno,
                expression,
                repeat,
            },
            Asm::Icprestore { offset } => AsmView::Icprestore { offset },
            Asm::Igpword { symno, expression, repeat } => AsmView::Igpword {
                symno,
                expression,
                repeat,
            },
            Asm::Icpadd { symno, args } => AsmView::Icpadd { symno, args },
            Asm::Iweakext { symno, lexlev } => AsmView::Iweakext { symno, lexlev },
            Asm::Iloopno => AsmView::Iloopno,
            Asm::Ispace => AsmView::Ispace,
            Asm::Itext => AsmView::Itext,
            Asm::Iword { symno, expression, repeat } => AsmView::Iword {
                symno,
                expression,
                repeat,
            },
            Asm::Iocode { op, args } => AsmView::Iocode { op, args },
            Asm::Iend { symno } => AsmView::Iend { symno },
            Asm::Isdata { symno } => AsmView::Isdata { symno },
            Asm::Irdata { symno } => AsmView::Irdata { symno },
            Asm::Ient { symno, lexlev } => AsmView::Ient { symno, lexlev },
            Asm::Iloc { filenumber, linenumber } => AsmView::Iloc { filenumber, linenumber },
            Asm::Ibgnb { symno } => AsmView::Ibgnb { symno },
            Asm::Iendb { symno } => AsmView::Iendb { symno },
            Asm::Iasm0 { symno } => AsmView::Iasm0 { symno },
            Asm::Iset { value } => AsmView::Iset { value },
            Asm::Icpalias => AsmView::Icpalias,
            Asm::Irep => AsmView::Irep,
            Asm::Iendrep { symno } => AsmView::Iendrep { symno },
            Asm::Ilab { symno } => AsmView::Ilab { symno },
            Asm::Ivreg => AsmView::Ivreg,
            Asm::Imask { regmask, regoffset } => AsmView::Imask { regmask, regoffset },
            Asm::Ifmask { regmask, regoffset } => AsmView::Ifmask { regmask, regoffset },
            Asm::Ierr => AsmView::Ierr,
            Asm::Iglobabs => AsmView::Iglobabs,
            Asm::Iverstamp { majornumber, minornumber } => AsmView::Iverstamp {
                majornumber,
                minornumber,
            },
            Asm::Iframe { frameoffset, framereg, pcreg } => AsmView::Iframe {
                frameoffset,
                framereg,
                pcreg,
            },
            Asm::Iextended => AsmView::Iextended,
            Asm::Iextern => AsmView::Iextern,
            Asm::Iaent { symno, lexlev } => AsmView::Iaent { symno, lexlev },
            Asm::Ioption { opt, value } => AsmView::Ioption { opt, value },
            Asm::Inoalias => AsmView::Inoalias,
            Asm::Ialias => AsmView::Ialias,
            Asm::Imtag => AsmView::Imtag,
            Asm::Imalias => AsmView::Imalias,
            Asm::Istruct => AsmView::Istruct,
            Asm::Ilivereg { gpmask, fpmask } => AsmView::Ilivereg { gpmask, fpmask },
            Asm::Igjaldef => AsmView::Igjaldef,
            Asm::Igjallive => AsmView::Igjallive,
            Asm::Igjrlive => AsmView::Igjrlive,
            Asm::IshiftAddr => AsmView::IshiftAddr,
            Asm::Irestext { symno } => AsmView::Irestext { symno },
            Asm::Idword { expression, repeat } => AsmView::Idword { expression, repeat },
            Asm::Iprologue { symno, lexlev } => AsmView::Iprologue { symno, lexlev },
            Asm::Iedata => AsmView::Iedata,
            Asm::Ialloc { symno } => AsmView::Ialloc { symno },
        }
    }
}

impl AsmView {
    /// The kind of this statement.
    pub open spec fn itype(self) -> Itype {
        match self {
            AsmView::Ilabel { .. } => Itype::Ilabel,
            AsmView::Isym => Itype::Isym,
            AsmView::Iglobal { .. } => Itype::Iglobal,
            AsmView::Icpload { .. } => Itype::Icpload,
            AsmView::Ialign { .. } => Itype::Ialign,
            AsmView::Iascii { .. } => Itype::Iascii,
            AsmView::Iasciiz { .. } => Itype::Iasciiz,
            AsmView::Ibyte { .. } => Itype::Ibyte,
            AsmView::Icomm { .. } => Itype::Icomm,
            AsmView::Ilcomm { .. } => Itype::Ilcomm,
            AsmView::Idata { .. } => Itype::Idata,
            AsmView::Idouble { .. } => Itype::Idouble,
            AsmView::Ifile { .. } => Itype::Ifile,
            AsmView::Ifloat { .. } => Itype::Ifloat,
            AsmView::Ihalf { .. } => Itype::Ihalf,
            AsmView::Icprestore { .. } => Itype::Icprestore,
            AsmView::Igpword { .. } => Itype::Igpword,
            AsmView::Icpadd { .. } => Itype::Icpadd,
            AsmView::Iweakext { .. } => Itype::Iweakext,
            AsmView::Iloopno => Itype::Iloopno,
            AsmView::Ispace => Itype::Ispace,
            AsmView::Itext => Itype::Itext,
            AsmView::Iword { .. } => Itype::Iword,
            AsmView::Iocode { .. } => Itype::Iocode,
            AsmView::Iend { .. } => Itype::Iend,
            AsmView::Isdata { .. } => Itype::Isdata,
            AsmView::Irdata { .. } => Itype::Irdata,
            AsmView::Ient { .. } => Itype::Ient,
            AsmView::Iloc { .. } => Itype::Iloc,
            AsmView::Ibgnb { .. } => Itype::Ibgnb,
            AsmView::Iendb { .. } => Itype::Iendb,
            AsmView::Iasm0 { .. } => Itype::Iasm0,
            AsmView::Iset { .. } => Itype::Iset,
            AsmView::Icpalias => Itype::Icpalias,
            AsmView::Irep => Itype::Irep,
            AsmView::Iendrep { .. } => Itype::Iendrep,
            AsmView::Ilab { .. } => Itype::Ilab,
            AsmView::Ivreg => Itype::Ivreg,
            AsmView::Imask { .. } => Itype::Imask,
            AsmView::Ifmask { .. } => Itype::Ifmask,
            AsmView::Ierr => Itype::Ierr,
            AsmView::Iglobabs => Itype::Iglobabs,
            AsmView::Iverstamp { .. } => Itype::Iverstamp,
            AsmView::Iframe { .. } => Itype::Iframe,
            AsmView::Iextended => Itype::Iextended,
            AsmView::Iextern => Itype::Iextern,
            AsmView::Iaent { .. } => Itype::Iaent,
            AsmView::Ioption { .. } => Itype::Ioption,
            AsmView::Inoalias => Itype::Inoalias,
            AsmView::Ialias => Itype::Ialias,
            AsmView::Imtag => Itype::Imtag,
            AsmView::Imalias => Itype::Imalias,
            AsmView::Istruct => Itype::Istruct,
            AsmView::Ilivereg { .. } => Itype::Ilivereg,
            AsmView::Igjaldef => Itype::Igjaldef,
            AsmView::Igjallive => Itype::Igjallive,
            AsmView::Igjrlive => Itype::Igjrlive,
            AsmView::IshiftAddr => Itype::IshiftAddr,
            AsmView::Irestext { .. } => Itype::Irestext,
            AsmView::Idword { .. } => Itype::Idword,
            AsmView::Iprologue { .. } => Itype::Iprologue,
            AsmView::Iedata => Itype::Iedata,
            AsmView::Ialloc { .. } => Itype::Ialloc,
        }
    }
}

impl Asm {
    /// The kind of this statement.
    pub fn itype(&self) -> (kind: Itype)
        ensures
            kind == self@.itype(),
    {
        match self {
            Asm::Ilabel { .. } => Itype::Ilabel,
            Asm::Isym => Itype::Isym,
            Asm::Iglobal { .. } => Itype::Iglobal,
            Asm::Icpload { .. } => Itype::Icpload,
            Asm::Ialign { .. } => Itype::Ialign,
            Asm::Iascii { .. } => Itype::Iascii,
            Asm::Iasciiz { .. } => Itype::Iasciiz,
            Asm::Ibyte { .. } => Itype::Ibyte,
            Asm::Icomm { .. } => Itype::Icomm,
            Asm::Ilcomm { .. } => Itype::Ilcomm,
            Asm::Idata { .. } => Itype::Idata,
            Asm::Idouble { .. } => Itype::Idouble,
            Asm::Ifile { .. } => Itype::Ifile,
            Asm::Ifloat { .. } => Itype::Ifloat,
            Asm::Ihalf { .. } => Itype::Ihalf,
            Asm::Icprestore { .. } => Itype::Icprestore,
            Asm::Igpword { .. } => Itype::Igpword,
            Asm::Icpadd { .. } => Itype::Icpadd,
            Asm::Iweakext { .. } => Itype::Iweakext,
            Asm::Iloopno => Itype::Iloopno,
            Asm::Ispace => Itype::Ispace,
            Asm::Itext => Itype::Itext,
            Asm::Iword { .. } => Itype::Iword,
            Asm::Iocode { .. } => Itype::Iocode,
            Asm::Iend { .. } => Itype::Iend,
            Asm::Isdata { .. } => Itype::Isdata,
            Asm::Irdata { .. } => Itype::Irdata,
            Asm::Ient { .. } => Itype::Ient,
            Asm::Iloc { .. } => Itype::Iloc,
            Asm::Ibgnb { .. } => Itype::Ibgnb,
            Asm::Iendb { .. } => Itype::Iendb,
            Asm::Iasm0 { .. } => Itype::Iasm0,
            Asm::Iset { .. } => Itype::Iset,
            Asm::Icpalias => Itype::Icpalias,
            Asm::Irep => Itype::Irep,
            Asm::Iendrep { .. } => Itype::Iendrep,
            Asm::Ilab { .. } => Itype::Ilab,
            Asm::Ivreg => Itype::Ivreg,
            Asm::Imask { .. } => Itype::Imask,
            Asm::Ifmask { .. } => Itype::Ifmask,
            Asm::Ierr => Itype::Ierr,
            Asm::Iglobabs => Itype::Iglobabs,
            Asm::Iverstamp { .. } => Itype::Iverstamp,
            Asm::Iframe { .. } => Itype::Iframe,
            Asm::Iextended => Itype::Iextended,
            Asm::Iextern => Itype::Iextern,
            Asm::Iaent { .. } => Itype::Iaent,
            Asm::Ioption { .. } => Itype::Ioption,
            Asm::Inoalias => Itype::Inoalias,
            Asm::Ialias => Itype::Ialias,
            Asm::Imtag => Itype::Imtag,
            Asm::Imalias => Itype::Imalias,
            Asm::Istruct => Itype::Istruct,
            Asm::Ilivereg { .. } => Itype::Ilivereg,
            Asm::Igjaldef => Itype::Igjaldef,
            Asm::Igjallive => Itype::Igjallive,
            Asm::Igjrlive => Itype::Igjrlive,
            Asm::IshiftAddr => Itype::IshiftAddr,
            Asm::Irestext { .. } => Itype::Irestext,
            Asm::Idword { .. } => Itype::Idword,
            Asm::Iprologue { .. } => Itype::Iprologue,
            Asm::Iedata => Itype::Iedata,
            Asm::Ialloc { .. } => Itype::Ialloc,
        }
    }
}

} // verus!
