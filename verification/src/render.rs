//! From a statement to its line of assembly text.

use crate::dump::{dump, dump_text};
use crate::mips::Lexicon;
use crate::statement::{ArgFormat, Asm, AsmView, AsciiString, FPString, OptValue};
use crate::text::{
    append_decimal, append_hex, append_signed, append_symbol, decimal, escaped, hex_padded,
    push_escaped, signed, signed_string, symbol_name, symbol_string,
};
use vstd::prelude::*;
use vstd::string::*;

verus! {

/// A string literal in double quotes, its bytes escaped.
pub open spec fn quoted(bytes: Seq<u8>) -> Seq<char> {
    "\""@ + escaped(bytes) + "\""@
}

/// The text of the argument of an option: nothing, or the number.
pub open spec fn opt_value_line(value: OptValue) -> Seq<char> {
    match value {
        OptValue::Empty => Seq::empty(),
        OptValue::Int(v) => signed(v as int),
    }
}

/// The offset behind a symbol: nothing where it is zero, else its sign and
/// its magnitude.
pub open spec fn offset_suffix(offset: int) -> Seq<char> {
    if offset > 0 {
        "+"@ + decimal(offset as nat)
    } else if offset < 0 {
        "-"@ + decimal((-offset) as nat)
    } else {
        Seq::empty()
    }
}

/// The operands of an instruction as assembly text, for the combinations
/// that have such a text.
pub open spec fn operands_text(args: ArgFormat, lex: &Lexicon) -> Option<Seq<char>> {
    match args {
        ArgFormat::Frob { symno, reg, offset, base, mem_tag } => if symno == 0 {
            Some(
                lex.register_name(reg) + ", "@ + signed(offset as int) + "("@ + lex.register_name(
                    base,
                ) + ")"@,
            )
        } else if offset == 0 {
            Some(
                lex.register_name(reg) + ", "@ + symbol_name(symno as int) + "("@
                    + lex.register_name(base) + ")"@,
            )
        } else {
            None
        },
        ArgFormat::Fri { reg, immediate, mem_tag } => Some(
            lex.register_name(reg) + ", "@ + signed(immediate as int),
        ),
        ArgFormat::Fa { symno, base, immediate, mem_tag } => if base != lex.noreg {
            None
        } else if symno == 0 {
            Some(signed(immediate as int))
        } else if immediate == 0 {
            Some(" "@ + symbol_name(symno as int))
        } else {
            None
        },
        ArgFormat::Fr { reg } => Some(lex.register_name(reg)),
        ArgFormat::Fl { symno } => Some(symbol_name(symno as int)),
        ArgFormat::Fril { symno, reg, immediate, mem_tag } => Some(
            lex.register_name(reg) + ", "@ + signed(immediate as int) + ", "@ + symbol_name(
                symno as int,
            ),
        ),
        ArgFormat::Frr { reg1, reg2 } => Some(
            lex.register_name(reg1) + ", "@ + lex.register_name(reg2),
        ),
        ArgFormat::Frri { reg1, reg2, immediate, mem_tag } => Some(
            lex.register_name(reg1) + ", "@ + lex.register_name(reg2) + ", "@ + signed(
                immediate as int,
            ),
        ),
        ArgFormat::Fra { symno, reg, offset } => Some(
            lex.register_name(reg) + (if symno > 0 {
                ", "@
            } else {
                ",  "@
            }) + symbol_name(symno as int) + offset_suffix(offset as int),
        ),
        _ => None,
    }
}

/// The line of assembly text for the statement. A directive is a tab, its
/// keyword with a dot in front, a tab and its arguments; an instruction is
/// a tab, its mnemonic, a tab and its operands. A statement that has no
/// such form is dumped.
pub open spec fn render_text(statement: AsmView, lex: &Lexicon) -> Seq<char> {
    match statement {
        AsmView::Ilabel { symno } => symbol_name(symno as int) + ":"@,
        AsmView::Ialign { length } => "\t.align\t"@ + decimal(length as nat),
        AsmView::Iascii { length, repeat, string } => "\t.ascii\t"@ + quoted(string),
        AsmView::Iasciiz { length, repeat, string } => "\t.asciiz\t"@ + quoted(string),
        AsmView::Ifile { symno, length, repeat, string } => "\t.file\t"@ + signed(symno as int)
            + " "@ + quoted(string),
        AsmView::Ifloat { length, repeat, string } => "\t.float\t"@ + escaped(string) + ":"@
            + decimal(repeat as nat),
        AsmView::Idouble { length, repeat, string } => "\t.double\t"@ + escaped(string) + ":"@
            + decimal(repeat as nat),
        AsmView::Iframe { frameoffset, framereg, pcreg } => "\t.frame\t"@ + lex.register_name(
            framereg,
        ) + ", "@ + signed(frameoffset as int) + ", "@ + lex.register_name(pcreg),
        AsmView::Iverstamp { majornumber, minornumber } => "\t.verstamp\t"@ + signed(
            majornumber as int,
        ) + " "@ + signed(minornumber as int),
        AsmView::Iloc { filenumber, linenumber } => "\t.loc\t"@ + decimal(filenumber as nat)
            + " "@ + decimal(linenumber as nat),
        AsmView::Ient { symno, lexlev } => "\t.ent\t"@ + symbol_name(symno as int) + " "@
            + signed(lexlev as int),
        AsmView::Ilivereg { gpmask, fpmask } => "\t.livereg\t0x"@ + hex_padded(gpmask as nat, 8)
            + ",0x"@ + hex_padded(fpmask as nat, 8),
        AsmView::Iglobal { symno } => "\t.globl\t"@ + symbol_name(symno as int),
        AsmView::Itext => "\t.text\t"@,
        AsmView::Idata { symno } => "\t.data\t"@,
        AsmView::Isdata { symno } => "\t.sdata\t"@,
        AsmView::Irdata { symno } => "\t.rdata\t"@,
        AsmView::Iset { value } => "\t.set\t "@ + lex.set_value_name(value),
        AsmView::Idword { expression, repeat } => "\t.word\t"@ + signed(expression as int)
            + " : "@ + decimal(repeat as nat) + " # dword"@,
        AsmView::Ibyte { symno, expression, repeat } => "\t.byte\t"@ + signed(expression as int)
            + " : "@ + decimal(repeat as nat),
        AsmView::Ihalf { symno, expression, repeat } => "\t.half\t"@ + signed(expression as int)
            + " : "@ + decimal(repeat as nat),
        AsmView::Iword { symno, expression, repeat } => if symno == 0 {
            "\t.word\t"@ + signed(expression as int) + " : "@ + decimal(repeat as nat)
        } else if expression == 0 && (repeat == 0 || repeat == 1) {
            "\t.word\t"@ + symbol_name(symno as int)
        } else {
            dump_text(statement, lex)
        },
        AsmView::Igpword { symno, expression, repeat } => "\t.gpword\t"@ + symbol_name(
            symno as int,
        ),
        AsmView::Imask { regmask, regoffset } => "\t.mask\t0x"@ + hex_padded(regmask as nat, 8)
            + ", "@ + signed(regoffset as int),
        AsmView::Ifmask { regmask, regoffset } => "\t.fmask\t0x"@ + hex_padded(
            regmask as nat,
            8,
        ) + ", "@ + signed(regoffset as int),
        AsmView::Icpload { symno, args } => match args {
            ArgFormat::Frob { reg, .. } => "\t.cpload\t"@ + lex.register_name(reg),
            _ => dump_text(statement, lex),
        },
        AsmView::Icprestore { offset } => "\t.cprestore\t"@ + decimal(offset as nat),
        AsmView::Icpadd { symno, args } => match args {
            ArgFormat::Frob { reg, .. } => "\t.cpadd\t"@ + lex.register_name(reg),
            _ => dump_text(statement, lex),
        },
        AsmView::Ilcomm { symno, length } => "\t.lcomm\t"@ + symbol_name(symno as int) + " "@
            + decimal(length as nat),
        AsmView::Ioption { opt, value } => "\t.option\t"@ + lex.option_name(opt)
            + opt_value_line(value),
        AsmView::Iocode { op, args } => "\t"@ + lex.opcode_name(op) + "\t"@ + (match operands_text(
            args,
            lex,
        ) {
            Some(operands) => operands,
            None => dump_text(statement, lex),
        }),
        _ => dump_text(statement, lex),
    }
}

impl AsciiString {
    /// The literal in double quotes, its bytes escaped.
    pub fn render(&self) -> (out: String)
        ensures
            out@ == quoted(self@),
    {
        let mut out = String::from_str("\"");
        push_escaped(&mut out, &self.s);
        out.append("\"");
        out
    }
}

impl FPString {
    /// The literal as it was written, its bytes escaped.
    pub fn render(&self) -> (out: String)
        ensures
            out@ == escaped(self@),
    {
        let mut out = String::new();
        push_escaped(&mut out, &self.s);
        assert(out@ =~= escaped(self@));
        out
    }
}

impl OptValue {
    /// The argument as it stands behind the name of the option.
    pub fn render(&self) -> (out: String)
        ensures
            out@ == opt_value_line(*self),
    {
        match self {
            OptValue::Empty => String::new(),
            OptValue::Int(v) => signed_string(*v as i64),
        }
    }
}

/// The offset behind a symbol.
fn offset_string(offset: i32) -> (out: String)
    ensures
        out@ == offset_suffix(offset as int),
{
    if offset > 0 {
        let mut out = String::from_str("+");
        append_decimal(&mut out, offset as u64);
        out
    } else if offset < 0 {
        let mut out = String::from_str("-");
        append_decimal(&mut out, (-(offset as i64)) as u64);
        out
    } else {
        String::new()
    }
}

impl ArgFormat {
    /// The operands as assembly text, where they have such a text.
    pub fn render(&self, lex: &Lexicon) -> (out: Option<String>)
        ensures
            match out {
                Some(text) => operands_text(*self, lex) == Some(text@),
                None => operands_text(*self, lex) is None,
            },
    {
        match self {
            ArgFormat::Frob { symno, reg, offset, base, mem_tag: _ } => {
                let mut out = lex.register_string(*reg);
                out.append(", ");
                if *symno == 0 {
                    append_signed(&mut out, *offset as i64);
                } else if *offset == 0 {
                    append_symbol(&mut out, *symno);
                } else {
                    return None;
                }
                out.append("(");
                out.append(lex.register_string(*base).as_str());
                out.append(")");
                Some(out)
            },
            ArgFormat::Fri { reg, immediate, mem_tag: _ } => {
                let mut out = lex.register_string(*reg);
                out.append(", ");
                append_signed(&mut out, *immediate as i64);
                Some(out)
            },
            ArgFormat::Fa { symno, base, immediate, mem_tag: _ } => {
                if base.code != lex.noreg.code {
                    None
                } else if *symno == 0 {
                    Some(signed_string(*immediate as i64))
                } else if *immediate == 0 {
                    let mut out = String::from_str(" ");
                    append_symbol(&mut out, *symno);
                    Some(out)
                } else {
                    None
                }
            },
            ArgFormat::Fr { reg } => Some(lex.register_string(*reg)),
            ArgFormat::Fl { symno } => Some(symbol_string(*symno)),
            ArgFormat::Fril { symno, reg, immediate, mem_tag: _ } => {
                let mut out = lex.register_string(*reg);
                out.append(", ");
                append_signed(&mut out, *immediate as i64);
                out.append(", ");
                append_symbol(&mut out, *symno);
                Some(out)
            },
            ArgFormat::Frr { reg1, reg2 } => {
                let mut out = lex.register_string(*reg1);
                out.append(", ");
                out.append(lex.register_string(*reg2).as_str());
                Some(out)
            },
            ArgFormat::Frri { reg1, reg2, immediate, mem_tag: _ } => {
                let mut out = lex.register_string(*reg1);
                out.append(", ");
                out.append(lex.register_string(*reg2).as_str());
                out.append(", ");
                append_signed(&mut out, *immediate as i64);
                Some(out)
            },
            ArgFormat::Fra { symno, reg, offset } => {
                let mut out = lex.register_string(*reg);
                if *symno > 0 {
                    out.append(", ");
                } else {
                    out.append(",  ");
                }
                append_symbol(&mut out, *symno);
                out.append(offset_string(*offset).as_str());
                Some(out)
            },
            _ => None,
        }
    }
}

/// A directive with one number in base ten behind its keyword.
fn with_decimal(keyword: &str, n: u32) -> (out: String)
    ensures
        out@ == keyword@ + decimal(n as nat),
{
    let mut out = String::from_str(keyword);
    append_decimal(&mut out, n as u64);
    out
}

/// A directive with the stand-in for a symbol's name behind its keyword.
fn with_symbol(keyword: &str, symno: i32) -> (out: String)
    ensures
        out@ == keyword@ + symbol_name(symno as int),
{
    let mut out = String::from_str(keyword);
    append_symbol(&mut out, symno);
    out
}

/// A directive with an expression and a repeat count behind its keyword.
fn with_repeat(keyword: &str, expression: i32, repeat: u32) -> (out: String)
    ensures
        out@ == keyword@ + signed(expression as int) + " : "@ + decimal(repeat as nat),
{
    let mut out = String::from_str(keyword);
    append_signed(&mut out, expression as i64);
    out.append(" : ");
    append_decimal(&mut out, repeat as u64);
    out
}

/// A directive with a register mask and an offset behind its keyword.
fn with_mask(keyword: &str, regmask: u32, regoffset: i32) -> (out: String)
    ensures
        out@ == keyword@ + hex_padded(regmask as nat, 8) + ", "@ + signed(regoffset as int),
{
    let mut out = String::from_str(keyword);
    append_hex(&mut out, regmask as u64, 8);
    out.append(", ");
    append_signed(&mut out, regoffset as i64);
    out
}

/// A directive with a floating-point literal and its repeat count behind
/// its keyword.
fn with_float(keyword: &str, string: &FPString, repeat: u32) -> (out: String)
    ensures
        out@ == keyword@ + escaped(string@) + ":"@ + decimal(repeat as nat),
{
    let mut out = String::from_str(keyword);
    push_escaped(&mut out, &string.s);
    out.append(":");
    append_decimal(&mut out, repeat as u64);
    out
}

impl Asm {
    /// The line of assembly text for the statement.
    pub fn render(&self, lex: &Lexicon) -> (out: String)
        ensures
            out@ == render_text(self@, lex),
    {
        match self {
            Asm::Ilabel { symno } => {
                let mut out = symbol_string(*symno);
                out.append(":");
                out
            },
            Asm::Ialign { length } => with_decimal("\t.align\t", *length),
            Asm::Iascii { length: _, repeat: _, string } => {
                let mut out = String::from_str("\t.ascii\t");
                out.append(string.render().as_str());
                out
            },
            Asm::Iasciiz { length: _, repeat: _, string } => {
                let mut out = String::from_str("\t.asciiz\t");
                out.append(string.render().as_str());
                out
            },
            Asm::Ifile { symno, length: _, repeat: _, string } => {
                let mut out = String::from_str("\t.file\t");
                append_signed(&mut out, *symno as i64);
                out.append(" ");
                out.append(string.render().as_str());
                out
            },
            Asm::Ifloat { length: _, repeat, string } => with_float("\t.float\t", string, *repeat),
            Asm::Idouble { length: _, repeat, string } => with_float(
                "\t.double\t",
                string,
                *repeat,
            ),
            Asm::Iframe { frameoffset, framereg, pcreg } => {
                let mut out = String::from_str("\t.frame\t");
                out.append(lex.register_string(*framereg).as_str());
                out.append(", ");
                append_signed(&mut out, *frameoffset as i64);
                out.append(", ");
                out.append(lex.register_string(*pcreg).as_str());
                out
            },
            Asm::Iverstamp { majornumber, minornumber } => {
                let mut out = String::from_str("\t.verstamp\t");
                append_signed(&mut out, *majornumber as i64);
                out.append(" ");
                append_signed(&mut out, *minornumber as i64);
                out
            },
            Asm::Iloc { filenumber, linenumber } => {
                let mut out = with_decimal("\t.loc\t", *filenumber);
                out.append(" ");
                append_decimal(&mut out, *linenumber as u64);
                out
            },
            Asm::Ient { symno, lexlev } => {
                let mut out = with_symbol("\t.ent\t", *symno);
                out.append(" ");
                append_signed(&mut out, *lexlev as i64);
                out
            },
            Asm::Ilivereg { gpmask, fpmask } => {
                let mut out = String::from_str("\t.livereg\t0x");
                append_hex(&mut out, *gpmask as u64, 8);
                out.append(",0x");
                append_hex(&mut out, *fpmask as u64, 8);
                out
            },
            Asm::Iglobal { symno } => with_symbol("\t.globl\t", *symno),
            Asm::Itext => String::from_str("\t.text\t"),
            Asm::Idata { symno: _ } => String::from_str("\t.data\t"),
            Asm::Isdata { symno: _ } => String::from_str("\t.sdata\t"),
            Asm::Irdata { symno: _ } => String::from_str("\t.rdata\t"),
            Asm::Iset { value } => {
                let mut out = String::from_str("\t.set\t ");
                out.append(lex.set_value_string(*value).as_str());
                out
            },
            Asm::Idword { expression, repeat } => {
                let mut out = with_repeat("\t.word\t", *expression, *repeat);
                out.append(" # dword");
                out
            },
            Asm::Ibyte { symno: _, expression, repeat } => with_repeat(
                "\t.byte\t",
                *expression,
                *repeat,
            ),
            Asm::Ihalf { symno: _, expression, repeat } => with_repeat(
                "\t.half\t",
                *expression,
                *repeat,
            ),
            Asm::Iword { symno, expression, repeat } => {
                if *symno == 0 {
                    with_repeat("\t.word\t", *expression, *repeat)
                } else if *expression == 0 && (*repeat == 0 || *repeat == 1) {
                    with_symbol("\t.word\t", *symno)
                } else {
                    dump(self, lex)
                }
            },
            Asm::Igpword { symno, expression: _, repeat: _ } => with_symbol("\t.gpword\t", *symno),
            Asm::Imask { regmask, regoffset } => with_mask("\t.mask\t0x", *regmask, *regoffset),
            Asm::Ifmask { regmask, regoffset } => with_mask("\t.fmask\t0x", *regmask, *regoffset),
            Asm::Icpload { symno: _, args } => match args {
                ArgFormat::Frob { reg, .. } => {
                    let mut out = String::from_str("\t.cpload\t");
                    out.append(lex.register_string(*reg).as_str());
                    out
                },
                _ => dump(self, lex),
            },
            Asm::Icprestore { offset } => with_decimal("\t.cprestore\t", *offset),
            Asm::Icpadd { symno: _, args } => match args {
                ArgFormat::Frob { reg, .. } => {
                    let mut out = String::from_str("\t.cpadd\t");
                    out.append(lex.register_string(*reg).as_str());
                    out
                },
                _ => dump(self, lex),
            },
            Asm::Ilcomm { symno, length } => {
                let mut out = with_symbol("\t.lcomm\t", *symno);
                out.append(" ");
                append_decimal(&mut out, *length as u64);
                out
            },
            Asm::Ioption { opt, value } => {
                let mut out = String::from_str("\t.option\t");
                out.append(lex.option_string(*opt).as_str());
                out.append(value.render().as_str());
                out
            },
            Asm::Iocode { op, args } => {
                let mut out = String::from_str("\t");
                out.append(lex.opcode_string(*op).as_str());
                out.append("\t");
                match args.render(lex) {
                    Some(operands) => out.append(operands.as_str()),
                    None => out.append(dump(self, lex).as_str()),
                }
                out
            },
            _ => dump(self, lex),
        }
    }
}

} // verus!
