//! The structural dump: the text for a statement that has no assembly form
//! of its own.

use crate::mips::Lexicon;
use crate::statement::{ArgFormat, Asm, AsmView, OptValue};
use crate::text::{append_decimal, decimal, decimal_string, signed, signed_string};
use vstd::prelude::*;
use vstd::string::*;

verus! {

/// A field of a dump: its name, a colon and its value.
pub open spec fn field_text(name: Seq<char>, value: Seq<char>) -> Seq<char> {
    name + ": "@ + value
}

/// The fields of a dump, with a comma between one and the next.
pub open spec fn joined(fields: Seq<Seq<char>>) -> Seq<char>
    decreases fields.len(),
{
    if fields.len() == 0 {
        Seq::empty()
    } else if fields.len() == 1 {
        fields[0]
    } else {
        joined(fields.drop_last()) + ", "@ + fields.last()
    }
}

/// The dump of a value of kind `kind` with the given fields: the kind
/// alone where there are none, else the kind and the fields in braces.
pub open spec fn braced_text(kind: Seq<char>, fields: Seq<Seq<char>>) -> Seq<char> {
    if fields.len() == 0 {
        kind
    } else {
        kind + " { "@ + joined(fields) + " }"@
    }
}

/// The texts that the strings hold.
pub open spec fn texts(strings: Seq<String>) -> Seq<Seq<char>> {
    strings.map_values(|s: String| s@)
}

/// Adds the field `name` with `value` to the fields of a dump.
pub fn add_field(fields: &mut Vec<String>, name: &str, value: String)
    ensures
        texts(final(fields)@) == texts(old(fields)@).push(field_text(name@, value@)),
{
    let mut field = String::from_str(name);
    field.append(": ");
    field.append(value.as_str());
    fields.push(field);
    assert(texts(fields@) =~= texts(old(fields)@).push(field_text(name@, value@)));
}

/// The dump of a value of kind `kind` with the given fields.
pub fn braced(kind: &str, fields: &Vec<String>) -> (out: String)
    ensures
        out@ == braced_text(kind@, texts(fields@)),
{
    let mut out = String::from_str(kind);
    if fields.len() == 0 {
        return out;
    }
    let ghost all = texts(fields@);
    let mut body = fields[0].clone();
    let mut i: usize = 1;
    assert(all.take(1) =~= seq![all[0]]);
    while i < fields.len()
        invariant
            1 <= i <= fields.len(),
            all == texts(fields@),
            body@ == joined(all.take(i as int)),
        decreases fields.len() - i,
    {
        proof {
            assert(all.take(i + 1).drop_last() =~= all.take(i as int));
            assert(all.take(i + 1).last() == fields@[i as int]@);
        }
        body.append(", ");
        body.append(fields[i].as_str());
        i += 1;
    }
    assert(all.take(i as int) =~= all);
    out.append(" { ");
    out.append(body.as_str());
    out.append(" }");
    out
}

/// The numbers of the bytes, with a comma between one and the next.
pub open spec fn byte_items(bytes: Seq<u8>) -> Seq<char>
    decreases bytes.len(),
{
    if bytes.len() == 0 {
        Seq::empty()
    } else if bytes.len() == 1 {
        decimal(bytes[0] as nat)
    } else {
        byte_items(bytes.drop_last()) + ", "@ + decimal(bytes.last() as nat)
    }
}

/// The dump of a literal of the type named `kind`: its bytes as a list of
/// numbers in the one field `s`.
pub open spec fn literal_text(kind: Seq<char>, bytes: Seq<u8>) -> Seq<char> {
    braced_text(kind, Seq::empty().push(field_text("s"@, "["@ + byte_items(bytes) + "]"@)))
}

/// The dump of a literal of the type named `kind`.
pub fn dump_literal(kind: &str, bytes: &Vec<u8>) -> (out: String)
    ensures
        out@ == literal_text(kind@, bytes@),
{
    let mut list = String::from_str("[");
    let mut i: usize = 0;
    assert(bytes@.take(0) =~= Seq::empty());
    assert(list@ =~= "["@ + byte_items(bytes@.take(0)));
    while i < bytes.len()
        invariant
            i <= bytes.len(),
            list@ == "["@ + byte_items(bytes@.take(i as int)),
        decreases bytes.len() - i,
    {
        proof {
            assert(bytes@.take(i + 1).drop_last() =~= bytes@.take(i as int));
            assert(bytes@.take(i + 1).last() == bytes@[i as int]);
        }
        let ghost before = list@;
        if i > 0 {
            list.append(", ");
        }
        append_decimal(&mut list, bytes[i] as u64);
        assert(list@ =~= "["@ + byte_items(bytes@.take(i + 1))) by {
            if i == 0 {
                assert(bytes@.take(1)[0] == bytes@[0]);
                assert(before =~= "["@);
            } else {
                assert(list@ =~= "["@ + (byte_items(bytes@.take(i as int)) + ", "@ + decimal(
                    bytes@[i as int] as nat,
                )));
            }
        }
        i += 1;
    }
    assert(bytes@.take(i as int) =~= bytes@);
    list.append("]");
    let mut fields: Vec<String> = Vec::new();
    assert(texts(fields@) =~= Seq::empty());
    add_field(&mut fields, "s", list);
    braced(kind, &fields)
}

/// The dump of the argument of an option.
pub open spec fn opt_value_text(value: OptValue) -> Seq<char> {
    match value {
        OptValue::Empty => "None"@,
        OptValue::Int(v) => "Int("@ + signed(v as int) + ")"@,
    }
}

/// The dump of the argument of an option.
pub fn dump_opt_value(value: OptValue) -> (out: String)
    ensures
        out@ == opt_value_text(value),
{
    match value {
        OptValue::Empty => String::from_str("None"),
        OptValue::Int(v) => {
            let mut out = String::from_str("Int(");
            out.append(signed_string(v as i64).as_str());
            out.append(")");
            out
        },
    }
}

/// The fields of the operands, each with its name and value.
pub open spec fn args_fields(args: ArgFormat, lex: &Lexicon) -> Seq<Seq<char>> {
    match args {
        ArgFormat::Frob { symno, reg, offset, base, mem_tag } => Seq::empty()
            .push(field_text("symno"@, signed(symno as int)))
            .push(field_text("reg"@, lex.register_name(reg)))
            .push(field_text("offset"@, signed(offset as int)))
            .push(field_text("base"@, lex.register_name(base)))
            .push(field_text("mem_tag"@, decimal(mem_tag as nat))),
        ArgFormat::Fra { symno, reg, offset } => Seq::empty()
            .push(field_text("symno"@, signed(symno as int)))
            .push(field_text("reg"@, lex.register_name(reg)))
            .push(field_text("offset"@, signed(offset as int))),
        ArgFormat::Fri { reg, immediate, mem_tag } => Seq::empty()
            .push(field_text("reg"@, lex.register_name(reg)))
            .push(field_text("immediate"@, signed(immediate as int)))
            .push(field_text("mem_tag"@, decimal(mem_tag as nat))),
        ArgFormat::Frrr { reg1, reg2, reg3 } => Seq::empty()
            .push(field_text("reg1"@, lex.register_name(reg1)))
            .push(field_text("reg2"@, lex.register_name(reg2)))
            .push(field_text("reg3"@, lex.register_name(reg3))),
        ArgFormat::Frri { reg1, reg2, immediate, mem_tag } => Seq::empty()
            .push(field_text("reg1"@, lex.register_name(reg1)))
            .push(field_text("reg2"@, lex.register_name(reg2)))
            .push(field_text("immediate"@, signed(immediate as int)))
            .push(field_text("mem_tag"@, decimal(mem_tag as nat))),
        ArgFormat::Frr { reg1, reg2 } => Seq::empty()
            .push(field_text("reg1"@, lex.register_name(reg1)))
            .push(field_text("reg2"@, lex.register_name(reg2))),
        ArgFormat::Fa { symno, base, immediate, mem_tag } => Seq::empty()
            .push(field_text("symno"@, signed(symno as int)))
            .push(field_text("base"@, lex.register_name(base)))
            .push(field_text("immediate"@, signed(immediate as int)))
            .push(field_text("mem_tag"@, decimal(mem_tag as nat))),
        ArgFormat::Fr { reg } => Seq::empty()
            .push(field_text("reg"@, lex.register_name(reg))),
        ArgFormat::Frrl { symno, reg1, reg2 } => Seq::empty()
            .push(field_text("symno"@, signed(symno as int)))
            .push(field_text("reg1"@, lex.register_name(reg1)))
            .push(field_text("reg2"@, lex.register_name(reg2))),
        ArgFormat::Frl { symno, reg } => Seq::empty()
            .push(field_text("symno"@, signed(symno as int)))
            .push(field_text("reg"@, lex.register_name(reg))),
        ArgFormat::Fl { symno } => Seq::empty()
            .push(field_text("symno"@, signed(symno as int))),
        ArgFormat::Fril { symno, reg, immediate, mem_tag } => Seq::empty()
            .push(field_text("symno"@, signed(symno as int)))
            .push(field_text("reg"@, lex.register_name(reg)))
            .push(field_text("immediate"@, signed(immediate as int)))
            .push(field_text("mem_tag"@, decimal(mem_tag as nat))),
        ArgFormat::Fi { immediate } => Seq::empty()
            .push(field_text("immediate"@, signed(immediate as int))),
        ArgFormat::Frrrr { reg1, reg2, reg3, reg4 } => Seq::empty()
            .push(field_text("reg1"@, lex.register_name(reg1)))
            .push(field_text("reg2"@, lex.register_name(reg2)))
            .push(field_text("reg3"@, lex.register_name(reg3)))
            .push(field_text("reg4"@, lex.register_name(reg4))),
        _ => Seq::empty(),
    }
}

/// The dump of the operands: the name of their layout and their fields.
pub open spec fn args_text(args: ArgFormat, lex: &Lexicon) -> Seq<char> {
    braced_text(args.format().name(), args_fields(args, lex))
}

/// The dump of the operands.
pub fn dump_args(args: &ArgFormat, lex: &Lexicon) -> (out: String)
    ensures
        out@ == args_text(*args, lex),
{
    let mut fields: Vec<String> = Vec::new();
    assert(texts(fields@) =~= Seq::empty());
    match args {
        ArgFormat::Frob { symno, reg, offset, base, mem_tag } => {
            add_field(&mut fields, "symno", signed_string(*symno as i64));
            add_field(&mut fields, "reg", lex.register_string(*reg));
            add_field(&mut fields, "offset", signed_string(*offset as i64));
            add_field(&mut fields, "base", lex.register_string(*base));
            add_field(&mut fields, "mem_tag", decimal_string(*mem_tag as u64));
        },
        ArgFormat::Fra { symno, reg, offset } => {
            add_field(&mut fields, "symno", signed_string(*symno as i64));
            add_field(&mut fields, "reg", lex.register_string(*reg));
            add_field(&mut fields, "offset", signed_string(*offset as i64));
        },
        ArgFormat::Fri { reg, immediate, mem_tag } => {
            add_field(&mut fields, "reg", lex.register_string(*reg));
            add_field(&mut fields, "immediate", signed_string(*immediate as i64));
            add_field(&mut fields, "mem_tag", decimal_string(*mem_tag as u64));
        },
        ArgFormat::Frrr { reg1, reg2, reg3 } => {
            add_field(&mut fields, "reg1", lex.register_string(*reg1));
            add_field(&mut fields, "reg2", lex.register_string(*reg2));
            add_field(&mut fields, "reg3", lex.register_string(*reg3));
        },
        ArgFormat::Frri { reg1, reg2, immediate, mem_tag } => {
            add_field(&mut fields, "reg1", lex.register_string(*reg1));
            add_field(&mut fields, "reg2", lex.register_string(*reg2));
            add_field(&mut fields, "immediate", signed_string(*immediate as i64));
            add_field(&mut fields, "mem_tag", decimal_string(*mem_tag as u64));
        },
        ArgFormat::Frr { reg1, reg2 } => {
            add_field(&mut fields, "reg1", lex.register_string(*reg1));
            add_field(&mut fields, "reg2", lex.register_string(*reg2));
        },
        ArgFormat::Fa { symno, base, immediate, mem_tag } => {
            add_field(&mut fields, "symno", signed_string(*symno as i64));
            add_field(&mut fields, "base", lex.register_string(*base));
            add_field(&mut fields, "immediate", signed_string(*immediate as i64));
            add_field(&mut fields, "mem_tag", decimal_string(*mem_tag as u64));
        },
        ArgFormat::Fr { reg } => {
            add_field(&mut fields, "reg", lex.register_string(*reg));
        },
        ArgFormat::Frrl { symno, reg1, reg2 } => {
            add_field(&mut fields, "symno", signed_string(*symno as i64));
            add_field(&mut fields, "reg1", lex.register_string(*reg1));
            add_field(&mut fields, "reg2", lex.register_string(*reg2));
        },
        ArgFormat::Frl { symno, reg } => {
            add_field(&mut fields, "symno", signed_string(*symno as i64));
            add_field(&mut fields, "reg", lex.register_string(*reg));
        },
        ArgFormat::Fl { symno } => {
            add_field(&mut fields, "symno", signed_string(*symno as i64));
        },
        ArgFormat::Fril { symno, reg, immediate, mem_tag } => {
            add_field(&mut fields, "symno", signed_string(*symno as i64));
            add_field(&mut fields, "reg", lex.register_string(*reg));
            add_field(&mut fields, "immediate", signed_string(*immediate as i64));
            add_field(&mut fields, "mem_tag", decimal_string(*mem_tag as u64));
        },
        ArgFormat::Fi { immediate } => {
            add_field(&mut fields, "immediate", signed_string(*immediate as i64));
        },
        ArgFormat::Frrrr { reg1, reg2, reg3, reg4 } => {
            add_field(&mut fields, "reg1", lex.register_string(*reg1));
            add_field(&mut fields, "reg2", lex.register_string(*reg2));
            add_field(&mut fields, "reg3", lex.register_string(*reg3));
            add_field(&mut fields, "reg4", lex.register_string(*reg4));
        },
        _ => {},
    }
    braced(args.layout().name_str(), &fields)
}

/// The fields of the statement, each with its name and value.
pub open spec fn statement_fields(statement: AsmView, lex: &Lexicon) -> Seq<Seq<char>> {
    match statement {
        AsmView::Ilabel { symno } => Seq::empty()
            .push(field_text("symno"@, signed(symno as int))),
        AsmView::Iglobal { symno } => Seq::empty()
            .push(field_text("symno"@, signed(symno as int))),
        AsmView::Icpload { symno, args } => Seq::empty()
            .push(field_text("symno"@, signed(symno as int)))
            .push(field_text("args"@, args_text(args, lex))),
        AsmView::Ialign { length } => Seq::empty()
            .push(field_text("length"@, decimal(length as nat))),
        AsmView::Iascii { length, repeat, string } => Seq::empty()
            .push(field_text("length"@, decimal(length as nat)))
            .push(field_text("repeat"@, decimal(repeat as nat)))
            .push(field_text("string"@, literal_text("AsciiString"@, string))),
        AsmView::Iasciiz { length, repeat, string } => Seq::empty()
            .push(field_text("length"@, decimal(length as nat)))
            .push(field_text("repeat"@, decimal(repeat as nat)))
            .push(field_text("string"@, literal_text("AsciiString"@, string))),
        AsmView::Ibyte { symno, expression, repeat } => Seq::empty()
            .push(field_text("symno"@, signed(symno as int)))
            .push(field_text("expression"@, signed(expression as int)))
            .push(field_text("repeat"@, decimal(repeat as nat))),
        AsmView::Icomm { symno, length } => Seq::empty()
            .push(field_text("symno"@, signed(symno as int)))
            .push(field_text("length"@, decimal(length as nat))),
        AsmView::Ilcomm { symno, length } => Seq::empty()
            .push(field_text("symno"@, signed(symno as int)))
            .push(field_text("length"@, decimal(length as nat))),
        AsmView::Idata { symno } => Seq::empty()
            .push(field_text("symno"@, signed(symno as int))),
        AsmView::Idouble { length, repeat, string } => Seq::empty()
            .push(field_text("length"@, decimal(length as nat)))
            .push(field_text("repeat"@, decimal(repeat as nat)))
            .push(field_text("string"@, literal_text("FPString"@, string))),
        AsmView::Ifile { symno, length, repeat, string } => Seq::empty()
            .push(field_text("symno"@, signed(symno as int)))
            .push(field_text("length"@, decimal(length as nat)))
            .push(field_text("repeat"@, decimal(repeat as nat)))
            .push(field_text("string"@, literal_text("AsciiString"@, string))),
        AsmView::Ifloat { length, repeat, string } => Seq::empty()
            .push(field_text("length"@, decimal(length as nat)))
            .push(field_text("repeat"@, decimal(repeat as nat)))
            .push(field_text("string"@, literal_text("FPString"@, string))),
        AsmView::Ihalf { symno, expression, repeat } => Seq::empty()
            .push(field_text("symno"@, signed(symno as int)))
            .push(field_text("expression"@, signed(expression as int)))
            .push(field_text("repeat"@, decimal(repeat as nat))),
        AsmView::Icprestore { offset } => Seq::empty()
            .push(field_text("offset"@, decimal(offset as nat))),
        AsmView::Igpword { symno, expression, repeat } => Seq::empty()
            .push(field_text("symno"@, signed(symno as int)))
            .push(field_text("expression"@, signed(expression as int)))
            .push(field_text("repeat"@, decimal(repeat as nat))),
        AsmView::Icpadd { symno, args } => Seq::empty()
            .push(field_text("symno"@, signed(symno as int)))
            .push(field_text("args"@, args_text(args, lex))),
        AsmView::Iweakext { symno, lexlev } => Seq::empty()
            .push(field_text("symno"@, signed(symno as int)))
            .push(field_text("lexlev"@, signed(lexlev as int))),
        AsmView::Iword { symno, expression, repeat } => Seq::empty()
            .push(field_text("symno"@, signed(symno as int)))
            .push(field_text("expression"@, signed(expression as int)))
            .push(field_text("repeat"@, decimal(repeat as nat))),
        AsmView::Iocode { op, args } => Seq::empty()
            .push(field_text("op"@, lex.opcode_name(op)))
            .push(field_text("args"@, args_text(args, lex))),
        AsmView::Iend { symno } => Seq::empty()
            .push(field_text("symno"@, signed(symno as int))),
        AsmView::Isdata { symno } => Seq::empty()
            .push(field_text("symno"@, signed(symno as int))),
        AsmView::Irdata { symno } => Seq::empty()
            .push(field_text("symno"@, signed(symno as int))),
        AsmView::Ient { symno, lexlev } => Seq::empty()
            .push(field_text("symno"@, signed(symno as int)))
            .push(field_text("lexlev"@, signed(lexlev as int))),
        AsmView::Iloc { filenumber, linenumber } => Seq::empty()
            .push(field_text("filenumber"@, decimal(filenumber as nat)))
            .push(field_text("linenumber"@, decimal(linenumber as nat))),
        AsmView::Ibgnb { symno } => Seq::empty()
            .push(field_text("symno"@, signed(symno as int))),
        AsmView::Iendb { symno } => Seq::empty()
            .push(field_text("symno"@, signed(symno as int))),
        AsmView::Iasm0 { symno } => Seq::empty()
            .push(field_text("symno"@, signed(symno as int))),
        AsmView::Iset { value } => Seq::empty()
            .push(field_text("value"@, lex.set_value_name(value))),
        AsmView::Iendrep { symno } => Seq::empty()
            .push(field_text("symno"@, signed(symno as int))),
        AsmView::Ilab { symno } => Seq::empty()
            .push(field_text("symno"@, signed(symno as int))),
        AsmView::Imask { regmask, regoffset } => Seq::empty()
            .push(field_text("regmask"@, decimal(regmask as nat)))
            .push(field_text("regoffset"@, signed(regoffset as int))),
        AsmView::Ifmask { regmask, regoffset } => Seq::empty()
            .push(field_text("regmask"@, decimal(regmask as nat)))
            .push(field_text("regoffset"@, signed(regoffset as int))),
        AsmView::Iverstamp { majornumber, minornumber } => Seq::empty()
            .push(field_text("majornumber"@, signed(majornumber as int)))
            .push(field_text("minornumber"@, signed(minornumber as int))),
        AsmView::Iframe { frameoffset, framereg, pcreg } => Seq::empty()
            .push(field_text("frameoffset"@, signed(frameoffset as int)))
            .push(field_text("framereg"@, lex.register_name(framereg)))
            .push(field_text("pcreg"@, lex.register_name(pcreg))),
        AsmView::Iaent { symno, lexlev } => Seq::empty()
            .push(field_text("symno"@, signed(symno as int)))
            .push(field_text("lexlev"@, signed(lexlev as int))),
        AsmView::Ioption { opt, value } => Seq::empty()
            .push(field_text("opt"@, lex.option_name(opt)))
            .push(field_text("value"@, opt_value_text(value))),
        AsmView::Ilivereg { gpmask, fpmask } => Seq::empty()
            .push(field_text("gpmask"@, decimal(gpmask as nat)))
            .push(field_text("fpmask"@, decimal(fpmask as nat))),
        AsmView::Irestext { symno } => Seq::empty()
            .push(field_text("symno"@, signed(symno as int))),
        AsmView::Idword { expression, repeat } => Seq::empty()
            .push(field_text("expression"@, signed(expression as int)))
            .push(field_text("repeat"@, decimal(repeat as nat))),
        AsmView::Iprologue { symno, lexlev } => Seq::empty()
            .push(field_text("symno"@, signed(symno as int)))
            .push(field_text("lexlev"@, signed(lexlev as int))),
        AsmView::Ialloc { symno } => Seq::empty()
            .push(field_text("symno"@, signed(symno as int))),
        _ => Seq::empty(),
    }
}

/// The dump of the statement: the name of its kind and its fields.
pub open spec fn dump_text(statement: AsmView, lex: &Lexicon) -> Seq<char> {
    braced_text(statement.itype().name(), statement_fields(statement, lex))
}

/// The dump of the statement.
pub fn dump(statement: &Asm, lex: &Lexicon) -> (out: String)
    ensures
        out@ == dump_text(statement@, lex),
{
    let mut fields: Vec<String> = Vec::new();
    assert(texts(fields@) =~= Seq::empty());
    match statement {
        Asm::Ilabel { symno } => {
            add_field(&mut fields, "symno", signed_string(*symno as i64));
        },
        Asm::Iglobal { symno } => {
            add_field(&mut fields, "symno", signed_string(*symno as i64));
        },
        Asm::Icpload { symno, args } => {
            add_field(&mut fields, "symno", signed_string(*symno as i64));
            add_field(&mut fields, "args", dump_args(args, lex));
        },
        Asm::Ialign { length } => {
            add_field(&mut fields, "length", decimal_string(*length as u64));
        },
        Asm::Iascii { length, repeat, string } => {
            add_field(&mut fields, "length", decimal_string(*length as u64));
            add_field(&mut fields, "repeat", decimal_string(*repeat as u64));
            add_field(&mut fields, "string", dump_literal("AsciiString", &string.s));
        },
        Asm::Iasciiz { length, repeat, string } => {
            add_field(&mut fields, "length", decimal_string(*length as u64));
            add_field(&mut fields, "repeat", decimal_string(*repeat as u64));
            add_field(&mut fields, "string", dump_literal("AsciiString", &string.s));
        },
        Asm::Ibyte { symno, expression, repeat } => {
            add_field(&mut fields, "symno", signed_string(*symno as i64));
            add_field(&mut fields, "expression", signed_string(*expression as i64));
            add_field(&mut fields, "repeat", decimal_string(*repeat as u64));
        },
        Asm::Icomm { symno, length } => {
            add_field(&mut fields, "symno", signed_string(*symno as i64));
            add_field(&mut fields, "length", decimal_string(*length as u64));
        },
        Asm::Ilcomm { symno, length } => {
            add_field(&mut fields, "symno", signed_string(*symno as i64));
            add_field(&mut fields, "length", decimal_string(*length as u64));
        },
        Asm::Idata { symno } => {
            add_field(&mut fields, "symno", signed_string(*symno as i64));
        },
        Asm::Idouble { length, repeat, string } => {
            add_field(&mut fields, "length", decimal_string(*length as u64));
            add_field(&mut fields, "repeat", decimal_string(*repeat as u64));
            add_field(&mut fields, "string", dump_literal("FPString", &string.s));
        },
        Asm::Ifile { symno, length, repeat, string } => {
            add_field(&mut fields, "symno", signed_string(*symno as i64));
            add_field(&mut fields, "length", decimal_string(*length as u64));
            add_field(&mut fields, "repeat", decimal_string(*repeat as u64));
            add_field(&mut fields, "string", dump_literal("AsciiString", &string.s));
        },
        Asm::Ifloat { length, repeat, string } => {
            add_field(&mut fields, "length", decimal_string(*length as u64));
            add_field(&mut fields, "repeat", decimal_string(*repeat as u64));
            add_field(&mut fields, "string", dump_literal("FPString", &string.s));
        },
        Asm::Ihalf { symno, expression, repeat } => {
            add_field(&mut fields, "symno", signed_string(*symno as i64));
            add_field(&mut fields, "expression", signed_string(*expression as i64));
            add_field(&mut fields, "repeat", decimal_string(*repeat as u64));
        },
        Asm::Icprestore { offset } => {
            add_field(&mut fields, "offset", decimal_string(*offset as u64));
        },
        Asm::Igpword { symno, expression, repeat } => {
            add_field(&mut fields, "symno", signed_string(*symno as i64));
            add_field(&mut fields, "expression", signed_string(*expression as i64));
            add_field(&mut fields, "repeat", decimal_string(*repeat as u64));
        },
        Asm::Icpadd { symno, args } => {
            add_field(&mut fields, "symno", signed_string(*symno as i64));
            add_field(&mut fields, "args", dump_args(args, lex));
        },
        Asm::Iweakext { symno, lexlev } => {
            add_field(&mut fields, "symno", signed_string(*symno as i64));
            add_field(&mut fields, "lexlev", signed_string(*lexlev as i64));
        },
        Asm::Iword { symno, expression, repeat } => {
            add_field(&mut fields, "symno", signed_string(*symno as i64));
            add_field(&mut fields, "expression", signed_string(*expression as i64));
            add_field(&mut fields, "repeat", decimal_string(*repeat as u64));
        },
        Asm::Iocode { op, args } => {
            add_field(&mut fields, "op", lex.opcode_string(*op));
            add_field(&mut fields, "args", dump_args(args, lex));
        },
        Asm::Iend { symno } => {
            add_field(&mut fields, "symno", signed_string(*symno as i64));
        },
        Asm::Isdata { symno } => {
            add_field(&mut fields, "symno", signed_string(*symno as i64));
        },
        Asm::Irdata { symno } => {
            add_field(&mut fields, "symno", signed_string(*symno as i64));
        },
        Asm::Ient { symno, lexlev } => {
            add_field(&mut fields, "symno", signed_string(*symno as i64));
            add_field(&mut fields, "lexlev", signed_string(*lexlev as i64));
        },
        Asm::Iloc { filenumber, linenumber } => {
            add_field(&mut fields, "filenumber", decimal_string(*filenumber as u64));
            add_field(&mut fields, "linenumber", decimal_string(*linenumber as u64));
        },
        Asm::Ibgnb { symno } => {
            add_field(&mut fields, "symno", signed_string(*symno as i64));
        },
        Asm::Iendb { symno } => {
            add_field(&mut fields, "symno", signed_string(*symno as i64));
        },
        Asm::Iasm0 { symno } => {
            add_field(&mut fields, "symno", signed_string(*symno as i64));
        },
        Asm::Iset { value } => {
            add_field(&mut fields, "value", lex.set_value_string(*value));
        },
        Asm::Iendrep { symno } => {
            add_field(&mut fields, "symno", signed_string(*symno as i64));
        },
        Asm::Ilab { symno } => {
            add_field(&mut fields, "symno", signed_string(*symno as i64));
        },
        Asm::Imask { regmask, regoffset } => {
            add_field(&mut fields, "regmask", decimal_string(*regmask as u64));
            add_field(&mut fields, "regoffset", signed_string(*regoffset as i64));
        },
        Asm::Ifmask { regmask, regoffset } => {
            add_field(&mut fields, "regmask", decimal_string(*regmask as u64));
            add_field(&mut fields, "regoffset", signed_string(*regoffset as i64));
        },
        Asm::Iverstamp { majornumber, minornumber } => {
            add_field(&mut fields, "majornumber", signed_string(*majornumber as i64));
            add_field(&mut fields, "minornumber", signed_string(*minornumber as i64));
        },
        Asm::Iframe { frameoffset, framereg, pcreg } => {
            add_field(&mut fields, "frameoffset", signed_string(*frameoffset as i64));
            add_field(&mut fields, "framereg", lex.register_string(*framereg));
            add_field(&mut fields, "pcreg", lex.register_string(*pcreg));
        },
        Asm::Iaent { symno, lexlev } => {
            add_field(&mut fields, "symno", signed_string(*symno as i64));
            add_field(&mut fields, "lexlev", signed_string(*lexlev as i64));
        },
        Asm::Ioption { opt, value } => {
            add_field(&mut fields, "opt", lex.option_string(*opt));
            add_field(&mut fields, "value", dump_opt_value(*value));
        },
        Asm::Ilivereg { gpmask, fpmask } => {
            add_field(&mut fields, "gpmask", decimal_string(*gpmask as u64));
            add_field(&mut fields, "fpmask", decimal_string(*fpmask as u64));
        },
        Asm::Irestext { symno } => {
            add_field(&mut fields, "symno", signed_string(*symno as i64));
        },
        Asm::Idword { expression, repeat } => {
            add_field(&mut fields, "expression", signed_string(*expression as i64));
            add_field(&mut fields, "repeat", decimal_string(*repeat as u64));
        },
        Asm::Iprologue { symno, lexlev } => {
            add_field(&mut fields, "symno", signed_string(*symno as i64));
            add_field(&mut fields, "lexlev", signed_string(*lexlev as i64));
        },
        Asm::Ialloc { symno } => {
            add_field(&mut fields, "symno", signed_string(*symno as i64));
        },
        _ => {},
    }
    braced(statement.itype().name_str(), &fields)
}

} // verus!
