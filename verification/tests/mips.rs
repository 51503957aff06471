use binasm::mips::{
    entry_string, Format, Itype, Lexicon, Opcode, OptArgType, OptType, Register, SetValue,
};

fn small_lexicon() -> Lexicon {
    Lexicon {
        registers: vec![String::from("$0"), String::from("$1")],
        opcodes: vec![String::from("abs"), String::from("add"), String::from("addu")],
        set_values: vec![String::from("undefined")],
        options: vec![String::new(), String::from("O"), String::from("pic")],
        noreg: Register { code: 1 },
    }
}

#[test]
fn kinds_are_numbered_in_their_order() {
    assert_eq!(Itype::from_repr(0), Some(Itype::Ilabel));
    assert_eq!(Itype::from_repr(4), Some(Itype::Ialign));
    assert_eq!(Itype::from_repr(5), Some(Itype::Iascii));
    assert_eq!(Itype::from_repr(22), Some(Itype::Iword));
    assert_eq!(Itype::from_repr(23), Some(Itype::Iocode));
    assert_eq!(Itype::from_repr(28), Some(Itype::Iloc));
    assert_eq!(Itype::from_repr(32), Some(Itype::Iset));
    assert_eq!(Itype::from_repr(43), Some(Itype::Iframe));
    assert_eq!(Itype::from_repr(47), Some(Itype::Ioption));
    assert_eq!(Itype::from_repr(62), Some(Itype::Ialloc));
}

#[test]
fn kind_codes_from_sixty_three_on_stand_for_nothing() {
    assert_eq!(Itype::from_repr(63), None);
    assert_eq!(Itype::from_repr(64), None);
    assert_eq!(Itype::from_repr(usize::MAX), None);
}

#[test]
fn every_kind_code_has_its_own_kind_and_name() {
    let mut names: Vec<&str> = Vec::new();
    for code in 0..63 {
        let kind = Itype::from_repr(code).unwrap();
        let name = kind.name_str();
        assert!(name.starts_with('i'));
        assert!(!names.contains(&name));
        names.push(name);
    }
    assert_eq!(names[0], "ilabel");
    assert_eq!(names[57], "ishift_addr");
    assert_eq!(names[62], "ialloc");
}

#[test]
fn layouts_are_numbered_in_their_order() {
    assert_eq!(Format::from_repr(0), Some(Format::Frob));
    assert_eq!(Format::from_repr(3), Some(Format::Frrr));
    assert_eq!(Format::from_repr(11), Some(Format::Forrr));
    assert_eq!(Format::from_repr(14), Some(Format::Foa));
    assert_eq!(Format::from_repr(15), Some(Format::Frrrr));
    assert_eq!(Format::from_repr(16), None);
    assert_eq!(Format::Frob.name_str(), "frob");
    assert_eq!(Format::Frrrr.name_str(), "frrrr");
}

#[test]
fn options_are_three() {
    assert_eq!(OptType::from_repr(0), Some(OptType::Undefined));
    assert_eq!(OptType::from_repr(1), Some(OptType::Optimize));
    assert_eq!(OptType::from_repr(2), Some(OptType::Pic));
    assert_eq!(OptType::from_repr(3), None);
}

#[test]
fn options_take_a_number_or_nothing() {
    assert_eq!(OptType::Undefined.option_arg_type(), OptArgType::OptNone);
    assert_eq!(OptType::Optimize.option_arg_type(), OptArgType::OptInt);
    assert_eq!(OptType::Pic.option_arg_type(), OptArgType::OptInt);
}

#[test]
fn a_code_is_recognised_when_its_table_has_it() {
    let lex = small_lexicon();
    assert_eq!(lex.register(0), Some(Register { code: 0 }));
    assert_eq!(lex.register(1), Some(Register { code: 1 }));
    assert_eq!(lex.register(2), None);
    assert_eq!(lex.opcode(2), Some(Opcode { code: 2 }));
    assert_eq!(lex.opcode(3), None);
    assert_eq!(lex.set_value(0), Some(SetValue { code: 0 }));
    assert_eq!(lex.set_value(1), None);
    assert_eq!(lex.set_value(u32::MAX), None);
}

#[test]
fn a_code_is_named_by_its_table() {
    let lex = small_lexicon();
    assert_eq!(lex.register_string(Register { code: 1 }), "$1");
    assert_eq!(lex.opcode_string(Opcode { code: 2 }), "addu");
    assert_eq!(lex.set_value_string(SetValue { code: 0 }), "undefined");
    assert_eq!(lex.option_string(OptType::Undefined), "");
    assert_eq!(lex.option_string(OptType::Optimize), "O");
    assert_eq!(lex.option_string(OptType::Pic), "pic");
}

#[test]
fn a_code_without_an_entry_is_named_by_its_number() {
    let lex = small_lexicon();
    assert_eq!(lex.register_string(Register { code: 100 }), "100");
    assert_eq!(lex.opcode_string(Opcode { code: 3 }), "3");
    assert_eq!(entry_string(&Vec::new(), 0), "0");
    let none = Lexicon {
        registers: Vec::new(),
        opcodes: Vec::new(),
        set_values: Vec::new(),
        options: Vec::new(),
        noreg: Register { code: 0 },
    };
    assert_eq!(none.option_string(OptType::Pic), "2");
}
