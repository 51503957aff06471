//! The closed sets of codes that a record draws on: statement kinds, operand
//! layouts and option kinds, which the decoder tells apart, and registers,
//! opcodes and `.set` values, which it only recognises and names.

use crate::text::{decimal, decimal_string};
use vstd::prelude::*;
use vstd::string::*;

verus! {

/// The kind of statement that a record encodes.
#[derive(Clone, Copy, Debug, PartialEq, Eq, Structural)]
pub enum Itype {
    Ilabel,
    Isym,
    Iglobal,
    Icpload,
    Ialign,
    Iascii,
    Iasciiz,
    Ibyte,
    Icomm,
    Ilcomm,
    Idata,
    Idouble,
    Ifile,
    Ifloat,
    Ihalf,
    Icprestore,
    Igpword,
    Icpadd,
    Iweakext,
    Iloopno,
    Ispace,
    Itext,
    Iword,
    Iocode,
    Iend,
    Isdata,
    Irdata,
    Ient,
    Iloc,
    Ibgnb,
    Iendb,
    Iasm0,
    Iset,
    Icpalias,
    Irep,
    Iendrep,
    Ilab,
    Ivreg,
    Imask,
    Ifmask,
    Ierr,
    Iglobabs,
    Iverstamp,
    Iframe,
    Iextended,
    Iextern,
    Iaent,
    Ioption,
    Inoalias,
    Ialias,
    Imtag,
    Imalias,
    Istruct,
    Ilivereg,
    Igjaldef,
    Igjallive,
    Igjrlive,
    IshiftAddr,
    Irestext,
    Idword,
    Iprologue,
    Iedata,
    Ialloc,
}

impl Itype {
    /// The code that stands for this kind in a record.
    pub open spec fn repr(self) -> nat {
        match self {
            Itype::Ilabel => 0,
            Itype::Isym => 1,
            Itype::Iglobal => 2,
            Itype::Icpload => 3,
            Itype::Ialign => 4,
            Itype::Iascii => 5,
            Itype::Iasciiz => 6,
            Itype::Ibyte => 7,
            Itype::Icomm => 8,
            Itype::Ilcomm => 9,
            Itype::Idata => 10,
            Itype::Idouble => 11,
            Itype::Ifile => 12,
            Itype::Ifloat => 13,
            Itype::Ihalf => 14,
            Itype::Icprestore => 15,
            Itype::Igpword => 16,
            Itype::Icpadd => 17,
            Itype::Iweakext => 18,
            Itype::Iloopno => 19,
            Itype::Ispace => 20,
            Itype::Itext => 21,
            Itype::Iword => 22,
            Itype::Iocode => 23,
            Itype::Iend => 24,
            Itype::Isdata => 25,
            Itype::Irdata => 26,
            Itype::Ient => 27,
            Itype::Iloc => 28,
            Itype::Ibgnb => 29,
            Itype::Iendb => 30,
            Itype::Iasm0 => 31,
            Itype::Iset => 32,
            Itype::Icpalias => 33,
            Itype::Irep => 34,
            Itype::Iendrep => 35,
            Itype::Ilab => 36,
            Itype::Ivreg => 37,
            Itype::Imask => 38,
            Itype::Ifmask => 39,
            Itype::Ierr => 40,
            Itype::Iglobabs => 41,
            Itype::Iverstamp => 42,
            Itype::Iframe => 43,
            Itype::Iextended => 44,
            Itype::Iextern => 45,
            Itype::Iaent => 46,
            Itype::Ioption => 47,
            Itype::Inoalias => 48,
            Itype::Ialias => 49,
            Itype::Imtag => 50,
            Itype::Imalias => 51,
            Itype::Istruct => 52,
            Itype::Ilivereg => 53,
            Itype::Igjaldef => 54,
            Itype::Igjallive => 55,
            Itype::Igjrlive => 56,
            Itype::IshiftAddr => 57,
            Itype::Irestext => 58,
            Itype::Idword => 59,
            Itype::Iprologue => 60,
            Itype::Iedata => 61,
            Itype::Ialloc => 62,
        }
    }

    /// The kind that `code` stands for, if there is one.
    pub open spec fn lookup(code: nat) -> Option<Itype> {
        if code == 0 {
            Some(Itype::Ilabel)
        } else if code == 1 {
            Some(Itype::Isym)
        } else if code == 2 {
            Some(Itype::Iglobal)
        } else if code == 3 {
            Some(Itype::Icpload)
        } else if code == 4 {
            Some(Itype::Ialign)
        } else if code == 5 {
            Some(Itype::Iascii)
        } else if code == 6 {
            Some(Itype::Iasciiz)
        } else if code == 7 {
            Some(Itype::Ibyte)
        } else if code == 8 {
            Some(Itype::Icomm)
        } else if code == 9 {
            Some(Itype::Ilcomm)
        } else if code == 10 {
            Some(Itype::Idata)
        } else if code == 11 {
            Some(Itype::Idouble)
        } else if code == 12 {
            Some(Itype::Ifile)
        } else if code == 13 {
            Some(Itype::Ifloat)
        } else if code == 14 {
            Some(Itype::Ihalf)
        } else if code == 15 {
            Some(Itype::Icprestore)
        } else if code == 16 {
            Some(Itype::Igpword)
        } else if code == 17 {
            Some(Itype::Icpadd)
        } else if code == 18 {
            Some(Itype::Iweakext)
        } else if code == 19 {
            Some(Itype::Iloopno)
        } else if code == 20 {
            Some(Itype::Ispace)
        } else if code == 21 {
            Some(Itype::Itext)
        } else if code == 22 {
            Some(Itype::Iword)
        } else if code == 23 {
            Some(Itype::Iocode)
        } else if code == 24 {
            Some(Itype::Iend)
        } else if code == 25 {
            Some(Itype::Isdata)
        } else if code == 26 {
            Some(Itype::Irdata)
        } else if code == 27 {
            Some(Itype::Ient)
        } else if code == 28 {
            Some(Itype::Iloc)
        } else if code == 29 {
            Some(Itype::Ibgnb)
        } else if code == 30 {
            Some(Itype::Iendb)
        } else if code == 31 {
            Some(Itype::Iasm0)
        } else if code == 32 {
            Some(Itype::Iset)
        } else if code == 33 {
            Some(Itype::Icpalias)
        } else if code == 34 {
            Some(Itype::Irep)
        } else if code == 35 {
            Some(Itype::Iendrep)
        } else if code == 36 {
            Some(Itype::Ilab)
        } else if code == 37 {
            Some(Itype::Ivreg)
        } else if code == 38 {
            Some(Itype::Imask)
        } else if code == 39 {
            Some(Itype::Ifmask)
        } else if code == 40 {
            Some(Itype::Ierr)
        } else if code == 41 {
            Some(Itype::Iglobabs)
        } else if code == 42 {
            Some(Itype::Iverstamp)
        } else if code == 43 {
            Some(Itype::Iframe)
        } else if code == 44 {
            Some(Itype::Iextended)
        } else if code == 45 {
            Some(Itype::Iextern)
        } else if code == 46 {
            Some(Itype::Iaent)
        } else if code == 47 {
            Some(Itype::Ioption)
        } else if code == 48 {
            Some(Itype::Inoalias)
        } else if code == 49 {
            Some(Itype::Ialias)
        } else if code == 50 {
            Some(Itype::Imtag)
        } else if code == 51 {
            Some(Itype::Imalias)
        } else if code == 52 {
            Some(Itype::Istruct)
        } else if code == 53 {
            Some(Itype::Ilivereg)
        } else if code == 54 {
            Some(Itype::Igjaldef)
        } else if code == 55 {
            Some(Itype::Igjallive)
        } else if code == 56 {
            Some(Itype::Igjrlive)
        } else if code == 57 {
            Some(Itype::IshiftAddr)
        } else if code == 58 {
            Some(Itype::Irestext)
        } else if code == 59 {
            Some(Itype::Idword)
        } else if code == 60 {
            Some(Itype::Iprologue)
        } else if code == 61 {
            Some(Itype::Iedata)
        } else if code == 62 {
            Some(Itype::Ialloc)
        } else {
            None
        }
    }

    /// The kind that `code` stands for, if there is one.
    pub fn from_repr(code: usize) -> (found: Option<Itype>)
        ensures
            found == Self::lookup(code as nat),
    {
        match code {
            0 => Some(Itype::Ilabel),
            1 => Some(Itype::Isym),
            2 => Some(Itype::Iglobal),
            3 => Some(Itype::Icpload),
            4 => Some(Itype::Ialign),
            5 => Some(Itype::Iascii),
            6 => Some(Itype::Iasciiz),
            7 => Some(Itype::Ibyte),
            8 => Some(Itype::Icomm),
            9 => Some(Itype::Ilcomm),
            10 => Some(Itype::Idata),
            11 => Some(Itype::Idouble),
            12 => Some(Itype::Ifile),
            13 => Some(Itype::Ifloat),
            14 => Some(Itype::Ihalf),
            15 => Some(Itype::Icprestore),
            16 => Some(Itype::Igpword),
            17 => Some(Itype::Icpadd),
            18 => Some(Itype::Iweakext),
            19 => Some(Itype::Iloopno),
            20 => Some(Itype::Ispace),
            21 => Some(Itype::Itext),
            22 => Some(Itype::Iword),
            23 => Some(Itype::Iocode),
            24 => Some(Itype::Iend),
            25 => Some(Itype::Isdata),
            26 => Some(Itype::Irdata),
            27 => Some(Itype::Ient),
            28 => Some(Itype::Iloc),
            29 => Some(Itype::Ibgnb),
            30 => Some(Itype::Iendb),
            31 => Some(Itype::Iasm0),
            32 => Some(Itype::Iset),
            33 => Some(Itype::Icpalias),
            34 => Some(Itype::Irep),
            35 => Some(Itype::Iendrep),
            36 => Some(Itype::Ilab),
            37 => Some(Itype::Ivreg),
            38 => Some(Itype::Imask),
            39 => Some(Itype::Ifmask),
            40 => Some(Itype::Ierr),
            41 => Some(Itype::Iglobabs),
            42 => Some(Itype::Iverstamp),
            43 => Some(Itype::Iframe),
            44 => Some(Itype::Iextended),
            45 => Some(Itype::Iextern),
            46 => Some(Itype::Iaent),
            47 => Some(Itype::Ioption),
            48 => Some(Itype::Inoalias),
            49 => Some(Itype::Ialias),
            50 => Some(Itype::Imtag),
            51 => Some(Itype::Imalias),
            52 => Some(Itype::Istruct),
            53 => Some(Itype::Ilivereg),
            54 => Some(Itype::Igjaldef),
            55 => Some(Itype::Igjallive),
            56 => Some(Itype::Igjrlive),
            57 => Some(Itype::IshiftAddr),
            58 => Some(Itype::Irestext),
            59 => Some(Itype::Idword),
            60 => Some(Itype::Iprologue),
            61 => Some(Itype::Iedata),
            62 => Some(Itype::Ialloc),
            _ => None,
        }
    }

    /// A code stands for the kind that has it as its code, and the
    /// codes from 63 on stand for none.
    pub proof fn lemma_lookup(code: nat)
        ensures
            match Self::lookup(code) {
                Some(it) => it.repr() == code,
                None => code >= 63,
            },
    {
    }

    /// Each kind is found again by its code.
    pub proof fn lemma_repr(self)
        ensures
            Self::lookup(self.repr()) == Some(self),
    {
    }

    /// The symbolic name of this kind.
    pub open spec fn name(self) -> Seq<char> {
        match self {
            Itype::Ilabel => "ilabel"@,
            Itype::Isym => "isym"@,
            Itype::Iglobal => "iglobal"@,
            Itype::Icpload => "icpload"@,
            Itype::Ialign => "ialign"@,
            Itype::Iascii => "iascii"@,
            Itype::Iasciiz => "iasciiz"@,
            Itype::Ibyte => "ibyte"@,
            Itype::Icomm => "icomm"@,
            Itype::Ilcomm => "ilcomm"@,
            Itype::Idata => "idata"@,
            Itype::Idouble => "idouble"@,
            Itype::Ifile => "ifile"@,
            Itype::Ifloat => "ifloat"@,
            Itype::Ihalf => "ihalf"@,
            Itype::Icprestore => "icprestore"@,
            Itype::Igpword => "igpword"@,
            Itype::Icpadd => "icpadd"@,
            Itype::Iweakext => "iweakext"@,
            Itype::Iloopno => "iloopno"@,
            Itype::Ispace => "ispace"@,
            Itype::Itext => "itext"@,
            Itype::Iword => "iword"@,
            Itype::Iocode => "iocode"@,
            Itype::Iend => "iend"@,
            Itype::Isdata => "isdata"@,
            Itype::Irdata => "irdata"@,
            Itype::Ient => "ient"@,
            Itype::Iloc => "iloc"@,
            Itype::Ibgnb => "ibgnb"@,
            Itype::Iendb => "iendb"@,
            Itype::Iasm0 => "iasm0"@,
            Itype::Iset => "iset"@,
            Itype::Icpalias => "icpalias"@,
            Itype::Irep => "irep"@,
            Itype::Iendrep => "iendrep"@,
            Itype::Ilab => "ilab"@,
            Itype::Ivreg => "ivreg"@,
            Itype::Imask => "imask"@,
            Itype::Ifmask => "ifmask"@,
            Itype::Ierr => "ierr"@,
            Itype::Iglobabs => "iglobabs"@,
            Itype::Iverstamp => "iverstamp"@,
            Itype::Iframe => "iframe"@,
            Itype::Iextended => "iextended"@,
            Itype::Iextern => "iextern"@,
            Itype::Iaent => "iaent"@,
            Itype::Ioption => "ioption"@,
            Itype::Inoalias => "inoalias"@,
            Itype::Ialias => "ialias"@,
            Itype::Imtag => "imtag"@,
            Itype::Imalias => "imalias"@,
            Itype::Istruct => "istruct"@,
            Itype::Ilivereg => "ilivereg"@,
            Itype::Igjaldef => "igjaldef"@,
            Itype::Igjallive => "igjallive"@,
            Itype::Igjrlive => "igjrlive"@,
            Itype::IshiftAddr => "ishift_addr"@,
            Itype::Irestext => "irestext"@,
            Itype::Idword => "idword"@,
            Itype::Iprologue => "iprologue"@,
            Itype::Iedata => "iedata"@,
            Itype::Ialloc => "ialloc"@,
        }
    }

    pub fn name_str(self) -> (text: &'static str)
        ensures
            text@ == self.name(),
    {
        match self {
            Itype::Ilabel => "ilabel",
            Itype::Isym => "isym",
            Itype::Iglobal => "iglobal",
            Itype::Icpload => "icpload",
            Itype::Ialign => "ialign",
            Itype::Iascii => "iascii",
            Itype::Iasciiz => "iasciiz",
            Itype::Ibyte => "ibyte",
            Itype::Icomm => "icomm",
            Itype::Ilcomm => "ilcomm",
            Itype::Idata => "idata",
            Itype::Idouble => "idouble",
            Itype::Ifile => "ifile",
            Itype::Ifloat => "ifloat",
            Itype::Ihalf => "ihalf",
            Itype::Icprestore => "icprestore",
            Itype::Igpword => "igpword",
            Itype::Icpadd => "icpadd",
            Itype::Iweakext => "iweakext",
            Itype::Iloopno => "iloopno",
            Itype::Ispace => "ispace",
            Itype::Itext => "itext",
            Itype::Iword => "iword",
            Itype::Iocode => "iocode",
            Itype::Iend => "iend",
            Itype::Isdata => "isdata",
            Itype::Irdata => "irdata",
            Itype::Ient => "ient",
            Itype::Iloc => "iloc",
            Itype::Ibgnb => "ibgnb",
            Itype::Iendb => "iendb",
            Itype::Iasm0 => "iasm0",
            Itype::Iset => "iset",
            Itype::Icpalias => "icpalias",
            Itype::Irep => "irep",
            Itype::Iendrep => "iendrep",
            Itype::Ilab => "ilab",
            Itype::Ivreg => "ivreg",
            Itype::Imask => "imask",
            Itype::Ifmask => "ifmask",
            Itype::Ierr => "ierr",
            Itype::Iglobabs => "iglobabs",
            Itype::Iverstamp => "iverstamp",
            Itype::Iframe => "iframe",
            Itype::Iextended => "iextended",
            Itype::Iextern => "iextern",
            Itype::Iaent => "iaent",
            Itype::Ioption => "ioption",
            Itype::Inoalias => "inoalias",
            Itype::Ialias => "ialias",
            Itype::Imtag => "imtag",
            Itype::Imalias => "imalias",
            Itype::Istruct => "istruct",
            Itype::Ilivereg => "ilivereg",
            Itype::Igjaldef => "igjaldef",
            Itype::Igjallive => "igjallive",
            Itype::Igjrlive => "igjrlive",
            Itype::IshiftAddr => "ishift_addr",
            Itype::Irestext => "irestext",
            Itype::Idword => "idword",
            Itype::Iprologue => "iprologue",
            Itype::Iedata => "iedata",
            Itype::Ialloc => "ialloc",
        }
    }
}

/// The arrangement of the operand fields of a record.
#[derive(Clone, Copy, Debug, PartialEq, Eq, Structural)]
pub enum Format {
    Frob,
    Fra,
    Fri,
    Frrr,
    Frri,
    Frr,
    Fa,
    Fr,
    Frrl,
    Frl,
    Fl,
    Forrr,
    Fril,
    Fi,
    Foa,
    Frrrr,
}

impl Format {
    /// The code that stands for this layout in a record.
    pub open spec fn repr(self) -> nat {
        match self {
            Format::Frob => 0,
            Format::Fra => 1,
            Format::Fri => 2,
            Format::Frrr => 3,
            Format::Frri => 4,
            Format::Frr => 5,
            Format::Fa => 6,
            Format::Fr => 7,
            Format::Frrl => 8,
            Format::Frl => 9,
            Format::Fl => 10,
            Format::Forrr => 11,
            Format::Fril => 12,
            Format::Fi => 13,
            Format::Foa => 14,
            Format::Frrrr => 15,
        }
    }

    /// The layout that `code` stands for, if there is one.
    pub open spec fn lookup(code: nat) -> Option<Format> {
        if code == 0 {
            Some(Format::Frob)
        } else if code == 1 {
            Some(Format::Fra)
        } else if code == 2 {
            Some(Format::Fri)
        } else if code == 3 {
            Some(Format::Frrr)
        } else if code == 4 {
            Some(Format::Frri)
        } else if code == 5 {
            Some(Format::Frr)
        } else if code == 6 {
            Some(Format::Fa)
        } else if code == 7 {
            Some(Format::Fr)
        } else if code == 8 {
            Some(Format::Frrl)
        } else if code == 9 {
            Some(Format::Frl)
        } else if code == 10 {
            Some(Format::Fl)
        } else if code == 11 {
            Some(Format::Forrr)
        } else if code == 12 {
            Some(Format::Fril)
        } else if code == 13 {
            Some(Format::Fi)
        } else if code == 14 {
            Some(Format::Foa)
        } else if code == 15 {
            Some(Format::Frrrr)
        } else {
            None
        }
    }

    /// The layout that `code` stands for, if there is one.
    pub fn from_repr(code: usize) -> (found: Option<Format>)
        ensures
            found == Self::lookup(code as nat),
    {
        match code {
            0 => Some(Format::Frob),
            1 => Some(Format::Fra),
            2 => Some(Format::Fri),
            3 => Some(Format::Frrr),
            4 => Some(Format::Frri),
            5 => Some(Format::Frr),
            6 => Some(Format::Fa),
            7 => Some(Format::Fr),
            8 => Some(Format::Frrl),
            9 => Some(Format::Frl),
            10 => Some(Format::Fl),
            11 => Some(Format::Forrr),
            12 => Some(Format::Fril),
            13 => Some(Format::Fi),
            14 => Some(Format::Foa),
            15 => Some(Format::Frrrr),
            _ => None,
        }
    }

    /// A code stands for the layout that has it as its code, and the
    /// codes from 16 on stand for none.
    pub proof fn lemma_lookup(code: nat)
        ensures
            match Self::lookup(code) {
                Some(it) => it.repr() == code,
                None => code >= 16,
            },
    {
    }

    /// Each layout is found again by its code.
    pub proof fn lemma_repr(self)
        ensures
            Self::lookup(self.repr()) == Some(self),
    {
    }

    /// The symbolic name of this layout.
    pub open spec fn name(self) -> Seq<char> {
        match self {
            Format::Frob => "frob"@,
            Format::Fra => "fra"@,
            Format::Fri => "fri"@,
            Format::Frrr => "frrr"@,
            Format::Frri => "frri"@,
            Format::Frr => "frr"@,
            Format::Fa => "fa"@,
            Format::Fr => "fr"@,
            Format::Frrl => "frrl"@,
            Format::Frl => "frl"@,
            Format::Fl => "fl"@,
            Format::Forrr => "forrr"@,
            Format::Fril => "fril"@,
            Format::Fi => "fi"@,
            Format::Foa => "foa"@,
            Format::Frrrr => "frrrr"@,
        }
    }

    pub fn name_str(self) -> (text: &'static str)
        ensures
            text@ == self.name(),
    {
        match self {
            Format::Frob => "frob",
            Format::Fra => "fra",
            Format::Fri => "fri",
            Format::Frrr => "frrr",
            Format::Frri => "frri",
            Format::Frr => "frr",
            Format::Fa => "fa",
            Format::Fr => "fr",
            Format::Frrl => "frrl",
            Format::Frl => "frl",
            Format::Fl => "fl",
            Format::Forrr => "forrr",
            Format::Fril => "fril",
            Format::Fi => "fi",
            Format::Foa => "foa",
            Format::Frrrr => "frrrr",
        }
    }
}

/// What an `.option` directive sets.
#[derive(Clone, Copy, Debug, PartialEq, Eq, Structural)]
pub enum OptType {
    Undefined,
    Optimize,
    Pic,
}

impl OptType {
    /// The code that stands for this option in a record.
    pub open spec fn repr(self) -> nat {
        match self {
            OptType::Undefined => 0,
            OptType::Optimize => 1,
            OptType::Pic => 2,
        }
    }

    /// The option that `code` stands for, if there is one.
    pub open spec fn lookup(code: nat) -> Option<OptType> {
        if code == 0 {
            Some(OptType::Undefined)
        } else if code == 1 {
            Some(OptType::Optimize)
        } else if code == 2 {
            Some(OptType::Pic)
        } else {
            None
        }
    }

    /// The option that `code` stands for, if there is one.
    pub fn from_repr(code: usize) -> (found: Option<OptType>)
        ensures
            found == Self::lookup(code as nat),
    {
        match code {
            0 => Some(OptType::Undefined),
            1 => Some(OptType::Optimize),
            2 => Some(OptType::Pic),
            _ => None,
        }
    }

    /// A code stands for the option that has it as its code, and the
    /// codes from 3 on stand for none.
    pub proof fn lemma_lookup(code: nat)
        ensures
            match Self::lookup(code) {
                Some(it) => it.repr() == code,
                None => code >= 3,
            },
    {
    }

    /// Each option is found again by its code.
    pub proof fn lemma_repr(self)
        ensures
            Self::lookup(self.repr()) == Some(self),
    {
    }

    /// The shape of the argument that this option takes.
    pub open spec fn arg_type(self) -> OptArgType {
        match self {
            OptType::Undefined => OptArgType::OptNone,
            OptType::Optimize => OptArgType::OptInt,
            OptType::Pic => OptArgType::OptInt,
        }
    }

    pub fn option_arg_type(self) -> (shape: OptArgType)
        ensures
            shape == self.arg_type(),
    {
        match self {
            OptType::Undefined => OptArgType::OptNone,
            OptType::Optimize => OptArgType::OptInt,
            OptType::Pic => OptArgType::OptInt,
        }
    }
}

/// The shape of an option's argument.
#[derive(Clone, Copy, Debug, PartialEq, Eq, Structural)]
pub enum OptArgType {
    OptNone,
    OptInt,
    OptFloat,
    OptString,
}

/// A register, by its index in the register table.
#[derive(Clone, Copy, Debug, PartialEq, Eq, Structural)]
pub struct Register {
    pub code: u32,
}

/// A machine opcode, by its index in the opcode table.
#[derive(Clone, Copy, Debug, PartialEq, Eq, Structural)]
pub struct Opcode {
    pub code: u32,
}

/// A value of the `.set` directive, by its index in the table of such values.
#[derive(Clone, Copy, Debug, PartialEq, Eq, Structural)]
pub struct SetValue {
    pub code: u32,
}

/// The name tables of one assembler: a code is recognised when its table has
/// an entry for it, and that entry is its name.
#[derive(Clone, Debug, PartialEq, Eq)]
pub struct Lexicon {
    pub registers: Vec<String>,
    pub opcodes: Vec<String>,
    pub set_values: Vec<String>,
    /// One name for each `OptType`, in the order of their codes.
    pub options: Vec<String>,
    /// The register that stands for "no register".
    pub noreg: Register,
}

/// The name that `table` gives to `code`; a code without an entry is named
/// by its number.
pub open spec fn entry(table: Seq<String>, code: nat) -> Seq<char> {
    if code < table.len() {
        table[code as int]@
    } else {
        decimal(code)
    }
}

pub fn entry_string(table: &Vec<String>, code: u32) -> (name: String)
    ensures
        name@ == entry(table@, code as nat),
{
    if (code as usize) < table.len() {
        table[code as usize].clone()
    } else {
        decimal_string(code as u64)
    }
}

impl Lexicon {
    pub open spec fn knows_register(&self, code: nat) -> bool {
        code < self.registers@.len()
    }

    pub open spec fn knows_opcode(&self, code: nat) -> bool {
        code < self.opcodes@.len()
    }

    pub open spec fn knows_set_value(&self, code: nat) -> bool {
        code < self.set_values@.len()
    }

    /// The register with index `code`, if the table has it.
    pub fn register(&self, code: u32) -> (found: Option<Register>)
        ensures
            found == if self.knows_register(code as nat) {
                Some(Register { code })
            } else {
                None
            },
    {
        if (code as usize) < self.registers.len() {
            Some(Register { code })
        } else {
            None
        }
    }

    /// The opcode with index `code`, if the table has it.
    pub fn opcode(&self, code: u32) -> (found: Option<Opcode>)
        ensures
            found == if self.knows_opcode(code as nat) {
                Some(Opcode { code })
            } else {
                None
            },
    {
        if (code as usize) < self.opcodes.len() {
            Some(Opcode { code })
        } else {
            None
        }
    }

    /// The `.set` value with index `code`, if the table has it.
    pub fn set_value(&self, code: u32) -> (found: Option<SetValue>)
        ensures
            found == if self.knows_set_value(code as nat) {
                Some(SetValue { code })
            } else {
                None
            },
    {
        if (code as usize) < self.set_values.len() {
            Some(SetValue { code })
        } else {
            None
        }
    }

    pub open spec fn register_name(&self, reg: Register) -> Seq<char> {
        entry(self.registers@, reg.code as nat)
    }

    pub open spec fn opcode_name(&self, op: Opcode) -> Seq<char> {
        entry(self.opcodes@, op.code as nat)
    }

    pub open spec fn set_value_name(&self, value: SetValue) -> Seq<char> {
        entry(self.set_values@, value.code as nat)
    }

    pub open spec fn option_name(&self, opt: OptType) -> Seq<char> {
        entry(self.options@, opt.repr())
    }

    pub fn register_string(&self, reg: Register) -> (name: String)
        ensures
            name@ == self.register_name(reg),
    {
        entry_string(&self.registers, reg.code)
    }

    pub fn opcode_string(&self, op: Opcode) -> (name: String)
        ensures
            name@ == self.opcode_name(op),
    {
        entry_string(&self.opcodes, op.code)
    }

    pub fn set_value_string(&self, value: SetValue) -> (name: String)
        ensures
            name@ == self.set_value_name(value),
    {
        entry_string(&self.set_values, value.code)
    }

    pub fn option_string(&self, opt: OptType) -> (name: String)
        ensures
            name@ == self.option_name(opt),
    {
        let code: u32 = match opt {
            OptType::Undefined => 0,
            OptType::Optimize => 1,
            OptType::Pic => 2,
        };
        entry_string(&self.options, code)
    }
}

} // verus!
