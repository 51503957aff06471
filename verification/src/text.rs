//! Numbers and bytes as text.

use vstd::prelude::*;
use vstd::string::*;

verus! {

/// `String::push` of the standard library, taken on trust: it adds the
/// character at the end of the string and changes nothing else.
pub assume_specification[ String::push ](s: &mut String, c: char)
    ensures
        final(s)@ == old(s)@.push(c),
;

/// The character that stands for the digit `d` in bases up to sixteen, with
/// capital letters above nine.
pub open spec fn digit_char(d: nat) -> char
    recommends
        d < 16,
{
    if d < 10 {
        (48 + d) as char
    } else {
        (55 + d) as char
    }
}

/// The digit `d` as a character.
pub fn digit(d: u8) -> (c: char)
    requires
        d < 16,
    ensures
        c == digit_char(d as nat),
{
    if d < 10 {
        (48 + d) as char
    } else {
        (55 + d) as char
    }
}

/// `n` in base ten, without leading zeros.
pub open spec fn decimal(n: nat) -> Seq<char>
    decreases n,
{
    if n < 10 {
        seq![digit_char(n)]
    } else {
        decimal(n / 10).push(digit_char(n % 10))
    }
}

/// `n` in base ten.
pub fn decimal_string(n: u64) -> (s: String)
    ensures
        s@ == decimal(n as nat),
    decreases n,
{
    if n < 10 {
        let mut s = String::new();
        s.push(digit(n as u8));
        assert(s@ =~= seq![digit_char(n as nat)]);
        s
    } else {
        let mut s = decimal_string(n / 10);
        s.push(digit((n % 10) as u8));
        s
    }
}

/// `i` in base ten, with a minus sign in front of a negative number.
pub open spec fn signed(i: int) -> Seq<char> {
    if i < 0 {
        seq!['-'] + decimal((-i) as nat)
    } else {
        decimal(i as nat)
    }
}

/// `i` in base ten, signed.
pub fn signed_string(i: i64) -> (s: String)
    ensures
        s@ == signed(i as int),
{
    if i < 0 {
        let magnitude: u64 = (-(i + 1)) as u64 + 1;
        let mut s = String::new();
        s.push('-');
        assert(s@ =~= seq!['-']);
        let digits = decimal_string(magnitude);
        s.append(digits.as_str());
        s
    } else {
        decimal_string(i as u64)
    }
}

/// `n` in base sixteen with capital letters, with zeros in front where it
/// has fewer than `width` digits.
pub open spec fn hex_padded(n: nat, width: nat) -> Seq<char>
    decreases n, width,
{
    if n < 16 && width <= 1 {
        seq![digit_char(n)]
    } else {
        hex_padded(n / 16, if width > 0 { (width - 1) as nat } else { 0 }).push(digit_char(n % 16))
    }
}

/// `n` in base sixteen, in at least `width` digits.
pub fn hex_string(n: u64, width: u32) -> (s: String)
    ensures
        s@ == hex_padded(n as nat, width as nat),
    decreases n, width,
{
    if n < 16 && width <= 1 {
        let mut s = String::new();
        s.push(digit(n as u8));
        assert(s@ =~= seq![digit_char(n as nat)]);
        s
    } else {
        let mut s = hex_string(n / 16, if width > 0 { width - 1 } else { 0 });
        s.push(digit((n % 16) as u8));
        s
    }
}

/// The stand-in for the name of symbol `symno`: a positive number is a
/// named symbol, any other number a local label, written by its magnitude.
pub open spec fn symbol_name(symno: int) -> Seq<char> {
    if symno > 0 {
        "SYM_"@ + decimal(symno as nat)
    } else {
        "$"@ + decimal((-symno) as nat)
    }
}

/// The stand-in for the name of symbol `symno`.
pub fn symbol_string(symno: i32) -> (s: String)
    ensures
        s@ == symbol_name(symno as int),
{
    if symno > 0 {
        let mut s = String::from_str("SYM_");
        let digits = decimal_string(symno as u64);
        s.append(digits.as_str());
        s
    } else {
        let mut s = String::from_str("$");
        let digits = decimal_string((-(symno as i64)) as u64);
        s.append(digits.as_str());
        s
    }
}

/// Whether the byte is a printable ASCII character.
pub open spec fn is_printable(c: u8) -> bool {
    0x20 <= c <= 0x7E
}

/// One byte of a literal: itself where it is printable, else `\x` and its
/// two hexadecimal digits.
pub open spec fn escaped_byte(c: u8) -> Seq<char> {
    if is_printable(c) {
        seq![c as char]
    } else {
        "\\x"@ + hex_padded(c as nat, 2)
    }
}

/// The bytes of a literal, one after the other, each as `escaped_byte` has it.
pub open spec fn escaped(bytes: Seq<u8>) -> Seq<char>
    decreases bytes.len(),
{
    if bytes.len() == 0 {
        Seq::empty()
    } else {
        escaped(bytes.drop_last()) + escaped_byte(bytes.last())
    }
}

/// Whether every character of the text is a printable ASCII character.
pub open spec fn all_printable(text: Seq<char>) -> bool {
    forall|i: int| 0 <= i < text.len() ==> 0x20 <= #[trigger] text[i] as u32 <= 0x7E
}

/// A number in base sixteen is made of printable characters.
pub proof fn lemma_hex_is_printable(n: nat, width: nat)
    ensures
        all_printable(hex_padded(n, width)),
    decreases n, width,
{
    if !(n < 16 && width <= 1) {
        lemma_hex_is_printable(n / 16, if width > 0 { (width - 1) as nat } else { 0 });
    }
}

/// An escaped literal is made of printable characters, whatever its bytes
/// are: it holds no line feed and no tab.
pub proof fn lemma_escaped_is_printable(bytes: Seq<u8>)
    ensures
        all_printable(escaped(bytes)),
    decreases bytes.len(),
{
    if bytes.len() > 0 {
        lemma_escaped_is_printable(bytes.drop_last());
        let c = bytes.last();
        if !is_printable(c) {
            reveal_strlit("\\x");
            lemma_hex_is_printable(c as nat, 2);
        }
    }
}

/// Adds the bytes of a literal to `out`, escaped.
pub fn push_escaped(out: &mut String, bytes: &Vec<u8>)
    ensures
        final(out)@ == old(out)@ + escaped(bytes@),
{
    let mut i: usize = 0;
    assert(bytes@.take(0) =~= Seq::empty());
    assert(out@ =~= old(out)@ + escaped(bytes@.take(0)));
    while i < bytes.len()
        invariant
            i <= bytes.len(),
            out@ == old(out)@ + escaped(bytes@.take(i as int)),
        decreases bytes.len() - i,
    {
        let c: u8 = bytes[i];
        proof {
            assert(bytes@.take(i + 1).drop_last() =~= bytes@.take(i as int));
            assert(bytes@.take(i + 1).last() == c);
        }
        let ghost before = out@;
        if 0x20 <= c && c <= 0x7E {
            out.push(c as char);
            assert(out@ =~= before + seq![c as char]);
        } else {
            out.append("\\x");
            let digits = hex_string(c as u64, 2);
            out.append(digits.as_str());
            assert(out@ =~= before + ("\\x"@ + hex_padded(c as nat, 2)));
        }
        assert(out@ =~= old(out)@ + escaped(bytes@.take(i + 1)));
        i += 1;
    }
    assert(bytes@.take(i as int) =~= bytes@);
}

/// `count` spaces.
pub open spec fn spaces(count: nat) -> Seq<char> {
    Seq::new(count, |i: int| ' ')
}

/// `text`, with spaces behind it where it is shorter than `width`.
pub open spec fn pad_right(text: Seq<char>, width: nat) -> Seq<char> {
    if text.len() >= width {
        text
    } else {
        text + spaces((width - text.len()) as nat)
    }
}

/// `text`, filled up with spaces to `width` characters.
pub fn pad_right_string(text: String, width: usize) -> (s: String)
    ensures
        s@ == pad_right(text@, width as nat),
{
    let len: usize = text.as_str().unicode_len();
    let mut s = text;
    if len < width {
        let mut k: usize = 0;
        assert(s@ =~= text@ + spaces(0));
        while k < width - len
            invariant
                len < width,
                k <= width - len,
                text@.len() == len,
                s@ == text@ + spaces(k as nat),
            decreases width - len - k,
        {
            s.push(' ');
            assert(s@ =~= text@ + spaces((k + 1) as nat));
            k += 1;
        }
    }
    s
}

/// Each byte as two hexadecimal digits and a space.
pub open spec fn hex_bytes(bytes: Seq<u8>) -> Seq<char>
    decreases bytes.len(),
{
    if bytes.len() == 0 {
        Seq::empty()
    } else {
        hex_bytes(bytes.drop_last()) + hex_padded(bytes.last() as nat, 2) + " "@
    }
}

/// Adds the bytes `bytes[from..to]` to `out`, each as two hexadecimal digits
/// and a space.
pub fn push_hex_bytes(out: &mut String, bytes: &[u8], from: usize, to: usize)
    requires
        from <= to <= bytes@.len(),
    ensures
        final(out)@ == old(out)@ + hex_bytes(bytes@.subrange(from as int, to as int)),
{
    let mut i: usize = from;
    assert(bytes@.subrange(from as int, from as int) =~= Seq::empty());
    assert(out@ =~= old(out)@ + hex_bytes(bytes@.subrange(from as int, from as int)));
    while i < to
        invariant
            from <= i <= to <= bytes@.len(),
            out@ == old(out)@ + hex_bytes(bytes@.subrange(from as int, i as int)),
        decreases to - i,
    {
        let c: u8 = bytes[i];
        proof {
            assert(bytes@.subrange(from as int, i + 1).drop_last() =~= bytes@.subrange(
                from as int,
                i as int,
            ));
            assert(bytes@.subrange(from as int, i + 1).last() == c);
        }
        let ghost before = out@;
        let digits = hex_string(c as u64, 2);
        out.append(digits.as_str());
        out.append(" ");
        assert(out@ =~= before + hex_padded(c as nat, 2) + " "@);
        assert(out@ =~= old(out)@ + hex_bytes(bytes@.subrange(from as int, i + 1)));
        i += 1;
    }
}

/// Adds `n` in base ten to `out`.
pub fn append_decimal(out: &mut String, n: u64)
    ensures
        final(out)@ == old(out)@ + decimal(n as nat),
{
    let digits = decimal_string(n);
    out.append(digits.as_str());
}

/// Adds `i` in base ten, signed, to `out`.
pub fn append_signed(out: &mut String, i: i64)
    ensures
        final(out)@ == old(out)@ + signed(i as int),
{
    let digits = signed_string(i);
    out.append(digits.as_str());
}

/// Adds `n` in base sixteen, in at least `width` digits, to `out`.
pub fn append_hex(out: &mut String, n: u64, width: u32)
    ensures
        final(out)@ == old(out)@ + hex_padded(n as nat, width as nat),
{
    let digits = hex_string(n, width);
    out.append(digits.as_str());
}

/// Adds the stand-in for the name of symbol `symno` to `out`.
pub fn append_symbol(out: &mut String, symno: i32)
    ensures
        final(out)@ == old(out)@ + symbol_name(symno as int),
{
    let name = symbol_string(symno);
    out.append(name.as_str());
}

} // verus!
