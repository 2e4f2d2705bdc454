use vstd::prelude::*;
use vstd::string::{StrSliceExecFns, StringExecFns};

verus! {

/// The character of digit `d` (0 to 15), upper case past 9.
pub open spec fn digit_char(d: int) -> char {
    if d < 10 {
        (d + 48) as char
    } else {
        (d + 55) as char
    }
}

/// `v` in hexadecimal, upper case, without leading zeros.
pub open spec fn hex_text(v: nat) -> Seq<char>
    decreases v,
{
    if v < 16 {
        seq![digit_char(v as int)]
    } else {
        hex_text(v / 16) + seq![digit_char((v % 16) as int)]
    }
}

/// `v` in decimal, without leading zeros.
pub open spec fn decimal_text(v: nat) -> Seq<char>
    decreases v,
{
    if v < 10 {
        seq![digit_char(v as int)]
    } else {
        decimal_text(v / 10) + seq![digit_char((v % 10) as int)]
    }
}

/// `s`, with spaces after it up to `width` characters.
pub open spec fn padded(s: Seq<char>, width: nat) -> Seq<char> {
    if s.len() < width {
        s + Seq::new((width - s.len()) as nat, |i: int| ' ')
    } else {
        s
    }
}

/// The text of digit `d`.
pub fn digit_str(d: u16) -> (s: &'static str)
    requires
        d < 16,
    ensures
        s@ == seq![digit_char(d as int)],
{
    proof {
        reveal_strlit("0");
        reveal_strlit("1");
        reveal_strlit("2");
        reveal_strlit("3");
        reveal_strlit("4");
        reveal_strlit("5");
        reveal_strlit("6");
        reveal_strlit("7");
        reveal_strlit("8");
        reveal_strlit("9");
        reveal_strlit("A");
        reveal_strlit("B");
        reveal_strlit("C");
        reveal_strlit("D");
        reveal_strlit("E");
        reveal_strlit("F");
    }
    if d == 0 {
        "0"
    } else if d == 1 {
        "1"
    } else if d == 2 {
        "2"
    } else if d == 3 {
        "3"
    } else if d == 4 {
        "4"
    } else if d == 5 {
        "5"
    } else if d == 6 {
        "6"
    } else if d == 7 {
        "7"
    } else if d == 8 {
        "8"
    } else if d == 9 {
        "9"
    } else if d == 10 {
        "A"
    } else if d == 11 {
        "B"
    } else if d == 12 {
        "C"
    } else if d == 13 {
        "D"
    } else if d == 14 {
        "E"
    } else {
        "F"
    }
}

/// Appends `v` in hexadecimal.
pub fn append_hex(text: &mut String, v: u16)
    ensures
        final(text)@ == old(text)@ + hex_text(v as nat),
    decreases v,
{
    if v >= 16 {
        append_hex(text, v / 16);
    }
    text.append(digit_str(v % 16));
    assert(final(text)@ =~= old(text)@ + hex_text(v as nat)) by {
        if v >= 16 {
            assert(hex_text(v as nat) == hex_text((v / 16) as nat) + seq![digit_char((v % 16) as int)]);
        }
    }
}

/// Appends `v` in decimal.
pub fn append_decimal(text: &mut String, v: u16)
    ensures
        final(text)@ == old(text)@ + decimal_text(v as nat),
    decreases v,
{
    if v >= 10 {
        append_decimal(text, v / 10);
    }
    text.append(digit_str(v % 10));
    assert(final(text)@ =~= old(text)@ + decimal_text(v as nat)) by {
        if v >= 10 {
            assert(decimal_text(v as nat) == decimal_text((v / 10) as nat) + seq![digit_char((v % 10) as int)]);
        }
    }
}

/// Appends `s` with spaces after it up to `width` characters.
pub fn append_padded(text: &mut String, s: &str, width: usize)
    ensures
        final(text)@ == old(text)@ + padded(s@, width as nat),
{
    proof {
        reveal_strlit(" ");
    }
    text.append(s);
    let n = s.unicode_len();
    let mut count = n;
    while count < width
        invariant
            n == s@.len(),
            n <= count <= if n < width { width } else { n },
            text@ == old(text)@ + s@ + Seq::new((count - n) as nat, |i: int| ' '),
        decreases width - count,
    {
        proof {
            reveal_strlit(" ");
        }
        text.append(" ");
        count = count + 1;
        assert(text@ =~= old(text)@ + s@ + Seq::new((count - n) as nat, |i: int| ' '));
    }
    assert(text@ =~= old(text)@ + padded(s@, width as nat));
}

/// `v` in hexadecimal, upper case, with zeros in front up to `width` digits.
pub open spec fn zero_padded_hex(v: nat, width: nat) -> Seq<char> {
    let digits = hex_text(v);
    if digits.len() < width {
        Seq::new((width - digits.len()) as nat, |i: int| '0') + digits
    } else {
        digits
    }
}

/// Hexadecimal takes one digit below 16, else one more than for `v / 16`.
proof fn lemma_hex_len(v: nat)
    ensures
        hex_text(v).len() >= 1,
        v < 16 ==> hex_text(v).len() == 1,
        16 <= v < 256 ==> hex_text(v).len() == 2,
        256 <= v < 4096 ==> hex_text(v).len() == 3,
        4096 <= v < 65536 ==> hex_text(v).len() == 4,
    decreases v,
{
    if v >= 16 {
        lemma_hex_len(v / 16);
    }
}

/// Appends `v` in hexadecimal with zeros in front up to `width` digits.
pub fn append_zero_padded_hex(text: &mut String, v: u16, width: usize)
    requires
        width <= 4,
    ensures
        final(text)@ == old(text)@ + zero_padded_hex(v as nat, width as nat),
{
    proof {
        lemma_hex_len(v as nat);
    }
    let digits: usize = if v < 16 {
        1
    } else if v < 256 {
        2
    } else if v < 4096 {
        3
    } else {
        4
    };
    let mut count = digits;
    while count < width
        invariant
            digits == hex_text(v as nat).len(),
            digits <= count <= if digits < width { width } else { digits },
            text@ == old(text)@ + Seq::new((count - digits) as nat, |i: int| '0'),
        decreases width - count,
    {
        proof {
            reveal_strlit("0");
        }
        text.append("0");
        count = count + 1;
        assert(text@ =~= old(text)@ + Seq::new((count - digits) as nat, |i: int| '0'));
    }
    append_hex(text, v);
    assert(text@ =~= old(text)@ + zero_padded_hex(v as nat, width as nat));
}

/// `v` in binary, without leading zeros.
pub open spec fn binary_text(v: nat) -> Seq<char>
    decreases v,
{
    if v < 2 {
        seq![digit_char(v as int)]
    } else {
        binary_text(v / 2) + seq![digit_char((v % 2) as int)]
    }
}

/// Appends `v` in binary.
pub fn append_binary(text: &mut String, v: u16)
    ensures
        final(text)@ == old(text)@ + binary_text(v as nat),
    decreases v,
{
    if v >= 2 {
        append_binary(text, v / 2);
    }
    text.append(digit_str(v % 2));
    assert(final(text)@ =~= old(text)@ + binary_text(v as nat)) by {
        if v >= 2 {
            assert(binary_text(v as nat) == binary_text((v / 2) as nat) + seq![digit_char((v % 2) as int)]);
        }
    }
}

/// Appends `v` in decimal (a 32-bit value).
pub fn append_decimal_u32(text: &mut String, v: u32)
    ensures
        final(text)@ == old(text)@ + decimal_text(v as nat),
    decreases v,
{
    if v >= 10 {
        append_decimal_u32(text, v / 10);
    }
    text.append(digit_str((v % 10) as u16));
    assert(final(text)@ =~= old(text)@ + decimal_text(v as nat)) by {
        if v >= 10 {
            assert(decimal_text(v as nat) == decimal_text((v / 10) as nat) + seq![digit_char((v % 10) as int)]);
        }
    }
}

/// The character of digit `d` (0 to 15), lower case past 9.
pub open spec fn lower_digit_char(d: int) -> char {
    if d < 10 {
        (d + 48) as char
    } else {
        (d + 87) as char
    }
}

/// A byte as two hexadecimal digits, lower case.
pub open spec fn lower_hex_byte(v: u8) -> Seq<char> {
    seq![lower_digit_char(v as int / 16), lower_digit_char(v as int % 16)]
}

/// The text of digit `d`, lower case past 9.
fn lower_digit_str(d: u8) -> (s: &'static str)
    requires
        d < 16,
    ensures
        s@ == seq![lower_digit_char(d as int)],
{
    proof {
        reveal_strlit("a");
        reveal_strlit("b");
        reveal_strlit("c");
        reveal_strlit("d");
        reveal_strlit("e");
        reveal_strlit("f");
    }
    if d < 10 {
        digit_str(d as u16)
    } else if d == 10 {
        "a"
    } else if d == 11 {
        "b"
    } else if d == 12 {
        "c"
    } else if d == 13 {
        "d"
    } else if d == 14 {
        "e"
    } else {
        "f"
    }
}

/// Appends a byte as two hexadecimal digits, lower case.
pub fn append_lower_hex_byte(text: &mut String, v: u8)
    ensures
        final(text)@ == old(text)@ + lower_hex_byte(v),
{
    text.append(lower_digit_str(v / 16));
    text.append(lower_digit_str(v % 16));
    assert(text@ =~= old(text)@ + lower_hex_byte(v));
}

/// `true` or `false`.
pub open spec fn bool_text(b: bool) -> Seq<char> {
    if b {
        "true"@
    } else {
        "false"@
    }
}

/// Appends `true` or `false`.
pub fn append_bool(text: &mut String, b: bool)
    ensures
        final(text)@ == old(text)@ + bool_text(b),
{
    if b {
        text.append("true");
    } else {
        text.append("false");
    }
}

} // verus!
