use vstd::prelude::*;
use vstd::string::StringExecFns;

verus! {

/// The character for a digit below sixteen, in upper case.
pub open spec fn digit_char(d: int) -> char {
    if d == 0 {
        '0'
    } else if d == 1 {
        '1'
    } else if d == 2 {
        '2'
    } else if d == 3 {
        '3'
    } else if d == 4 {
        '4'
    } else if d == 5 {
        '5'
    } else if d == 6 {
        '6'
    } else if d == 7 {
        '7'
    } else if d == 8 {
        '8'
    } else if d == 9 {
        '9'
    } else if d == 10 {
        'A'
    } else if d == 11 {
        'B'
    } else if d == 12 {
        'C'
    } else if d == 13 {
        'D'
    } else if d == 14 {
        'E'
    } else {
        'F'
    }
}

/// A byte in two hexadecimal digits.
pub open spec fn hex_byte(v: u8) -> Seq<char> {
    seq![digit_char(v as int / 16), digit_char(v as int % 16)]
}

/// A word in four hexadecimal digits.
pub open spec fn hex_word(v: u16) -> Seq<char> {
    seq![
        digit_char(v as int / 4096),
        digit_char(v as int / 256 % 16),
        digit_char(v as int / 16 % 16),
        digit_char(v as int % 16),
    ]
}

/// A number in decimal digits, without leading zeros.
pub open spec fn decimal(v: u16) -> Seq<char> {
    if v < 10 {
        seq![digit_char(v as int)]
    } else if v < 100 {
        seq![digit_char(v as int / 10), digit_char(v as int % 10)]
    } else if v < 1000 {
        seq![digit_char(v as int / 100), digit_char(v as int / 10 % 10), digit_char(v as int % 10)]
    } else if v < 10000 {
        seq![
            digit_char(v as int / 1000),
            digit_char(v as int / 100 % 10),
            digit_char(v as int / 10 % 10),
            digit_char(v as int % 10),
        ]
    } else {
        seq![
            digit_char(v as int / 10000),
            digit_char(v as int / 1000 % 10),
            digit_char(v as int / 100 % 10),
            digit_char(v as int / 10 % 10),
            digit_char(v as int % 10),
        ]
    }
}

/// The digit `d` as a string of one character.
pub fn digit(d: u8) -> (s: &'static str)
    requires
        d < 16,
    ensures
        s@ == seq![digit_char(d as int)],
{
    proof {
        reveal_strlit("0");
        reveal_strlit("1");
        reveal_strlit("2");
        reveal_strlit("3");
        reveal_strlit("4");
        reveal_strlit("5");
        reveal_strlit("6");
        reveal_strlit("7");
        reveal_strlit("8");
        reveal_strlit("9");
        reveal_strlit("A");
        reveal_strlit("B");
        reveal_strlit("C");
        reveal_strlit("D");
        reveal_strlit("E");
        reveal_strlit("F");
    }
    let s = match d {
        0 => "0",
        1 => "1",
        2 => "2",
        3 => "3",
        4 => "4",
        5 => "5",
        6 => "6",
        7 => "7",
        8 => "8",
        9 => "9",
        10 => "A",
        11 => "B",
        12 => "C",
        13 => "D",
        14 => "E",
        _ => "F",
    };
    assert(s@ =~= seq![digit_char(d as int)]);
    s
}

/// Appends a byte in two hexadecimal digits.
pub fn push_hex_byte(text: &mut String, v: u8)
    ensures
        final(text)@ == old(text)@ + hex_byte(v),
{
    text.append(digit(v / 16));
    text.append(digit(v % 16));
    assert(text@ =~= old(text)@ + hex_byte(v));
}

/// Appends a word in four hexadecimal digits.
pub fn push_hex_word(text: &mut String, v: u16)
    ensures
        final(text)@ == old(text)@ + hex_word(v),
{
    text.append(digit((v / 4096) as u8));
    text.append(digit((v / 256 % 16) as u8));
    text.append(digit((v / 16 % 16) as u8));
    text.append(digit((v % 16) as u8));
    assert(text@ =~= old(text)@ + hex_word(v));
}

/// Appends a number in decimal digits.
pub fn push_decimal(text: &mut String, v: u16)
    ensures
        final(text)@ == old(text)@ + decimal(v),
{
    if v >= 10000 {
        text.append(digit((v / 10000) as u8));
    }
    if v >= 1000 {
        text.append(digit((v / 1000 % 10) as u8));
    }
    if v >= 100 {
        text.append(digit((v / 100 % 10) as u8));
    }
    if v >= 10 {
        text.append(digit((v / 10 % 10) as u8));
    }
    text.append(digit((v % 10) as u8));
    assert(text@ =~= old(text)@ + decimal(v));
}

/// A number below a hundred in two decimal digits.
pub open spec fn two_digits(v: u8) -> Seq<char> {
    seq![digit_char(v as int / 10), digit_char(v as int % 10)]
}

/// A byte in eight binary digits.
pub open spec fn binary_byte(v: u8) -> Seq<char> {
    seq![
        digit_char(v as int / 128),
        digit_char(v as int / 64 % 2),
        digit_char(v as int / 32 % 2),
        digit_char(v as int / 16 % 2),
        digit_char(v as int / 8 % 2),
        digit_char(v as int / 4 % 2),
        digit_char(v as int / 2 % 2),
        digit_char(v as int % 2),
    ]
}

/// Appends a number below a hundred in two decimal digits.
pub fn push_two_digits(text: &mut String, v: u8)
    requires
        v < 100,
    ensures
        final(text)@ == old(text)@ + two_digits(v),
{
    text.append(digit(v / 10));
    text.append(digit(v % 10));
    assert(text@ =~= old(text)@ + two_digits(v));
}

/// Appends a byte in eight binary digits.
pub fn push_binary_byte(text: &mut String, v: u8)
    ensures
        final(text)@ == old(text)@ + binary_byte(v),
{
    text.append(digit(v / 128));
    text.append(digit(v / 64 % 2));
    text.append(digit(v / 32 % 2));
    text.append(digit(v / 16 % 2));
    text.append(digit(v / 8 % 2));
    text.append(digit(v / 4 % 2));
    text.append(digit(v / 2 % 2));
    text.append(digit(v % 2));
    assert(text@ =~= old(text)@ + binary_byte(v));
}

} // verus!
