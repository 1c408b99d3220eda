//! Upper-case hexadecimal text for addresses and data.
use vstd::prelude::*;

verus! {

/// The digit for a number below sixteen.
pub open spec fn hex_digit(n: int) -> char {
    if n == 0 {
        '0'
    } else if n == 1 {
        '1'
    } else if n == 2 {
        '2'
    } else if n == 3 {
        '3'
    } else if n == 4 {
        '4'
    } else if n == 5 {
        '5'
    } else if n == 6 {
        '6'
    } else if n == 7 {
        '7'
    } else if n == 8 {
        '8'
    } else if n == 9 {
        '9'
    } else if n == 10 {
        'A'
    } else if n == 11 {
        'B'
    } else if n == 12 {
        'C'
    } else if n == 13 {
        'D'
    } else if n == 14 {
        'E'
    } else {
        'F'
    }
}

/// Two digits for a byte, high digit first.
pub open spec fn hex2(value: u8) -> Seq<char> {
    seq![hex_digit(value as int / 16), hex_digit(value as int % 16)]
}

/// Four digits for a 16-bit word, high digit first.
pub open spec fn hex4(value: u16) -> Seq<char> {
    hex2((value as int / 256) as u8) + hex2((value as int % 256) as u8)
}

/// The text of one digit.
fn digit(n: u8) -> (text: &'static str)
    requires
        n < 16,
    ensures
        text@ == seq![hex_digit(n as int)],
{
    proof {
        reveal_strlit("0");
        reveal_strlit("1");
        reveal_strlit("2");
        reveal_strlit("3");
        reveal_strlit("4");
        reveal_strlit("5");
        reveal_strlit("6");
        reveal_strlit("7");
        reveal_strlit("8");
        reveal_strlit("9");
        reveal_strlit("A");
        reveal_strlit("B");
        reveal_strlit("C");
        reveal_strlit("D");
        reveal_strlit("E");
        reveal_strlit("F");
    }
    let text = if n == 0 {
        "0"
    } else if n == 1 {
        "1"
    } else if n == 2 {
        "2"
    } else if n == 3 {
        "3"
    } else if n == 4 {
        "4"
    } else if n == 5 {
        "5"
    } else if n == 6 {
        "6"
    } else if n == 7 {
        "7"
    } else if n == 8 {
        "8"
    } else if n == 9 {
        "9"
    } else if n == 10 {
        "A"
    } else if n == 11 {
        "B"
    } else if n == 12 {
        "C"
    } else if n == 13 {
        "D"
    } else if n == 14 {
        "E"
    } else {
        "F"
    };
    assert(text@ =~= seq![hex_digit(n as int)]);
    text
}

/// Appends the two digits of `value` to `line`.
pub fn push_hex2(line: &mut String, value: u8)
    ensures
        final(line)@ == old(line)@ + hex2(value),
{
    line.append(digit(value / 16));
    line.append(digit(value % 16));
    assert(line@ =~= old(line)@ + hex2(value));
}

/// Appends the four digits of `value` to `line`.
pub fn push_hex4(line: &mut String, value: u16)
    ensures
        final(line)@ == old(line)@ + hex4(value),
{
    push_hex2(line, (value / 256) as u8);
    push_hex2(line, (value % 256) as u8);
    assert(line@ =~= old(line)@ + hex4(value));
}

} // verus!
