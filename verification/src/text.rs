//! Upper-case hexadecimal and binary text for bytes and words.

use vstd::prelude::*;
use vstd::string::StringExecFns;
use crate::bits::{bit, spec_bit};

verus! {

/// The upper-case hexadecimal digit for a value below sixteen.
pub open spec fn spec_hex_char(n: int) -> char {
    if n == 0 {
        '0'
    } else if n == 1 {
        '1'
    } else if n == 2 {
        '2'
    } else if n == 3 {
        '3'
    } else if n == 4 {
        '4'
    } else if n == 5 {
        '5'
    } else if n == 6 {
        '6'
    } else if n == 7 {
        '7'
    } else if n == 8 {
        '8'
    } else if n == 9 {
        '9'
    } else if n == 10 {
        'A'
    } else if n == 11 {
        'B'
    } else if n == 12 {
        'C'
    } else if n == 13 {
        'D'
    } else if n == 14 {
        'E'
    } else {
        'F'
    }
}

/// A byte as two hexadecimal digits, high nibble first.
pub open spec fn spec_hex2(b: u8) -> Seq<char> {
    seq![spec_hex_char(b as int / 16), spec_hex_char(b as int % 16)]
}

/// A word as four hexadecimal digits, most significant first.
pub open spec fn spec_hex4(w: u16) -> Seq<char> {
    seq![
        spec_hex_char(w as int / 4096),
        spec_hex_char((w as int / 256) % 16),
        spec_hex_char((w as int / 16) % 16),
        spec_hex_char(w as int % 16),
    ]
}

/// A byte as eight binary digits, most significant first.
pub open spec fn spec_bin8(b: u8) -> Seq<char> {
    Seq::new(8, |i: int| if spec_bit(b, 7 - i) { '1' } else { '0' })
}

/// `String::push` of std appends the character to the end of the string.
pub assume_specification[ String::push ](s: &mut String, ch: char)
    ensures
        final(s)@ == old(s)@.push(ch),
;

/// The hexadecimal digit of `n`; `F` for every `n` above fourteen.
pub fn hex_digit(n: u8) -> (s: &'static str)
    ensures
        s@ == seq![spec_hex_char(n as int)],
{
    proof {
        reveal_strlit("0");
        reveal_strlit("1");
        reveal_strlit("2");
        reveal_strlit("3");
        reveal_strlit("4");
        reveal_strlit("5");
        reveal_strlit("6");
        reveal_strlit("7");
        reveal_strlit("8");
        reveal_strlit("9");
        reveal_strlit("A");
        reveal_strlit("B");
        reveal_strlit("C");
        reveal_strlit("D");
        reveal_strlit("E");
        reveal_strlit("F");
    }
    let s = match n {
        0 => "0",
        1 => "1",
        2 => "2",
        3 => "3",
        4 => "4",
        5 => "5",
        6 => "6",
        7 => "7",
        8 => "8",
        9 => "9",
        10 => "A",
        11 => "B",
        12 => "C",
        13 => "D",
        14 => "E",
        _ => "F",
    };
    assert(s@ =~= seq![spec_hex_char(n as int)]);
    s
}

/// Appends a byte as two hexadecimal digits.
pub fn push_hex2(s: &mut String, b: u8)
    ensures
        final(s)@ == old(s)@ + spec_hex2(b),
{
    s.append(hex_digit(b / 16));
    s.append(hex_digit(b % 16));
    assert(s@ =~= old(s)@ + spec_hex2(b));
}

/// Appends a word as four hexadecimal digits.
pub fn push_hex4(s: &mut String, w: u16)
    ensures
        final(s)@ == old(s)@ + spec_hex4(w),
{
    s.append(hex_digit((w / 4096) as u8));
    s.append(hex_digit(((w / 256) % 16) as u8));
    s.append(hex_digit(((w / 16) % 16) as u8));
    s.append(hex_digit((w % 16) as u8));
    assert(s@ =~= old(s)@ + spec_hex4(w));
}

/// An address or offset in hexadecimal, padded with zeros to four digits and
/// longer where the value needs it.
pub open spec fn spec_hex_usize(n: nat) -> Seq<char>
    decreases n,
{
    if n < 0x10000 {
        spec_hex4(n as u16)
    } else {
        spec_hex_usize(n / 16).push(spec_hex_char((n % 16) as int))
    }
}

/// Appends an offset in hexadecimal, at least four digits wide.
pub fn push_hex_usize(s: &mut String, n: usize)
    ensures
        final(s)@ == old(s)@ + spec_hex_usize(n as nat),
    decreases n,
{
    if n < 0x10000 {
        push_hex4(s, n as u16);
    } else {
        push_hex_usize(s, n / 16);
        s.append(hex_digit((n % 16) as u8));
        assert(s@ =~= old(s)@ + spec_hex_usize(n as nat));
    }
}

/// Appends a byte as eight binary digits.
pub fn push_bin8(s: &mut String, b: u8)
    ensures
        final(s)@ == old(s)@ + spec_bin8(b),
{
    let mut i: u8 = 0;
    while i < 8
        invariant
            i <= 8,
            s@ == old(s)@ + spec_bin8(b).subrange(0, i as int),
        decreases 8 - i,
    {
        if bit(b, 7 - i) {
            s.push('1');
        } else {
            s.push('0');
        }
        assert(s@ =~= old(s)@ + spec_bin8(b).subrange(0, i as int + 1));
        i = i + 1;
    }
    assert(spec_bin8(b).subrange(0, 8) =~= spec_bin8(b));
}

} // verus!
