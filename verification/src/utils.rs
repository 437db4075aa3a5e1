//! The monitor's memory dump line: an offset, the bytes in hexadecimal, and a
//! gutter that shows the letters and digits among them.

use vstd::prelude::*;
use vstd::string::StringExecFns;
use crate::text::{push_hex2, push_hex_usize, spec_hex2, spec_hex_usize};

verus! {

/// Whether `char::is_alphanumeric` holds of a character.
pub uninterp spec fn spec_is_alphanumeric(c: char) -> bool;

/// `char::is_alphanumeric` of std: whether the character is a letter or a
/// number by its Unicode category. The answer depends on the character alone
/// and is named, not spelled out.
#[verifier::external_body]
fn is_alphanumeric(c: char) -> (r: bool)
    ensures
        r == spec_is_alphanumeric(c),
{
    c.is_alphanumeric()
}

/// The gutter shows a byte as its own character when that is a letter or a
/// number, and as a dot otherwise.
pub open spec fn spec_gutter_char(b: u8, alnum: bool) -> char {
    if alnum {
        b as char
    } else {
        '.'
    }
}

pub fn gutter_char(b: u8, alnum: bool) -> (c: char)
    ensures
        c == spec_gutter_char(b, alnum),
{
    if alnum {
        b as char
    } else {
        '.'
    }
}

/// One cell of the hexadecimal part: two digits and a space, or three spaces
/// past the end of the buffer.
pub open spec fn spec_hex_cell(buf: Seq<u8>, n: int) -> Seq<char> {
    if 0 <= n < buf.len() {
        spec_hex2(buf[n]).push(' ')
    } else {
        seq![' ', ' ', ' ']
    }
}

/// The hexadecimal cells for offsets `from .. from + count`.
pub open spec fn spec_hex_cells(buf: Seq<u8>, from: int, count: nat) -> Seq<char>
    decreases count,
{
    if count == 0 {
        Seq::empty()
    } else {
        spec_hex_cells(buf, from, (count - 1) as nat) + spec_hex_cell(buf, from + count - 1)
    }
}

/// One character of the gutter; a dot past the end of the buffer.
pub open spec fn spec_gutter_cell(buf: Seq<u8>, n: int) -> char {
    if 0 <= n < buf.len() {
        spec_gutter_char(buf[n], spec_is_alphanumeric(buf[n] as char))
    } else {
        '.'
    }
}

/// The gutter for offsets `from .. from + count`.
pub open spec fn spec_gutter(buf: Seq<u8>, from: int, count: nat) -> Seq<char> {
    Seq::new(count, |i: int| spec_gutter_cell(buf, from + i))
}

/// The dump line: the offset in at least four hexadecimal digits, a colon and
/// a space, one cell per byte, a space, and the gutter.
pub open spec fn spec_hexdump(buf: Seq<u8>, from: nat, bytes: nat) -> Seq<char> {
    spec_hex_usize(from) + seq![':', ' '] + spec_hex_cells(buf, from as int, bytes) + seq![' ']
        + spec_gutter(buf, from as int, bytes)
}

/// Formats one dump line for `bytes` offsets of `buf` starting at `from`.
pub fn hexdump(buf: &Vec<u8>, from: usize, bytes: usize) -> (line: String)
    requires
        from + bytes <= usize::MAX,
    ensures
        line@ == spec_hexdump(buf@, from as nat, bytes as nat),
{
    proof {
        reveal_strlit(": ");
        reveal_strlit(" ");
        reveal_strlit("   ");
    }
    let mut line = String::new();
    push_hex_usize(&mut line, from);
    line.append(": ");
    let ghost head = spec_hex_usize(from as nat) + seq![':', ' '];
    assert(line@ =~= head);
    let mut i: usize = 0;
    while i < bytes
        invariant
            i <= bytes,
            from + bytes <= usize::MAX,
            line@ == head + spec_hex_cells(buf@, from as int, i as nat),
            " "@ == seq![' '],
            "   "@ == seq![' ', ' ', ' '],
        decreases bytes - i,
    {
        let n = from + i;
        if n < buf.len() {
            push_hex2(&mut line, buf[n]);
            line.append(" ");
        } else {
            line.append("   ");
        }
        assert(line@ =~= head + spec_hex_cells(buf@, from as int, (i + 1) as nat));
        i = i + 1;
    }
    line.append(" ");
    let ghost mid = head + spec_hex_cells(buf@, from as int, bytes as nat) + seq![' '];
    assert(line@ =~= mid);
    let mut j: usize = 0;
    while j < bytes
        invariant
            j <= bytes,
            from + bytes <= usize::MAX,
            line@ == mid + spec_gutter(buf@, from as int, j as nat),
        decreases bytes - j,
    {
        let n = from + j;
        if n < buf.len() {
            let b = buf[n];
            line.push(gutter_char(b, is_alphanumeric(b as char)));
        } else {
            line.push('.');
        }
        assert(line@ =~= mid + spec_gutter(buf@, from as int, (j + 1) as nat));
        j = j + 1;
    }
    line
}

} // verus!
