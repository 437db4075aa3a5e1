//! Bytes and words: splitting, joining, and arithmetic that wraps at the
//! width of the 6502's registers and address bus.

use vstd::prelude::*;

verus! {

/// The low byte of a word.
pub open spec fn spec_lo(w: u16) -> u8 {
    (w % 256) as u8
}

/// The high byte of a word.
pub open spec fn spec_hi(w: u16) -> u8 {
    (w / 256) as u8
}

/// The word with the given low and high bytes (little-endian pair).
pub open spec fn spec_word(lo: u8, hi: u8) -> u16 {
    (hi * 256 + lo) as u16
}

/// Sixteen-bit addition on the address bus: the sum modulo 65536.
pub open spec fn spec_add16(a: u16, b: u16) -> u16 {
    ((a + b) % 0x10000) as u16
}

/// Sixteen-bit subtraction on the address bus: the difference modulo 65536.
pub open spec fn spec_sub16(a: u16, b: u16) -> u16 {
    ((a - b) % 0x10000) as u16
}

/// Eight-bit addition in a register: the sum modulo 256.
pub open spec fn spec_add8(a: u8, b: u8) -> u8 {
    ((a + b) % 256) as u8
}

/// Eight-bit subtraction in a register: the difference modulo 256.
pub open spec fn spec_sub8(a: u8, b: u8) -> u8 {
    ((a - b) % 256) as u8
}

/// Two to the power `e`, for `e` from 0 to 7 (1 outside that range).
pub open spec fn spec_pow2(e: int) -> int {
    if e == 1 {
        2
    } else if e == 2 {
        4
    } else if e == 3 {
        8
    } else if e == 4 {
        16
    } else if e == 5 {
        32
    } else if e == 6 {
        64
    } else if e == 7 {
        128
    } else {
        1
    }
}

/// Whether bit `n` of a byte is set, for `n` from 0 (lowest) to 7.
pub open spec fn spec_bit(b: u8, n: int) -> bool {
    (b as int / spec_pow2(n)) % 2 == 1
}

/// The two-bit group of a byte that starts at bit `n`.
pub open spec fn spec_bit_pair(b: u8, n: int) -> u8 {
    ((b as int / spec_pow2(n)) % 4) as u8
}

pub fn pow2(e: u8) -> (p: u8)
    ensures
        p == spec_pow2(e as int),
        p >= 1,
{
    match e {
        1 => 2,
        2 => 4,
        3 => 8,
        4 => 16,
        5 => 32,
        6 => 64,
        7 => 128,
        _ => 1,
    }
}

pub fn bit(b: u8, n: u8) -> (v: bool)
    ensures
        v == spec_bit(b, n as int),
{
    (b / pow2(n)) % 2 == 1
}

pub fn bit_pair(b: u8, n: u8) -> (v: u8)
    ensures
        v == spec_bit_pair(b, n as int),
        v < 4,
{
    (b / pow2(n)) % 4
}

pub fn lo_byte(w: u16) -> (b: u8)
    ensures
        b == spec_lo(w),
{
    (w % 256) as u8
}

pub fn hi_byte(w: u16) -> (b: u8)
    ensures
        b == spec_hi(w),
{
    (w / 256) as u8
}

pub fn make_word(lo: u8, hi: u8) -> (w: u16)
    ensures
        w == spec_word(lo, hi),
        spec_lo(w) == lo,
        spec_hi(w) == hi,
{
    (hi as u16) * 256 + (lo as u16)
}

pub fn add16(a: u16, b: u16) -> (r: u16)
    ensures
        r == spec_add16(a, b),
{
    ((a as u32 + b as u32) % 0x10000) as u16
}

pub fn sub16(a: u16, b: u16) -> (r: u16)
    ensures
        r == spec_sub16(a, b),
{
    ((a as u32 + 0x10000 - b as u32) % 0x10000) as u16
}

pub fn add8(a: u8, b: u8) -> (r: u8)
    ensures
        r == spec_add8(a, b),
{
    ((a as u16 + b as u16) % 256) as u8
}

pub fn sub8(a: u8, b: u8) -> (r: u8)
    ensures
        r == spec_sub8(a, b),
{
    ((a as u16 + 256 - b as u16) % 256) as u8
}

/// A byte as a word.
pub fn widen(b: u8) -> (w: u16)
    ensures
        w == b,
{
    b as u16
}

/// The low byte of a small signed number, taken modulo 256.
pub(crate) fn low8(v: i32) -> (b: u8)
    requires
        -1024 <= v < 1024,
    ensures
        b == (v % 256) as u8,
{
    ((v + 1024) % 256) as u8
}

/// Splitting a word and joining the halves gives the word back.
pub proof fn lemma_word_of_halves(w: u16)
    ensures
        spec_word(spec_lo(w), spec_hi(w)) == w,
{
}

/// Joining two bytes and splitting the word gives the bytes back.
pub proof fn lemma_halves_of_word(lo: u8, hi: u8)
    ensures
        spec_lo(spec_word(lo, hi)) == lo,
        spec_hi(spec_word(lo, hi)) == hi,
{
}

} // verus!
