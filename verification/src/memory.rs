//! The CPU's view of a memory bus.

use vstd::prelude::*;
use crate::bits::{spec_add16, spec_word};
use crate::utils::spec_hexdump;

verus! {

/// A memory bus as the CPU sees it: every address can be read and written.
///
/// The bus is described by its view. `spec_read` says what a read returns
/// and `spec_write` what a write leaves behind; a read changes nothing.
pub trait MemIO: View + Sized {
    /// The byte that a read of `addr` returns.
    spec fn spec_read(m: Self::V, addr: u16) -> u8;

    /// The bus after `val` was written to `addr`.
    spec fn spec_write(m: Self::V, addr: u16, val: u8) -> Self::V;

    fn read_byte(&self, addr: u16) -> (val: u8)
        ensures
            val == Self::spec_read(self@, addr),
    ;

    /// Reads a little-endian word; the address of its high byte wraps.
    fn read_word(&self, addr: u16) -> (val: u16)
        ensures
            val == spec_word(
                Self::spec_read(self@, addr),
                Self::spec_read(self@, spec_add16(addr, 1)),
            ),
    ;

    fn write_byte(&mut self, addr: u16, val: u8)
        ensures
            final(self)@ == Self::spec_write(old(self)@, addr, val),
    ;

    /// One dump line for `bytes` bytes read from `from` on; addresses wrap.
    fn memdump(&self, from: usize, bytes: usize) -> (line: String)
        requires
            from + bytes <= usize::MAX,
        ensures
            line@ == spec_hexdump(
                Seq::new(
                    bytes as nat,
                    |i: int| Self::spec_read(self@, ((from + i) % 0x10000) as u16),
                ),
                0,
                bytes as nat,
            ),
    ;
}

/// The little-endian word at `addr`.
pub open spec fn spec_read_word<M: MemIO>(m: M::V, addr: u16) -> u16 {
    spec_word(M::spec_read(m, addr), M::spec_read(m, spec_add16(addr, 1)))
}

} // verus!
