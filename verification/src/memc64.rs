//! The C64 memory bus: 64 KiB of RAM, the ROM images laid over it, and the
//! I/O register page, with the views that the CPU, the CIA and the VIC have
//! of them.

use vstd::prelude::*;
use crate::bits::{add16, make_word};
use crate::keyboard::{kbd_scancode, spec_kbd_scancode};
use crate::memory::MemIO;
use crate::utils::hexdump;

verus! {

pub const CIA2_DATA_PORT_A: u16 = 0xDD00;

pub const DATA_DIRECTION_PORT: u16 = 0;

pub const IO_PORT: u16 = 1;

pub const VIC_COLOR_RAM: u16 = 0xD800;

/// What the bus holds.
pub struct MemView {
    /// The ROM images at their addresses; 64 KiB, zero where no image lies.
    pub rom: Seq<u8>,
    /// The RAM; 64 KiB.
    pub ram: Seq<u8>,
    /// The I/O register page that appears at $D000-$DFFF; 4 KiB.
    pub io: Seq<u8>,
    /// The host keys that are pressed.
    pub keys: Seq<i32>,
}

impl MemView {
    /// Both memories hold 64 KiB and the I/O page 4 KiB.
    pub open spec fn wf(self) -> bool {
        &&& self.rom.len() == 0x10000
        &&& self.ram.len() == 0x10000
        &&& self.io.len() == 0x1000
    }

    /// Processor port bit 0: BASIC ROM is visible at $A000-$BFFF.
    pub open spec fn loram(self) -> bool {
        self.ram[1] & 0x01 != 0
    }

    /// Processor port bit 1: KERNAL ROM is visible at $E000-$FFFF.
    pub open spec fn hiram(self) -> bool {
        self.ram[1] & 0x02 != 0
    }

    /// Processor port bit 2: the I/O page is visible at $D000-$DFFF, and the
    /// character ROM where the bit is clear.
    pub open spec fn charen(self) -> bool {
        self.ram[1] & 0x04 != 0
    }

    /// The 16 KiB bank of RAM that the VIC sees: 3 minus the low two bits of
    /// CIA2's port A.
    pub open spec fn vic_bank(self) -> int {
        3 - (spec_read_register(self, CIA2_DATA_PORT_A) & 0x03)
    }
}

/// The byte that a read of an I/O register returns, for $D000-$DFFF. $DC01
/// returns the keyboard scan for the rows that $DC00 selects (a low bit in
/// $DC00 selects a row); every other register returns what was last written.
pub open spec fn spec_read_register(m: MemView, addr: u16) -> u8 {
    if addr == 0xDC01 {
        spec_kbd_scancode(m.keys, !m.io[0xC00])
    } else {
        m.io[addr - 0xD000]
    }
}

/// The bus after a write to an I/O register, for $D000-$DFFF.
pub open spec fn spec_write_register(m: MemView, addr: u16, val: u8) -> MemView {
    MemView { io: m.io.update(addr - 0xD000, val), ..m }
}

/// The byte that a CPU read returns: ROM or the I/O page where the processor
/// port lays it over RAM, and RAM elsewhere.
pub open spec fn spec_cpu_read(m: MemView, addr: u16) -> u8 {
    if 0xA000 <= addr <= 0xBFFF {
        if m.loram() {
            m.rom[addr as int]
        } else {
            m.ram[addr as int]
        }
    } else if 0xD000 <= addr <= 0xDFFF {
        if m.charen() {
            spec_read_register(m, addr)
        } else {
            m.rom[addr as int]
        }
    } else if 0xE000 <= addr {
        if m.hiram() {
            m.rom[addr as int]
        } else {
            m.ram[addr as int]
        }
    } else {
        m.ram[addr as int]
    }
}

/// The bus after a CPU write: the I/O page takes writes to $D000-$DFFF while
/// it is visible, and RAM takes every other write.
pub open spec fn spec_cpu_write(m: MemView, addr: u16, val: u8) -> MemView {
    if 0xD000 <= addr <= 0xDFFF && m.charen() {
        spec_write_register(m, addr, val)
    } else {
        MemView { ram: m.ram.update(addr as int, val), ..m }
    }
}

/// The byte that the VIC reads at `addr` of its 16 KiB window: character ROM
/// at $1000-$1FFF in banks 0 and 2, and RAM of the bank elsewhere.
pub open spec fn spec_vic_read(m: MemView, addr: u16) -> u8 {
    if 0x1000 <= addr <= 0x1FFF && (m.vic_bank() == 0 || m.vic_bank() == 2) {
        m.rom[addr + 0xC000]
    } else {
        m.ram[addr + m.vic_bank() * 0x4000]
    }
}

/// The video-matrix byte at `addr` of the VIC's window, always from RAM, and
/// the low nibble of the colour RAM cell that goes with it.
pub open spec fn spec_vic_read_vm(m: MemView, addr: u16) -> (u8, u8) {
    (m.ram[addr + m.vic_bank() * 0x4000], m.io[0x800 + addr % 0x400] & 0x0F)
}

/// The `bytes` bytes that CPU reads from `from` on return; addresses wrap.
pub open spec fn spec_cpu_read_range(m: MemView, from: nat, bytes: nat) -> Seq<u8> {
    Seq::new(bytes, |i: int| spec_cpu_read(m, ((from + i) % 0x10000) as u16))
}

/// `old` with `buf` copied in at `addr`.
pub open spec fn spec_load(old: Seq<u8>, buf: Seq<u8>, addr: u16) -> Seq<u8> {
    Seq::new(
        old.len(),
        |i: int|
            if addr <= i < addr + buf.len() {
                buf[i - addr]
            } else {
                old[i]
            },
    )
}

/// The bus at power-on: everything zero but the processor port and its
/// direction register, and no key pressed.
pub open spec fn spec_power_on() -> MemView {
    MemView {
        rom: Seq::new(0x10000, |i: int| 0u8),
        ram: Seq::new(0x10000, |i: int| 0u8).update(0, 0b101111u8).update(1, 0b111u8),
        io: Seq::new(0x1000, |i: int| 0u8),
        keys: Seq::empty(),
    }
}

/// Whether every CPU write to `addr` lands in RAM, whatever the processor
/// port says: all addresses but the I/O window.
pub open spec fn spec_always_ram(addr: u16) -> bool {
    !(0xD000 <= addr <= 0xDFFF)
}

/// Whether every CPU read of `addr` comes from RAM, whatever the processor
/// port says: the addresses that no ROM and no I/O page can cover.
pub open spec fn spec_never_overlaid(addr: u16) -> bool {
    addr < 0xA000 || 0xC000 <= addr < 0xD000
}

/// The CPU reads back what it wrote to an address that nothing is laid over.
pub proof fn lemma_ram_reads_back(m: MemView, addr: u16, val: u8)
    requires
        m.wf(),
        spec_never_overlaid(addr),
    ensures
        spec_cpu_read(spec_cpu_write(m, addr, val), addr) == val,
        spec_cpu_write(m, addr, val).wf(),
{
}

/// A CPU write to RAM, other than to the processor port, changes what no
/// other address reads.
pub proof fn lemma_ram_write_is_local(m: MemView, addr: u16, val: u8, other: u16)
    requires
        m.wf(),
        spec_always_ram(addr),
        addr != IO_PORT,
        other != addr,
    ensures
        spec_cpu_read(spec_cpu_write(m, addr, val), other) == spec_cpu_read(m, other),
{
}

/// Every CPU write keeps the bus well-formed.
pub proof fn lemma_cpu_write_wf(m: MemView, addr: u16, val: u8)
    requires
        m.wf(),
    ensures
        spec_cpu_write(m, addr, val).wf(),
{
}

/// The overlay follows the processor port. After `port` was written to
/// $0001, a read of $A000-$BFFF returns BASIC ROM where bit 0 of `port` is
/// set and RAM where it is clear; a read of $D000-$DFFF returns the I/O page
/// where bit 2 is set and character ROM where it is clear; a read of
/// $E000-$FFFF returns KERNAL ROM where bit 1 is set and RAM where it is
/// clear.
pub proof fn lemma_overlay_follows_port(m: MemView, port: u8, addr: u16)
    requires
        m.wf(),
    ensures
        ({
            let m1 = spec_cpu_write(m, IO_PORT, port);
            &&& 0xA000 <= addr <= 0xBFFF ==> spec_cpu_read(m1, addr) == if port & 0x01 != 0 {
                m.rom[addr as int]
            } else {
                m.ram[addr as int]
            }
            &&& 0xD000 <= addr <= 0xDFFF ==> spec_cpu_read(m1, addr) == if port & 0x04 != 0 {
                spec_read_register(m, addr)
            } else {
                m.rom[addr as int]
            }
            &&& 0xE000 <= addr ==> spec_cpu_read(m1, addr) == if port & 0x02 != 0 {
                m.rom[addr as int]
            } else {
                m.ram[addr as int]
            }
        }),
{
}

/// The VIC's bank follows CIA2. After `port` was written to $DD00, the VIC
/// sees bank 3 - (port & 3): a read at `addr` of its window returns RAM at
/// `addr` plus the bank times 16 KiB, but for $1000-$1FFF in banks 0 and 2,
/// which return character ROM.
pub proof fn lemma_vic_bank_follows_cia2(m: MemView, port: u8, addr: u16)
    requires
        m.wf(),
        addr < 0x4000,
    ensures
        ({
            let m1 = spec_write_register(m, CIA2_DATA_PORT_A, port);
            let bank = 3 - (port & 0x03);
            &&& 0 <= bank <= 3
            &&& m1.vic_bank() == bank
            &&& spec_vic_read(m1, addr) == if 0x1000 <= addr <= 0x1FFF && (bank == 0 || bank
                == 2) {
                m.rom[addr + 0xC000]
            } else {
                m.ram[addr + bank * 0x4000]
            }
        }),
{
    assert(port & 0x03 <= 3) by (bit_vector);
}

/// The memory bus of a C64.
pub struct MemC64 {
    rom: Vec<u8>,
    ram: Vec<u8>,
    io: Vec<u8>,
    keys: Vec<i32>,
}

impl View for MemC64 {
    type V = MemView;

    closed spec fn view(&self) -> MemView {
        MemView { rom: self.rom@, ram: self.ram@, io: self.io@, keys: self.keys@ }
    }
}

/// The CIA's view of the bus: the registers at $DC00-$DDFF.
pub trait CiaIO: View + Sized {
    spec fn spec_cia_read(m: Self::V, addr: u16) -> u8;

    spec fn spec_cia_write(m: Self::V, addr: u16, val: u8) -> Self::V;

    fn cia_read_register(&self, addr: u16) -> (val: u8)
        requires
            0xDC00 <= addr <= 0xDDFF,
        ensures
            val == Self::spec_cia_read(self@, addr),
    ;

    fn cia_write_register(&mut self, addr: u16, val: u8)
        requires
            0xDC00 <= addr <= 0xDDFF,
        ensures
            final(self)@ == Self::spec_cia_write(old(self)@, addr, val),
    ;
}

/// The VIC's view of the bus: a 16 KiB window of memory, the video matrix
/// with its colour RAM, and the registers at $D000-$D02E.
pub trait VicIO: View + Sized {
    spec fn spec_vic_read_byte(m: Self::V, addr: u16) -> u8;

    spec fn spec_vic_read_register(m: Self::V, addr: u16) -> u8;

    spec fn spec_vic_write_register(m: Self::V, addr: u16, val: u8) -> Self::V;

    spec fn spec_vic_read_vm(m: Self::V, addr: u16) -> (u8, u8);

    fn vic_read_byte(&self, addr: u16) -> (val: u8)
        requires
            addr < 0x4000,
        ensures
            val == Self::spec_vic_read_byte(self@, addr),
    ;

    fn vic_read_register(&self, addr: u16) -> (val: u8)
        requires
            0xD000 <= addr <= 0xD02E,
        ensures
            val == Self::spec_vic_read_register(self@, addr),
    ;

    fn vic_write_register(&mut self, addr: u16, val: u8)
        requires
            0xD000 <= addr <= 0xD02E,
        ensures
            final(self)@ == Self::spec_vic_write_register(old(self)@, addr, val),
    ;

    fn vic_read_vm(&self, addr: u16) -> (pair: (u8, u8))
        requires
            addr < 0x4000,
        ensures
            pair == Self::spec_vic_read_vm(self@, addr),
            pair.1 < 16,
    ;
}

impl MemC64 {
    #[verifier::type_invariant]
    spec fn inv(self) -> bool {
        self@.wf()
    }

    /// The bus at power-on.
    pub fn new() -> (m: MemC64)
        ensures
            m@ == spec_power_on(),
            m@.wf(),
    {
        let rom = vec![0u8; 64 * 1024];
        let io = vec![0u8; 4 * 1024];
        let mut ram = vec![0u8; 64 * 1024];
        let keys: Vec<i32> = Vec::new();
        ram[DATA_DIRECTION_PORT as usize] = 0b101111;
        ram[IO_PORT as usize] = 0b111;
        let m = MemC64 { rom, ram, io, keys };
        assert(m@.rom =~= spec_power_on().rom);
        assert(m@.ram =~= spec_power_on().ram);
        assert(m@.io =~= spec_power_on().io);
        assert(m@.keys =~= spec_power_on().keys);
        m
    }

    /// The bus is always well-formed: both memories hold 64 KiB and the I/O
    /// page 4 KiB.
    pub fn check_wf(&self)
        ensures
            self@.wf(),
    {
        proof {
            use_type_invariant(self);
        }
    }

    /// Copies a ROM image to `addr`.
    pub fn load_rom(&mut self, buf: &Vec<u8>, addr: u16)
        requires
            addr + buf.len() <= 0x10000,
        ensures
            final(self)@ == (MemView { rom: spec_load(old(self)@.rom, buf@, addr), ..old(self)@ }),
            final(self)@.wf(),
    {
        proof {
            use_type_invariant(&*self);
        }
        let mut ix: usize = 0;
        while ix < buf.len()
            invariant
                ix <= buf.len(),
                addr + buf.len() <= 0x10000,
                self.rom@.len() == 0x10000,
                self.ram == old(self).ram,
                self.io == old(self).io,
                self.keys == old(self).keys,
                self@.wf(),
                forall|i: int|
                    0 <= i < 0x10000 ==> self.rom@[i] == if addr <= i < addr + ix {
                        buf@[i - addr]
                    } else {
                        old(self).rom@[i]
                    },
            decreases buf.len() - ix,
        {
            self.rom[addr as usize + ix] = buf[ix];
            ix = ix + 1;
        }
        assert(self.rom@ =~= spec_load(old(self)@.rom, buf@, addr));
    }

    /// Copies a program or data to `addr` of RAM.
    pub fn load_ram(&mut self, buf: &Vec<u8>, addr: u16)
        requires
            addr + buf.len() <= 0x10000,
        ensures
            final(self)@ == (MemView { ram: spec_load(old(self)@.ram, buf@, addr), ..old(self)@ }),
            final(self)@.wf(),
    {
        proof {
            use_type_invariant(&*self);
        }
        let mut ix: usize = 0;
        while ix < buf.len()
            invariant
                ix <= buf.len(),
                addr + buf.len() <= 0x10000,
                self.ram@.len() == 0x10000,
                self.rom == old(self).rom,
                self.io == old(self).io,
                self.keys == old(self).keys,
                self@.wf(),
                forall|i: int|
                    0 <= i < 0x10000 ==> self.ram@[i] == if addr <= i < addr + ix {
                        buf@[i - addr]
                    } else {
                        old(self).ram@[i]
                    },
            decreases buf.len() - ix,
        {
            self.ram[addr as usize + ix] = buf[ix];
            ix = ix + 1;
        }
        assert(self.ram@ =~= spec_load(old(self)@.ram, buf@, addr));
    }

    /// Takes the host's snapshot of pressed keys.
    pub fn refresh(&mut self, keys: Vec<i32>)
        ensures
            final(self)@ == (MemView { keys: keys@, ..old(self)@ }),
            final(self)@.wf(),
    {
        proof {
            use_type_invariant(&*self);
        }
        self.keys = keys;
    }

    /// Reads a register of the I/O page, $D000-$DFFF.
    pub fn read_register(&self, addr: u16) -> (val: u8)
        requires
            0xD000 <= addr <= 0xDFFF,
        ensures
            val == spec_read_register(self@, addr),
    {
        proof {
            use_type_invariant(self);
        }
        if addr == 0xDC01 {
            kbd_scancode(&self.keys, !self.io[0xDC00 - 0xD000])
        } else {
            self.io[addr as usize - 0xD000]
        }
    }

    /// Writes a register of the I/O page, $D000-$DFFF.
    pub fn write_register(&mut self, addr: u16, val: u8)
        requires
            0xD000 <= addr <= 0xDFFF,
        ensures
            final(self)@ == spec_write_register(old(self)@, addr, val),
            final(self)@.wf(),
    {
        proof {
            use_type_invariant(&*self);
        }
        self.io[addr as usize - 0xD000] = val;
    }

    fn vic_bank(&self) -> (bank: u16)
        ensures
            bank == self@.vic_bank(),
            bank <= 3,
    {
        let port = self.read_register(CIA2_DATA_PORT_A);
        let bits = port & 0x03;
        assert(bits <= 3) by (bit_vector)
            requires
                bits == port & 0x03,
        ;
        3 - bits as u16
    }
}

impl CiaIO for MemC64 {
    open spec fn spec_cia_read(m: MemView, addr: u16) -> u8 {
        spec_read_register(m, addr)
    }

    open spec fn spec_cia_write(m: MemView, addr: u16, val: u8) -> MemView {
        spec_write_register(m, addr, val)
    }

    fn cia_read_register(&self, addr: u16) -> (val: u8) {
        self.read_register(addr)
    }

    fn cia_write_register(&mut self, addr: u16, val: u8) {
        self.write_register(addr, val)
    }
}

impl VicIO for MemC64 {
    open spec fn spec_vic_read_byte(m: MemView, addr: u16) -> u8 {
        spec_vic_read(m, addr)
    }

    open spec fn spec_vic_read_register(m: MemView, addr: u16) -> u8 {
        spec_read_register(m, addr)
    }

    open spec fn spec_vic_write_register(m: MemView, addr: u16, val: u8) -> MemView {
        spec_write_register(m, addr, val)
    }

    open spec fn spec_vic_read_vm(m: MemView, addr: u16) -> (u8, u8) {
        crate::memc64::spec_vic_read_vm(m, addr)
    }

    fn vic_read_byte(&self, addr: u16) -> (val: u8) {
        proof {
            use_type_invariant(self);
        }
        let bank = self.vic_bank();
        if 0x1000 <= addr && addr <= 0x1FFF && (bank == 0 || bank == 2) {
            self.rom[(addr + 0xC000) as usize]
        } else {
            self.ram[(addr + bank * 0x4000) as usize]
        }
    }

    fn vic_read_register(&self, addr: u16) -> (val: u8) {
        self.read_register(addr)
    }

    fn vic_write_register(&mut self, addr: u16, val: u8) {
        self.write_register(addr, val)
    }

    fn vic_read_vm(&self, addr: u16) -> (pair: (u8, u8)) {
        proof {
            use_type_invariant(self);
        }
        let bank = self.vic_bank();
        let ch = self.ram[(addr + bank * 0x4000) as usize];
        let clr_ix = addr % 0x0400;
        let cell = self.io[(VIC_COLOR_RAM - 0xD000 + clr_ix) as usize];
        let clr = cell & 0x0F;
        assert(clr < 16) by (bit_vector)
            requires
                clr == cell & 0x0F,
        ;
        (ch, clr)
    }
}

impl MemIO for MemC64 {
    open spec fn spec_read(m: MemView, addr: u16) -> u8 {
        spec_cpu_read(m, addr)
    }

    open spec fn spec_write(m: MemView, addr: u16, val: u8) -> MemView {
        spec_cpu_write(m, addr, val)
    }

    fn read_byte(&self, addr: u16) -> (val: u8) {
        proof {
            use_type_invariant(self);
        }
        if 0xA000 <= addr && addr <= 0xBFFF {
            if self.ram[IO_PORT as usize] & 0x01 != 0 {
                self.rom[addr as usize]
            } else {
                self.ram[addr as usize]
            }
        } else if 0xD000 <= addr && addr <= 0xDFFF {
            if self.ram[IO_PORT as usize] & 0x04 != 0 {
                self.read_register(addr)
            } else {
                self.rom[addr as usize]
            }
        } else if 0xE000 <= addr {
            if self.ram[IO_PORT as usize] & 0x02 != 0 {
                self.rom[addr as usize]
            } else {
                self.ram[addr as usize]
            }
        } else {
            self.ram[addr as usize]
        }
    }

    fn read_word(&self, addr: u16) -> (val: u16) {
        let lobyte = self.read_byte(addr);
        let hibyte = self.read_byte(add16(addr, 1));
        make_word(lobyte, hibyte)
    }

    fn write_byte(&mut self, addr: u16, val: u8) {
        proof {
            use_type_invariant(&*self);
        }
        if 0xD000 <= addr && addr <= 0xDFFF && self.ram[IO_PORT as usize] & 0x04 != 0 {
            self.write_register(addr, val);
        } else {
            self.ram[addr as usize] = val;
        }
    }

    fn memdump(&self, from: usize, bytes: usize) -> (line: String) {
        let mut buf: Vec<u8> = Vec::new();
        let mut i: usize = 0;
        while i < bytes
            invariant
                i <= bytes,
                from + bytes <= usize::MAX,
                buf@ == spec_cpu_read_range(self@, from as nat, i as nat),
            decreases bytes - i,
        {
            let addr = ((from + i) % 0x10000) as u16;
            let b = self.read_byte(addr);
            buf.push(b);
            assert(buf@ =~= spec_cpu_read_range(self@, from as nat, (i + 1) as nat));
            i = i + 1;
        }
        assert(buf@ =~= Seq::new(
            bytes as nat,
            |i: int| Self::spec_read(self@, ((from + i) % 0x10000) as u16),
        ));
        hexdump(&buf, 0, bytes)
    }
}

} // verus!
